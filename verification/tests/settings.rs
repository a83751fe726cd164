use watchmedo::settings::{
    AppSettings, HttpSettings, RemoteSettings, ShareSettings, DEFAULT_HTTP_PORT,
    DEFAULT_PROCESS_LIMIT, DEFAULT_PUSH_INTERVAL_SECONDS,
};

#[test]
fn default_constants() {
    assert_eq!(DEFAULT_HTTP_PORT, 21536);
    assert_eq!(DEFAULT_PROCESS_LIMIT, 20);
    assert_eq!(DEFAULT_PUSH_INTERVAL_SECONDS, 60);
}

#[test]
fn default_records() {
    assert_eq!(HttpSettings::default(), HttpSettings { port: 21536, is_running: false });
    assert_eq!(
        AppSettings::default(),
        AppSettings {
            auto_start_http: true,
            auto_launch: false,
            silent_launch: false,
            process_limit: 20
        }
    );
    let share = ShareSettings::default();
    assert!(share.share_computer_name);
    assert!(share.share_uptime);
    assert!(share.share_cpu_usage);
    assert!(share.share_memory_usage);
    assert!(share.share_processes);
    assert!(share.share_disks);
    assert!(share.share_network);
    let remote = RemoteSettings::default();
    assert!(!remote.enabled);
    assert!(remote.url.is_empty());
    assert!(remote.token.is_empty());
    assert_eq!(remote.interval_seconds, 60);
}

#[test]
fn remote_settings_compare_field_for_field() {
    let base = RemoteSettings {
        enabled: true,
        url: "https://c.example".to_string(),
        token: "t".to_string(),
        interval_seconds: 10,
    };
    assert_eq!(base.clone(), base);
    let mut other = base.clone();
    other.enabled = false;
    assert_ne!(other, base);
    let mut other = base.clone();
    other.url.push('/');
    assert_ne!(other, base);
    let mut other = base.clone();
    other.token.clear();
    assert_ne!(other, base);
    let mut other = base.clone();
    other.interval_seconds = 11;
    assert_ne!(other, base);
}
