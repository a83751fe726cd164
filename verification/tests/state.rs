use std::time::Duration;
use tokio::runtime::Runtime;
use tokio::task::JoinHandle;
use watchmedo::settings::{AppSettings, HttpSettings, RemoteSettings};
use watchmedo::state::{
    apply_saved_remote_settings, auto_launch_arguments, begin_test_push, conclude_auto_launch,
    conclude_test_push, confirm_port, finish_http_start, finish_push_start, get_last_push_time,
    is_silent_launch, prepare_http_start, prepare_push_start, record_push_outcome,
    set_remote_settings, startup_plan, stop_http_server, stop_remote_push, AppState, PushError,
    PushTimeError, StartError,
};
use watchmedo::tasks::{TaskHandle, TaskKind};

fn state_runtime() -> Runtime {
    tokio::runtime::Builder::new_current_thread().enable_all().build().unwrap()
}

fn sleeping_join_handle(runtime: &Runtime) -> JoinHandle<()> {
    runtime.spawn(async {
        tokio::time::sleep(Duration::from_secs(3600)).await;
    })
}

fn sleeping_task(runtime: &Runtime) -> TaskHandle {
    TaskHandle::new(sleeping_join_handle(runtime))
}

fn cancelled(runtime: &Runtime, handle: TaskHandle) -> bool {
    let handle = handle.into_inner();
    match runtime.block_on(async { tokio::time::timeout(Duration::from_secs(5), handle).await }) {
        Ok(Err(error)) => error.is_cancelled(),
        _ => false,
    }
}

fn configured(enabled: bool) -> RemoteSettings {
    RemoteSettings {
        enabled,
        url: "https://collector.example/ingest".to_string(),
        token: "device-token".to_string(),
        interval_seconds: 15,
    }
}

#[test]
fn new_state_has_the_defaults() {
    let state = AppState::new();
    assert_eq!(state.http_settings, HttpSettings { port: 21536, is_running: false });
    let share = state.share_settings;
    assert!(share.share_computer_name && share.share_uptime && share.share_cpu_usage);
    assert!(share.share_memory_usage && share.share_processes && share.share_disks);
    assert!(share.share_network);
    assert_eq!(
        state.app_settings,
        AppSettings {
            auto_start_http: true,
            auto_launch: false,
            silent_launch: false,
            process_limit: 20
        }
    );
    assert!(!state.remote_settings.enabled);
    assert_eq!(state.remote_settings.url, "");
    assert_eq!(state.remote_settings.token, "");
    assert_eq!(state.remote_settings.interval_seconds, 60);
    assert!(!state.tasks.is_running(TaskKind::HttpServer));
    assert!(!state.tasks.is_running(TaskKind::PushLoop));
    assert_eq!(state.last_push_time, None);
    assert_eq!(get_last_push_time(state.last_push_time, 0), Err(PushTimeError::NeverPushed));
}

#[test]
fn set_remote_settings_returns_what_is_to_be_written() {
    let mut state = AppState::new();
    let persisted = set_remote_settings(&mut state.remote_settings, configured(true));
    assert_eq!(persisted, configured(true));
    assert_eq!(state.remote_settings, configured(true));
}

#[test]
fn saved_remote_settings_replace_the_defaults() {
    let mut state = AppState::new();
    apply_saved_remote_settings(&mut state.remote_settings, None);
    assert_eq!(state.remote_settings, RemoteSettings::default());
    apply_saved_remote_settings(&mut state.remote_settings, Some(configured(true)));
    assert_eq!(state.remote_settings, configured(true));
}

#[test]
fn port_zero_is_refused() {
    let mut state = AppState::new();
    state.http_settings.port = 0;
    assert!(matches!(
        prepare_http_start(&mut state.tasks, &mut state.http_settings),
        Err(StartError::InvalidPort)
    ));
    assert!(!state.http_settings.is_running);
}

#[test]
fn port_zero_leaves_a_running_server_alone() {
    let runtime = state_runtime();
    let mut state = AppState::new();
    prepare_http_start(&mut state.tasks, &mut state.http_settings).unwrap();
    finish_http_start(&mut state.tasks, &mut state.http_settings, sleeping_task(&runtime));
    state.http_settings.port = 0;
    assert!(prepare_http_start(&mut state.tasks, &mut state.http_settings).is_err());
    assert!(state.http_settings.is_running);
    assert!(state.tasks.is_running(TaskKind::HttpServer));
}

#[test]
fn port_in_use_is_its_own_error() {
    assert!(confirm_port(8080, true).is_ok());
    match confirm_port(8080, false) {
        Err(StartError::PortInUse(port)) => assert_eq!(port, 8080),
        other => panic!("unexpected outcome {:?}", other),
    }
    assert_eq!(StartError::PortInUse(8080).message(), "Port 8080 is already in use");
    assert_eq!(StartError::InvalidPort.message(), "Port 0 is not a valid port");
    assert_eq!(StartError::NotConfigured.message(), "Remote URL is not configured");
}

#[test]
fn failed_port_check_leaves_the_server_stopped() {
    let mut state = AppState::new();
    let start = prepare_http_start(&mut state.tasks, &mut state.http_settings).unwrap();
    assert_eq!(start.port, 21536);
    assert!(start.stopped.is_none());
    assert!(confirm_port(start.port, false).is_err());
    assert!(!state.http_settings.is_running);
    assert!(!state.tasks.is_running(TaskKind::HttpServer));
    assert!(stop_http_server(&mut state.tasks, &mut state.http_settings).is_none());
}

#[test]
fn http_start_and_stop() {
    let runtime = state_runtime();
    let mut state = AppState::new();
    let start = prepare_http_start(&mut state.tasks, &mut state.http_settings).unwrap();
    confirm_port(start.port, true).unwrap();
    let stopped =
        finish_http_start(&mut state.tasks, &mut state.http_settings, sleeping_task(&runtime));
    assert!(stopped.is_none());
    assert!(state.http_settings.is_running);
    assert!(state.tasks.is_running(TaskKind::HttpServer));
    let handle = stop_http_server(&mut state.tasks, &mut state.http_settings).unwrap();
    assert!(cancelled(&runtime, handle));
    assert!(!state.http_settings.is_running);
    assert!(stop_http_server(&mut state.tasks, &mut state.http_settings).is_none());
    assert!(!state.http_settings.is_running);
    assert_eq!(state.http_settings.port, 21536);
}

#[test]
fn starting_http_twice_leaves_one_server_on_the_second_port() {
    let runtime = state_runtime();
    let mut state = AppState::new();
    state.http_settings.port = 8001;
    let start = prepare_http_start(&mut state.tasks, &mut state.http_settings).unwrap();
    assert_eq!(start.port, 8001);
    assert!(start.stopped.is_none());
    finish_http_start(&mut state.tasks, &mut state.http_settings, sleeping_task(&runtime));
    assert!(state.http_settings.is_running);

    state.http_settings.port = 8002;
    let start = prepare_http_start(&mut state.tasks, &mut state.http_settings).unwrap();
    assert_eq!(start.port, 8002);
    assert!(cancelled(&runtime, start.stopped.unwrap()));
    assert!(!state.http_settings.is_running);
    assert!(!state.tasks.is_running(TaskKind::HttpServer));
    finish_http_start(&mut state.tasks, &mut state.http_settings, sleeping_task(&runtime));
    assert_eq!(state.http_settings, HttpSettings { port: 8002, is_running: true });

    let second = stop_http_server(&mut state.tasks, &mut state.http_settings).unwrap();
    assert!(cancelled(&runtime, second));
    assert!(stop_http_server(&mut state.tasks, &mut state.http_settings).is_none());
}

#[test]
fn push_start_needs_a_collector() {
    let mut state = AppState::new();
    assert!(matches!(
        prepare_push_start(&mut state.tasks, &state.remote_settings),
        Err(StartError::NotConfigured)
    ));
    assert!(!state.tasks.is_running(TaskKind::PushLoop));
    assert!(!state.remote_settings.enabled);
}

#[test]
fn push_start_enables_and_stop_disables() {
    let runtime = state_runtime();
    let mut state = AppState::new();
    state.remote_settings = configured(false);
    assert!(prepare_push_start(&mut state.tasks, &state.remote_settings).unwrap().is_none());
    let (stopped, persisted) =
        finish_push_start(&mut state.tasks, &mut state.remote_settings, sleeping_task(&runtime));
    assert!(stopped.is_none());
    assert_eq!(persisted, configured(true));
    assert!(state.tasks.is_running(TaskKind::PushLoop));
    assert!(state.remote_settings.enabled);
    assert!(!state.tasks.is_running(TaskKind::HttpServer));

    let (handle, persisted) = stop_remote_push(&mut state.tasks, &mut state.remote_settings);
    assert!(cancelled(&runtime, handle.unwrap()));
    assert_eq!(persisted, configured(false));
    assert!(!state.tasks.is_running(TaskKind::PushLoop));
    assert!(!state.remote_settings.enabled);

    let (handle, persisted) = stop_remote_push(&mut state.tasks, &mut state.remote_settings);
    assert!(handle.is_none());
    assert_eq!(persisted, configured(false));
}

#[test]
fn restarting_the_push_loop_cancels_the_old_one() {
    let runtime = state_runtime();
    let mut state = AppState::new();
    state.remote_settings = configured(true);
    prepare_push_start(&mut state.tasks, &state.remote_settings).unwrap();
    finish_push_start(&mut state.tasks, &mut state.remote_settings, sleeping_task(&runtime));
    let old = prepare_push_start(&mut state.tasks, &state.remote_settings).unwrap();
    assert!(cancelled(&runtime, old.unwrap()));
    assert!(!state.tasks.is_running(TaskKind::PushLoop));
    finish_push_start(&mut state.tasks, &mut state.remote_settings, sleeping_task(&runtime));
    let (replaced, _) =
        finish_push_start(&mut state.tasks, &mut state.remote_settings, sleeping_task(&runtime));
    assert!(cancelled(&runtime, replaced.unwrap()));
    assert!(state.tasks.is_running(TaskKind::PushLoop));
    let (handle, _) = stop_remote_push(&mut state.tasks, &mut state.remote_settings);
    assert!(handle.is_some());
    let (handle, _) = stop_remote_push(&mut state.tasks, &mut state.remote_settings);
    assert!(handle.is_none());
}

#[test]
fn last_push_time_follows_acknowledged_pushes() {
    let mut last = None;
    assert!(!record_push_outcome(&mut last, None, 1000));
    assert!(!record_push_outcome(&mut last, Some(500), 1000));
    assert_eq!(get_last_push_time(last, 2000), Err(PushTimeError::NeverPushed));
    assert!(record_push_outcome(&mut last, Some(200), 1000));
    assert_eq!(last, Some(1000));
    assert_eq!(get_last_push_time(last, 1045).unwrap(), "45s ago");
    assert_eq!(get_last_push_time(last, 1125).unwrap(), "2m ago");
    assert_eq!(get_last_push_time(last, 8200).unwrap(), "2h ago");
    assert_eq!(get_last_push_time(last, 173800).unwrap(), "2d ago");
    assert_eq!(get_last_push_time(last, 999).unwrap(), "0s ago");
    assert!(!record_push_outcome(&mut last, Some(404), 5000));
    assert_eq!(last, Some(1000));
}

#[test]
fn test_push_needs_a_collector_but_not_the_switch() {
    assert!(matches!(
        begin_test_push(&RemoteSettings::default(), 7000),
        Err(PushError::NotConfigured)
    ));
    assert_eq!(
        begin_test_push(&configured(false), 7000).unwrap(),
        "http://localhost:7000/api/system"
    );
}

#[test]
fn test_push_outcomes() {
    let mut last = None;
    match conclude_test_push(&mut last, Err("connection refused".to_string()), 50) {
        Err(PushError::SendFailed(reason)) => assert_eq!(reason, "connection refused"),
        other => panic!("unexpected outcome {:?}", other),
    }
    match conclude_test_push(&mut last, Ok(500), 50) {
        Err(PushError::Rejected(status)) => assert_eq!(status, 500),
        other => panic!("unexpected outcome {:?}", other),
    }
    assert_eq!(last, None);
    assert!(conclude_test_push(&mut last, Ok(201), 50).is_ok());
    assert_eq!(last, Some(50));
    assert_eq!(get_last_push_time(last, 60).unwrap(), "10s ago");
}

#[test]
fn push_error_messages() {
    assert_eq!(PushError::NotConfigured.message(), "Remote URL is not configured");
    assert_eq!(
        PushError::FetchFailed("timeout".to_string()).message(),
        "Failed to fetch local data: timeout"
    );
    assert_eq!(PushError::SendFailed("reset".to_string()).message(), "Push failed: reset");
    assert_eq!(PushError::Rejected(503).message(), "Push failed, server returned status 503");
    assert_eq!(PushTimeError::NeverPushed.message(), "Nothing was pushed yet");
}

#[test]
fn auto_launch_arguments_follow_the_silent_setting() {
    let mut app = AppSettings::default();
    assert!(auto_launch_arguments(&app).is_empty());
    app.silent_launch = true;
    assert_eq!(auto_launch_arguments(&app), vec!["--silent".to_string()]);
}

#[test]
fn auto_launch_is_set_only_after_a_registration_that_worked() {
    let mut app = AppSettings::default();
    let outcome = conclude_auto_launch(&mut app, true, Err("denied".to_string()));
    assert_eq!(outcome, Err("denied".to_string()));
    assert!(!app.auto_launch);
    assert_eq!(conclude_auto_launch(&mut app, true, Ok(())), Ok(()));
    assert!(app.auto_launch);
    assert_eq!(conclude_auto_launch(&mut app, false, Ok(())), Ok(()));
    assert!(!app.auto_launch);
    assert_eq!(app.process_limit, 20);
}

#[test]
fn startup_plan_follows_the_settings() {
    let mut app = AppSettings::default();
    let plan = startup_plan(&app, &RemoteSettings::default());
    assert!(plan.start_http);
    assert!(!plan.start_push);
    assert!(startup_plan(&app, &configured(true)).start_push);
    assert!(!startup_plan(&app, &configured(false)).start_push);
    let mut no_url = configured(true);
    no_url.url = String::new();
    assert!(!startup_plan(&app, &no_url).start_push);
    app.auto_start_http = false;
    let plan = startup_plan(&app, &configured(true));
    assert!(!plan.start_http);
    assert!(!plan.start_push);
}

#[test]
fn silent_launch_is_asked_for_by_an_argument() {
    assert!(!is_silent_launch(&Vec::new()));
    assert!(!is_silent_launch(&vec!["app".to_string(), "--verbose".to_string()]));
    assert!(is_silent_launch(&vec!["app".to_string(), "--silent".to_string()]));
    assert!(!is_silent_launch(&vec!["--silently".to_string()]));
}
