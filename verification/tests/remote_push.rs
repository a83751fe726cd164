use std::time::Duration;
use tokio::runtime::Runtime;
use tokio::task::JoinHandle;
use watchmedo::push::{PushAction, PushEvent};
use watchmedo::remote_push::{
    format_push_time, push_time_text, RemotePushState, PUSH_TIME_FORMAT,
};
use watchmedo::settings::RemoteSettings;
use watchmedo::tasks::TaskHandle;

fn push_runtime() -> Runtime {
    tokio::runtime::Builder::new_current_thread().enable_all().build().unwrap()
}

fn idle_join_handle(runtime: &Runtime) -> JoinHandle<()> {
    runtime.spawn(async {
        tokio::time::sleep(Duration::from_secs(3600)).await;
    })
}

fn idle_task(runtime: &Runtime) -> TaskHandle {
    TaskHandle::new(idle_join_handle(runtime))
}

fn task_was_cancelled(runtime: &Runtime, handle: TaskHandle) -> bool {
    let handle = handle.into_inner();
    match runtime.block_on(async { tokio::time::timeout(Duration::from_secs(5), handle).await }) {
        Ok(Err(error)) => error.is_cancelled(),
        _ => false,
    }
}

fn settings(enabled: bool, url: &str) -> RemoteSettings {
    RemoteSettings { enabled, url: url.to_string(), token: String::new(), interval_seconds: 60 }
}

#[test]
fn new_push_state_has_the_defaults() {
    let state = RemotePushState::new();
    let current = state.get_settings();
    assert!(!current.enabled);
    assert_eq!(current.url, "");
    assert_eq!(current.interval_seconds, 60);
    assert!(state.get_last_push_time().is_none());
    assert!(!state.is_running());
    assert_eq!(
        state.test_push().unwrap_err(),
        "Remote URL is not configured"
    );
}

#[test]
fn settings_round_trip_through_the_state() {
    let mut state = RemotePushState::new();
    state.set_settings(settings(true, "https://c.example"));
    assert_eq!(state.get_settings(), settings(true, "https://c.example"));
}

#[test]
fn push_plan_needs_switch_and_address() {
    let mut state = RemotePushState::new();
    assert_eq!(state.push_plan().unwrap_err(), "Remote push is not properly configured");
    state.set_settings(settings(true, ""));
    assert!(state.push_plan().is_err());
    state.set_settings(settings(false, "https://c.example"));
    assert!(state.push_plan().is_err());
    state.set_settings(settings(true, "https://c.example"));
    assert_eq!(state.push_plan().unwrap(), "http://localhost:21536/api/system");
    state.update_http_port(4000);
    assert_eq!(state.push_plan().unwrap(), "http://localhost:4000/api/system");
}

#[test]
fn start_push_refuses_without_configuration() {
    let runtime = push_runtime();
    let mut state = RemotePushState::new();
    let (message, refused) = state.start_push(idle_task(&runtime)).unwrap_err();
    assert_eq!(message, "Remote push is not properly configured");
    assert!(task_was_cancelled(&runtime, refused));
    assert!(!state.is_running());
}

#[test]
fn start_and_stop_push() {
    let runtime = push_runtime();
    let mut state = RemotePushState::new();
    state.set_settings(settings(true, "https://c.example"));
    assert!(state.start_push(idle_task(&runtime)).unwrap().is_none());
    assert!(state.is_running());
    let first = state.start_push(idle_task(&runtime)).unwrap().unwrap();
    assert!(task_was_cancelled(&runtime, first));
    assert!(state.is_running());
    let second = state.stop_push().unwrap();
    assert!(task_was_cancelled(&runtime, second));
    assert!(!state.is_running());
    assert_eq!(state.stop_push().unwrap_err(), "No push task running");
}

#[test]
fn test_push_ignores_the_switch() {
    let mut state = RemotePushState::new();
    state.set_settings(settings(false, "https://c.example"));
    state.update_http_port(9999);
    assert_eq!(state.test_push().unwrap(), "http://localhost:9999/api/system");
    assert_eq!(state.local_url(), "http://localhost:9999/api/system");
}

#[test]
fn push_time_is_formatted_in_utc() {
    assert_eq!(format_push_time(0), "1970-01-01 00:00:00");
    assert_eq!(format_push_time(1431648000), "2015-05-15 00:00:00");
    assert_eq!(format_push_time(1000000000), "2001-09-09 01:46:40");
    assert_eq!(format_push_time(u64::MAX), "1969-12-31 23:59:59");
}

#[test]
fn push_time_that_cannot_be_formatted_is_unknown() {
    assert_eq!(format_push_time(i64::MAX as u64), "Unknown");
    assert_eq!(push_time_text(None), "Unknown");
    assert_eq!(push_time_text(Some("2001-09-09 01:46:40".to_string())), "2001-09-09 01:46:40");
}

#[test]
fn acknowledged_push_is_remembered_with_its_time() {
    let mut state = RemotePushState::new();
    assert!(state.record_push_outcome(Some(204), 0));
    assert_eq!(state.get_last_push_time().unwrap(), "1970-01-01 00:00:00");
    assert!(state.record_push_outcome(Some(200), i64::MAX as u64));
    assert_eq!(state.get_last_push_time().unwrap(), "Unknown");
}

#[test]
fn push_time_format_is_date_and_time() {
    assert_eq!(PUSH_TIME_FORMAT, "%Y-%m-%d %H:%M:%S");
}

#[test]
fn only_acknowledged_pushes_are_remembered() {
    let mut state = RemotePushState::new();
    assert!(!state.record_push_outcome(None, 1431648000));
    assert!(!state.record_push_outcome(Some(500), 1431648000));
    assert!(!state.record_push_outcome(Some(199), 1431648000));
    assert!(state.get_last_push_time().is_none());
    assert!(state.record_push_outcome(Some(200), 1431648000));
    assert_eq!(state.get_last_push_time().unwrap(), "2015-05-15 00:00:00");
    assert!(!state.record_push_outcome(Some(300), 1431648061));
    assert_eq!(state.get_last_push_time().unwrap(), "2015-05-15 00:00:00");
    assert!(state.record_push_outcome(Some(299), 1431648061));
    assert_eq!(state.get_last_push_time().unwrap(), "2015-05-15 00:01:01");
}

#[test]
fn push_task_follows_the_settings_of_the_state() {
    let mut state = RemotePushState::new();
    state.update_http_port(4100);
    state.set_settings(RemoteSettings {
        enabled: true,
        url: "https://c.example".to_string(),
        token: "t".to_string(),
        interval_seconds: 7,
    });
    match state.next_action(PushEvent::Wake) {
        PushAction::Fetch(url) => assert_eq!(url, "http://localhost:4100/api/system"),
        other => panic!("unexpected action {:?}", other),
    }
    assert!(matches!(state.next_action(PushEvent::Fetched(None)), PushAction::Sleep(7)));
    match state.next_action(PushEvent::Fetched(Some("{}".to_string()))) {
        PushAction::Forward(request) => {
            assert_eq!(request.url, "https://c.example");
            assert_eq!(request.device_token.as_deref(), Some("t"));
            assert_eq!(request.body, "{}");
        }
        other => panic!("unexpected action {:?}", other),
    }
    assert!(matches!(state.next_action(PushEvent::Forwarded(Some(500))), PushAction::Sleep(7)));

    let mut changed = state.get_settings();
    changed.enabled = false;
    changed.interval_seconds = 9;
    state.set_settings(changed);
    assert!(matches!(state.next_action(PushEvent::Forwarded(None)), PushAction::Sleep(9)));
    assert!(matches!(state.next_action(PushEvent::Wake), PushAction::Exit));
}
