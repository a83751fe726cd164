//! The application state: the settings records, the background tasks and the
//! time of the last push, with the operations that start and stop the tasks.
//!
//! Every operation works on the parts of the state that it names, so that a
//! caller who shares the state between threads can guard each part with a
//! lock of its own and hold a lock for one operation only. Work that takes
//! time (probing and binding a port, spawning a task, fetching, sending,
//! writing the remote settings out) is done by the caller between two
//! operations, with no lock held; each operation says what the caller hands
//! in and gets back.

use crate::decimal::{decimal_text, push_decimal};
use crate::push::{
    delivered, is_delivered, local_snapshot_url, local_snapshot_url_text, relative_age,
    relative_age_text,
};
use crate::settings::{
    AppSettings, HttpSettings, RemoteSettings, ShareSettings, DEFAULT_HTTP_PORT,
    DEFAULT_PROCESS_LIMIT,
};
use crate::tasks::{cancelled, cancelled_if_held, TaskHandle, TaskKind, TaskSupervisor, Tasks};
use vstd::prelude::*;

verus! {

/// Why a task was not started.
#[derive(Debug)]
pub enum StartError {
    /// The HTTP port is 0, which names no port.
    InvalidPort,
    /// The HTTP port cannot be bound because something else holds it.
    PortInUse(u16),
    /// No collector address is configured.
    NotConfigured,
}

/// Why a push did not succeed.
#[derive(Debug)]
pub enum PushError {
    /// No collector address is configured.
    NotConfigured,
    /// The local snapshot could not be fetched; the text says why.
    FetchFailed(String),
    /// The push got no answer; the text says why.
    SendFailed(String),
    /// The collector answered with a status outside 200 to 299.
    Rejected(u16),
}

/// Why the time of the last push cannot be told.
#[derive(Clone, Copy, Debug, PartialEq, Eq, Structural)]
pub enum PushTimeError {
    /// Nothing was pushed yet.
    NeverPushed,
}

impl PushTimeError {
    /// The message of the error.
    pub open spec fn message_text(self) -> Seq<char> {
        "Nothing was pushed yet"@
    }

    /// The message of the error.
    pub fn message(&self) -> (text: String)
        ensures
            text@ == self.message_text(),
    {
        String::from_str("Nothing was pushed yet")
    }
}

impl StartError {
    /// The message of the error.
    pub open spec fn message_text(self) -> Seq<char> {
        match self {
            StartError::InvalidPort => "Port 0 is not a valid port"@,
            StartError::PortInUse(port) => "Port "@ + decimal_text(port as nat)
                + " is already in use"@,
            StartError::NotConfigured => "Remote URL is not configured"@,
        }
    }

    /// The message of the error.
    pub fn message(&self) -> (text: String)
        ensures
            text@ == self.message_text(),
    {
        match self {
            StartError::InvalidPort => String::from_str("Port 0 is not a valid port"),
            StartError::PortInUse(port) => {
                let mut text = String::from_str("Port ");
                push_decimal(&mut text, *port as u64);
                text.append(" is already in use");
                text
            },
            StartError::NotConfigured => String::from_str("Remote URL is not configured"),
        }
    }
}

impl PushError {
    /// The message of the error.
    pub open spec fn message_text(self) -> Seq<char> {
        match self {
            PushError::NotConfigured => "Remote URL is not configured"@,
            PushError::FetchFailed(reason) => "Failed to fetch local data: "@ + reason@,
            PushError::SendFailed(reason) => "Push failed: "@ + reason@,
            PushError::Rejected(status) => "Push failed, server returned status "@ + decimal_text(
                status as nat,
            ),
        }
    }

    /// The message of the error.
    pub fn message(&self) -> (text: String)
        ensures
            text@ == self.message_text(),
    {
        match self {
            PushError::NotConfigured => String::from_str("Remote URL is not configured"),
            PushError::FetchFailed(reason) => {
                let mut text = String::from_str("Failed to fetch local data: ");
                text.append(reason.as_str());
                text
            },
            PushError::SendFailed(reason) => {
                let mut text = String::from_str("Push failed: ");
                text.append(reason.as_str());
                text
            },
            PushError::Rejected(status) => {
                let mut text = String::from_str("Push failed, server returned status ");
                push_decimal(&mut text, *status as u64);
                text
            },
        }
    }
}

/// What is to be done at the start of the application.
#[derive(Clone, Copy, Debug, PartialEq, Eq, Structural)]
pub struct StartupPlan {
    /// Start the HTTP server.
    pub start_http: bool,
    /// Once the server is up, start the push loop.
    pub start_push: bool,
}

/// The application state. Each field is a part of its own.
pub struct AppState {
    pub http_settings: HttpSettings,
    pub share_settings: ShareSettings,
    pub app_settings: AppSettings,
    pub remote_settings: RemoteSettings,
    pub tasks: TaskSupervisor,
    /// Seconds since the epoch at the last push that the collector
    /// acknowledged.
    pub last_push_time: Option<u64>,
}

impl AppState {
    /// The state at the start: default settings, no task, nothing pushed.
    pub fn new() -> (state: Self)
        ensures
            state.http_settings == (HttpSettings { port: DEFAULT_HTTP_PORT, is_running: false }),
            state.share_settings == ShareSettings::all(true),
            state.app_settings == (AppSettings {
                auto_start_http: true,
                auto_launch: false,
                silent_launch: false,
                process_limit: DEFAULT_PROCESS_LIMIT,
            }),
            state.remote_settings.is_initial(),
            !state.tasks@.is_running(TaskKind::HttpServer),
            !state.tasks@.is_running(TaskKind::PushLoop),
            state.last_push_time is None,
            server_flag_agrees(state.tasks@, state.http_settings),
    {
        AppState {
            http_settings: HttpSettings::default(),
            share_settings: ShareSettings::default(),
            app_settings: AppSettings::default(),
            remote_settings: RemoteSettings::default(),
            tasks: TaskSupervisor::new(),
            last_push_time: None,
        }
    }
}

/// The remote settings with pushing switched on or off.
pub open spec fn with_enabled(remote: RemoteSettings, enabled: bool) -> RemoteSettings {
    RemoteSettings { enabled, ..remote }
}

/// Takes over the remote settings that were stored, where some were.
pub fn apply_saved_remote_settings(remote: &mut RemoteSettings, saved: Option<RemoteSettings>)
    ensures
        *final(remote) == match saved {
            Some(settings) => settings,
            None => *old(remote),
        },
{
    match saved {
        Some(settings) => {
            *remote = settings;
        },
        None => {},
    }
}

/// Sets the remote settings and returns the record that the caller writes
/// out before it returns itself. Where the writing fails, the state keeps the
/// new settings all the same, and the caller reports the failure.
pub fn set_remote_settings(remote: &mut RemoteSettings, settings: RemoteSettings) -> (to_persist:
    RemoteSettings)
    ensures
        *final(remote) == settings,
        to_persist == settings,
{
    let to_persist = settings.clone();
    *remote = settings;
    to_persist
}

/// The arguments with which the application is registered to start at login:
/// `--silent` where a silent launch is set, none otherwise.
pub fn auto_launch_arguments(app: &AppSettings) -> (args: Vec<String>)
    ensures
        app.silent_launch ==> args.len() == 1 && args[0]@ == "--silent"@,
        !app.silent_launch ==> args.len() == 0,
{
    let mut args: Vec<String> = Vec::new();
    if app.silent_launch {
        args.push(String::from_str("--silent"));
    }
    args
}

/// Takes note of a registration for the start at login that the caller
/// tried: the setting follows only where the registration succeeded.
pub fn conclude_auto_launch(
    app: &mut AppSettings,
    enable: bool,
    registration: Result<(), String>,
) -> (outcome: Result<(), String>)
    ensures
        outcome == registration,
        registration is Ok ==> *final(app) == (AppSettings { auto_launch: enable, ..*old(app) }),
        registration is Err ==> *final(app) == *old(app),
{
    if registration.is_ok() {
        app.auto_launch = enable;
    }
    registration
}

/// What to start with the application: the server where the settings ask for
/// it, and after it the push loop where pushing was left enabled with a
/// collector configured.
pub fn startup_plan(app: &AppSettings, remote: &RemoteSettings) -> (plan: StartupPlan)
    ensures
        plan.start_http == app.auto_start_http,
        plan.start_push == (app.auto_start_http && remote.enabled && remote.has_url()),
{
    let start_http = app.auto_start_http;
    let start_push = start_http && remote.enabled && !remote.url.as_str().is_empty();
    StartupPlan { start_http, start_push }
}

/// The HTTP settings say that the server runs exactly when a server task is
/// held.
pub open spec fn server_flag_agrees(tasks: Tasks, http: HttpSettings) -> bool {
    http.is_running == tasks.is_running(TaskKind::HttpServer)
}

/// What the first step of starting the server hands back.
#[derive(Debug)]
pub struct HttpStart {
    /// The port to probe and to bind.
    pub port: u16,
    /// The handle of the server that ran and was cancelled, for a caller who
    /// waits for its end before probing the port.
    pub stopped: Option<TaskHandle>,
}

/// The first step of starting the server. Port 0 is refused and nothing
/// changes. Otherwise a server that runs is cancelled and counts as stopped;
/// its handle is returned with the port to probe and to bind.
pub fn prepare_http_start(tasks: &mut TaskSupervisor, http: &mut HttpSettings) -> (start: Result<
    HttpStart,
    StartError,
>)
    ensures
        old(http).port == 0 ==> start == Err::<HttpStart, StartError>(StartError::InvalidPort)
            && final(tasks)@ == old(tasks)@ && *final(http) == *old(http),
        old(http).port != 0 ==> start == Ok::<HttpStart, StartError>(
            HttpStart {
                port: old(http).port,
                stopped: cancelled_if_held(old(tasks)@.get(TaskKind::HttpServer)),
            },
        ) && final(tasks)@ == old(tasks)@.stopped(TaskKind::HttpServer) && *final(http) == (
        HttpSettings { port: old(http).port, is_running: false }) && server_flag_agrees(
            final(tasks)@,
            *final(http),
        ),
{
    if http.port == 0 {
        return Err(StartError::InvalidPort);
    }
    let stopped = tasks.stop(TaskKind::HttpServer);
    http.is_running = false;
    Ok(HttpStart { port: http.port, stopped })
}

/// The port can be used if the probe found it free.
pub fn confirm_port(port: u16, bindable: bool) -> (outcome: Result<(), StartError>)
    ensures
        bindable ==> outcome is Ok,
        !bindable ==> outcome == Err::<(), StartError>(StartError::PortInUse(port)),
{
    if bindable {
        Ok(())
    } else {
        Err(StartError::PortInUse(port))
    }
}

/// The last step of starting the server: installs the handle of the server
/// that was bound and spawned. From here on the server counts as running. A
/// server that was still held is cancelled, and its handle returned.
pub fn finish_http_start(
    tasks: &mut TaskSupervisor,
    http: &mut HttpSettings,
    handle: TaskHandle,
) -> (stopped: Option<TaskHandle>)
    ensures
        stopped == cancelled_if_held(old(tasks)@.get(TaskKind::HttpServer)),
        final(tasks)@ == old(tasks)@.started(TaskKind::HttpServer, handle),
        *final(http) == (HttpSettings { port: old(http).port, is_running: true }),
        server_flag_agrees(final(tasks)@, *final(http)),
{
    http.is_running = true;
    tasks.start(TaskKind::HttpServer, handle)
}

/// Stops the server. Where none runs, only the flag is cleared. Returns the
/// handle of the server that was cancelled.
pub fn stop_http_server(tasks: &mut TaskSupervisor, http: &mut HttpSettings) -> (stopped: Option<
    TaskHandle,
>)
    ensures
        stopped == cancelled_if_held(old(tasks)@.get(TaskKind::HttpServer)),
        final(tasks)@ == old(tasks)@.stopped(TaskKind::HttpServer),
        *final(http) == (HttpSettings { port: old(http).port, is_running: false }),
        server_flag_agrees(final(tasks)@, *final(http)),
{
    http.is_running = false;
    tasks.stop(TaskKind::HttpServer)
}

/// The first step of starting the push loop. Without a collector address the
/// start is refused and nothing changes. Otherwise a loop that runs is
/// cancelled, and its handle returned.
pub fn prepare_push_start(tasks: &mut TaskSupervisor, remote: &RemoteSettings) -> (stopped: Result<
    Option<TaskHandle>,
    StartError,
>)
    ensures
        !remote.has_url() ==> stopped == Err::<Option<TaskHandle>, StartError>(
            StartError::NotConfigured,
        ) && final(tasks)@ == old(tasks)@,
        remote.has_url() ==> stopped == Ok::<Option<TaskHandle>, StartError>(
            cancelled_if_held(old(tasks)@.get(TaskKind::PushLoop)),
        ) && final(tasks)@ == old(tasks)@.stopped(TaskKind::PushLoop),
{
    if remote.url.as_str().is_empty() {
        return Err(StartError::NotConfigured);
    }
    Ok(tasks.stop(TaskKind::PushLoop))
}

/// The last step of starting the push loop: installs the handle of the loop
/// that was spawned and enables pushing. Returns the handle of a loop that
/// was still held and is now cancelled, and the remote settings for the
/// caller to write out.
pub fn finish_push_start(
    tasks: &mut TaskSupervisor,
    remote: &mut RemoteSettings,
    handle: TaskHandle,
) -> (started: (Option<TaskHandle>, RemoteSettings))
    ensures
        started.0 == cancelled_if_held(old(tasks)@.get(TaskKind::PushLoop)),
        final(tasks)@ == old(tasks)@.started(TaskKind::PushLoop, handle),
        *final(remote) == with_enabled(*old(remote), true),
        started.1 == *final(remote),
{
    let stopped = tasks.start(TaskKind::PushLoop, handle);
    remote.enabled = true;
    (stopped, remote.clone())
}

/// Stops the push loop and disables pushing. Returns the handle of the loop
/// that was cancelled, none where no loop ran, and the remote settings for
/// the caller to write out.
pub fn stop_remote_push(tasks: &mut TaskSupervisor, remote: &mut RemoteSettings) -> (stopped: (
    Option<TaskHandle>,
    RemoteSettings,
))
    ensures
        stopped.0 == cancelled_if_held(old(tasks)@.get(TaskKind::PushLoop)),
        final(tasks)@ == old(tasks)@.stopped(TaskKind::PushLoop),
        *final(remote) == with_enabled(*old(remote), false),
        stopped.1 == *final(remote),
{
    let cancelled_loop = tasks.stop(TaskKind::PushLoop);
    remote.enabled = false;
    (cancelled_loop, remote.clone())
}

/// The time of the last push after the answer to a push: `now` where the
/// collector acknowledged it, and what it was before where not.
pub open spec fn last_push_after(before: Option<u64>, status: Option<u16>, now: u64) -> Option<
    u64,
> {
    if is_delivered(status) {
        Some(now)
    } else {
        before
    }
}

/// Takes note of the answer to a push of the loop: where the collector
/// acknowledged it, `now` becomes the time of the last push. Returns whether
/// it did.
pub fn record_push_outcome(last_push_time: &mut Option<u64>, status: Option<u16>, now: u64) -> (acknowledged:
    bool)
    ensures
        acknowledged == is_delivered(status),
        *final(last_push_time) == last_push_after(*old(last_push_time), status, now),
{
    let acknowledged = delivered(status);
    if acknowledged {
        *last_push_time = Some(now);
    }
    acknowledged
}

/// The seconds from `then` to `now`, zero where `then` lies after `now`.
pub open spec fn seconds_since(then: u64, now: u64) -> u64 {
    if now >= then {
        (now - then) as u64
    } else {
        0
    }
}

/// How long ago the last push was, `now` being the seconds since the epoch.
/// A last push that lies after `now` counts as zero seconds ago.
pub fn get_last_push_time(last_push_time: Option<u64>, now: u64) -> (age: Result<
    String,
    PushTimeError,
>)
    ensures
        last_push_time is None ==> age == Err::<String, PushTimeError>(PushTimeError::NeverPushed),
        last_push_time matches Some(then) ==> (age matches Ok(text) && text@ == relative_age_text(
            seconds_since(then, now),
        )),
{
    match last_push_time {
        Some(then) => Ok(relative_age(now.saturating_sub(then))),
        None => Err(PushTimeError::NeverPushed),
    }
}

/// The first step of a test push, which does not ask whether pushing is
/// enabled. Without a collector address it is refused. Otherwise the address
/// of the local endpoint is returned.
pub fn begin_test_push(remote: &RemoteSettings, http_port: u16) -> (local_url: Result<
    String,
    PushError,
>)
    ensures
        !remote.has_url() ==> local_url == Err::<String, PushError>(PushError::NotConfigured),
        remote.has_url() ==> (local_url matches Ok(url) && url@ == local_snapshot_url_text(
            http_port,
        )),
{
    if remote.url.as_str().is_empty() {
        return Err(PushError::NotConfigured);
    }
    Ok(local_snapshot_url(http_port))
}

/// What a test push comes to, given the status of the collector's answer or
/// the reason why there was none.
pub open spec fn test_push_outcome(answer: Result<u16, String>) -> Result<(), PushError> {
    match answer {
        Ok(status) => if is_delivered(Some(status)) {
            Ok(())
        } else {
            Err(PushError::Rejected(status))
        },
        Err(reason) => Err(PushError::SendFailed(reason)),
    }
}

/// The last step of a test push: says how the push went. An acknowledged
/// push sets the time of the last push to `now`.
pub fn conclude_test_push(
    last_push_time: &mut Option<u64>,
    answer: Result<u16, String>,
    now: u64,
) -> (outcome: Result<(), PushError>)
    ensures
        outcome == test_push_outcome(answer),
        *final(last_push_time) == if outcome is Ok {
            Some(now)
        } else {
            *old(last_push_time)
        },
{
    match answer {
        Ok(status) => {
            if delivered(Some(status)) {
                *last_push_time = Some(now);
                Ok(())
            } else {
                Err(PushError::Rejected(status))
            }
        },
        Err(reason) => Err(PushError::SendFailed(reason)),
    }
}

/// Whether the arguments of the process ask for a start without a window:
/// one of them is `--silent`.
pub fn is_silent_launch(args: &Vec<String>) -> (silent: bool)
    ensures
        silent <==> exists|i: int| 0 <= i < args.len() && (#[trigger] args[i])@ == "--silent"@,
{
    let flag = String::from_str("--silent");
    let mut i: usize = 0;
    while i < args.len()
        invariant
            i <= args.len(),
            flag@ == "--silent"@,
            forall|k: int| 0 <= k < i ==> (#[trigger] args[k])@ != "--silent"@,
        decreases args.len() - i,
    {
        if args[i] == flag {
            return true;
        }
        i += 1;
    }
    false
}

/// Starting the server twice in a row, on whatever ports, leaves one server:
/// the second start cancels the handle of the first, hands it back, and holds
/// its own.
pub proof fn law_http_restart_leaves_one_server(
    tasks: Tasks,
    first: TaskHandle,
    second: TaskHandle,
)
    ensures
        ({
            let running = tasks.stopped(TaskKind::HttpServer).started(TaskKind::HttpServer, first);
            let restarted = running.stopped(TaskKind::HttpServer).started(
                TaskKind::HttpServer,
                second,
            );
            &&& cancelled_if_held(running.get(TaskKind::HttpServer)) == Some(cancelled(first))
            &&& !running.stopped(TaskKind::HttpServer).is_running(TaskKind::HttpServer)
            &&& restarted.get(TaskKind::HttpServer) == Some(second)
            &&& restarted.get(TaskKind::PushLoop) == tasks.get(TaskKind::PushLoop)
        }),
{
}

} // verus!
