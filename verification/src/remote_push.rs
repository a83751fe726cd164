//! A self-contained push state: the remote settings, the port of the local
//! endpoint, the handle of the push task and the time of the last push as
//! text.

use crate::push::{local_snapshot_url, local_snapshot_url_text};
use crate::settings::{RemoteSettings, DEFAULT_HTTP_PORT};
use crate::push::{next_action, request_of, action_kind_after, PushAction, PushEvent};
use crate::push::{delivered, is_delivered};
use crate::tasks::{cancelled, cancelled_if_held, TaskHandle};
use vstd::prelude::*;

verus! {

/// The form in which the time of a push is written: year, month, day, hour,
/// minute, second.
pub const PUSH_TIME_FORMAT: &'static str = "%Y-%m-%d %H:%M:%S";

/// The text that `chrono` gives for a moment in UTC under a format, the
/// moment being given in seconds since the epoch; none where `chrono` cannot
/// hold the moment.
pub uninterp spec fn utc_text_of(seconds: int, format: Seq<char>) -> Option<Seq<char>>;

/// Calls `chrono::DateTime::from_timestamp` with no nanoseconds and formats
/// what it returns with `chrono::DateTime::format`. Both depend on the
/// seconds and the format alone; the contract gives their result a name and
/// claims no more. Writing the text out panics for a format that `chrono`
/// cannot read, so only `PUSH_TIME_FORMAT` is admitted.
#[verifier::external_body]
fn utc_text(seconds: i64, format: &str) -> (text: Option<String>)
    requires
        format@ == PUSH_TIME_FORMAT@,
    ensures
        match text {
            Some(formatted) => utc_text_of(seconds as int, format@) == Some(formatted@),
            None => utc_text_of(seconds as int, format@) is None,
        },
{
    match chrono::DateTime::from_timestamp(seconds, 0) {
        Some(moment) => Some(moment.format(format).to_string()),
        None => None,
    }
}

/// The text under which a push is remembered: the formatted moment, or
/// `Unknown` where the moment could not be formatted.
pub open spec fn push_time_text_of(formatted: Option<Seq<char>>) -> Seq<char> {
    match formatted {
        Some(text) => text,
        None => "Unknown"@,
    }
}

/// The text under which a push is remembered, given the formatted moment.
pub fn push_time_text(formatted: Option<String>) -> (text: String)
    ensures
        text@ == push_time_text_of(
            match formatted {
                Some(given) => Some(given@),
                None => None,
            },
        ),
{
    match formatted {
        Some(given) => given,
        None => String::from_str("Unknown"),
    }
}

/// The text for a push at `now`, in seconds since the epoch. Seconds beyond
/// the signed 64-bit range wrap around before they are formatted.
pub fn format_push_time(now: u64) -> (text: String)
    ensures
        text@ == push_time_text_of(utc_text_of((now as i64) as int, PUSH_TIME_FORMAT@)),
{
    push_time_text(utc_text(now as i64, PUSH_TIME_FORMAT))
}

/// What a push state holds.
pub struct RemotePushModel {
    pub settings: RemoteSettings,
    pub last_push_time: Option<Seq<char>>,
    pub push_handle: Option<TaskHandle>,
    pub http_port: u16,
}

impl RemotePushModel {
    /// Pushing is enabled and a collector address is set.
    pub open spec fn is_configured(self) -> bool {
        self.settings.enabled && self.settings.has_url()
    }
}

/// The push state.
pub struct RemotePushState {
    settings: RemoteSettings,
    last_push_time: Option<String>,
    push_handle: Option<TaskHandle>,
    http_port: u16,
}

impl View for RemotePushState {
    type V = RemotePushModel;

    closed spec fn view(&self) -> RemotePushModel {
        RemotePushModel {
            settings: self.settings,
            last_push_time: match self.last_push_time {
                Some(text) => Some(text@),
                None => None,
            },
            push_handle: self.push_handle,
            http_port: self.http_port,
        }
    }
}

impl RemotePushState {
    /// A state with default settings, the default port, no task and no push.
    pub fn new() -> (state: Self)
        ensures
            state@.settings.is_initial(),
            state@.last_push_time is None,
            state@.push_handle is None,
            state@.http_port == DEFAULT_HTTP_PORT,
    {
        RemotePushState {
            settings: RemoteSettings::default(),
            last_push_time: None,
            push_handle: None,
            http_port: DEFAULT_HTTP_PORT,
        }
    }

    pub fn get_settings(&self) -> (settings: RemoteSettings)
        ensures
            settings == self@.settings,
    {
        self.settings.clone()
    }

    pub fn set_settings(&mut self, settings: RemoteSettings)
        ensures
            final(self)@ == (RemotePushModel { settings, ..old(self)@ }),
    {
        self.settings = settings;
    }

    /// The time of the last push as text, none where nothing was pushed.
    pub fn get_last_push_time(&self) -> (time: Option<String>)
        ensures
            match time {
                Some(text) => self@.last_push_time == Some(text@),
                None => self@.last_push_time is None,
            },
    {
        match &self.last_push_time {
            Some(text) => Some(text.clone()),
            None => None,
        }
    }

    pub fn update_http_port(&mut self, port: u16)
        ensures
            final(self)@ == (RemotePushModel { http_port: port, ..old(self)@ }),
    {
        self.http_port = port;
    }

    /// The address of the local endpoint on the port that the state holds.
    pub fn local_url(&self) -> (url: String)
        ensures
            url@ == local_snapshot_url_text(self@.http_port),
    {
        local_snapshot_url(self.http_port)
    }

    /// Whether a push task is held.
    pub fn is_running(&self) -> (running: bool)
        ensures
            running == self@.push_handle is Some,
    {
        self.push_handle.is_some()
    }

    /// Whether a push task may be started, and on which address it finds the
    /// local endpoint: it may where pushing is enabled and a collector
    /// address is set.
    pub fn push_plan(&self) -> (plan: Result<String, String>)
        ensures
            self@.is_configured() ==> (plan matches Ok(url) && url@ == local_snapshot_url_text(
                self@.http_port,
            )),
            !self@.is_configured() ==> (plan matches Err(message) && message@
                == "Remote push is not properly configured"@),
    {
        if !self.settings.enabled || self.settings.url.as_str().is_empty() {
            return Err(String::from_str("Remote push is not properly configured"));
        }
        Ok(local_snapshot_url(self.http_port))
    }

    /// Installs the handle of a push task that was spawned. Where pushing is
    /// not enabled or no collector address is set, the task is cancelled
    /// again and handed back with the message, and nothing changes.
    /// Otherwise a task that was held before is cancelled and handed back,
    /// and the new one takes its place.
    pub fn start_push(&mut self, handle: TaskHandle) -> (outcome: Result<
        Option<TaskHandle>,
        (String, TaskHandle),
    >)
        ensures
            old(self)@.is_configured() ==> outcome == Ok::<
                Option<TaskHandle>,
                (String, TaskHandle),
            >(cancelled_if_held(old(self)@.push_handle)) && final(self)@ == (RemotePushModel {
                push_handle: Some(handle),
                ..old(self)@
            }),
            !old(self)@.is_configured() ==> (outcome matches Err(refused) && refused.0@
                == "Remote push is not properly configured"@ && refused.1 == cancelled(handle))
                && final(self)@ == old(self)@,
    {
        if !self.settings.enabled || self.settings.url.as_str().is_empty() {
            let mut refused = handle;
            refused.cancel();
            return Err((String::from_str("Remote push is not properly configured"), refused));
        }
        let stopped = match self.push_handle.take() {
            Some(mut running) => {
                running.cancel();
                Some(running)
            },
            None => None,
        };
        self.push_handle = Some(handle);
        Ok(stopped)
    }

    /// Cancels the push task and hands its handle back. Where none is held,
    /// this is an error and nothing changes.
    pub fn stop_push(&mut self) -> (outcome: Result<TaskHandle, String>)
        ensures
            final(self)@ == (RemotePushModel { push_handle: None, ..old(self)@ }),
            old(self)@.push_handle matches Some(held) ==> outcome == Ok::<TaskHandle, String>(
                cancelled(held),
            ),
            old(self)@.push_handle is None ==> (outcome matches Err(message) && message@
                == "No push task running"@),
    {
        match self.push_handle.take() {
            Some(mut handle) => {
                handle.cancel();
                Ok(handle)
            },
            None => Err(String::from_str("No push task running")),
        }
    }

    /// What the push task does after an event: what the loop of the
    /// application does, under the settings and the port that the state holds
    /// now. A cycle begins with a fetch while pushing is enabled and ends the
    /// task when it is not.
    pub fn next_action(&self, event: PushEvent) -> (action: PushAction)
        ensures
            action.kind() == action_kind_after(event, self@.settings.enabled),
            action matches PushAction::Fetch(url) ==> url@ == local_snapshot_url_text(
                self@.http_port,
            ),
            action matches PushAction::Forward(request) ==> event matches PushEvent::Fetched(
                Some(body),
            ) && request == request_of(self@.settings, body),
            action matches PushAction::Sleep(seconds) ==> seconds
                == self@.settings.interval_seconds,
    {
        next_action(event, &self.settings, self.http_port)
    }

    /// Takes note of the answer to a push that was sent at `now`, in seconds
    /// since the epoch: where the collector acknowledged it, the push is
    /// remembered. Returns whether it did.
    pub fn record_push_outcome(&mut self, status: Option<u16>, now: u64) -> (acknowledged: bool)
        ensures
            acknowledged == is_delivered(status),
            final(self)@ == if is_delivered(status) {
                RemotePushModel {
                    last_push_time: Some(
                        push_time_text_of(utc_text_of((now as i64) as int, PUSH_TIME_FORMAT@)),
                    ),
                    ..old(self)@
                }
            } else {
                old(self)@
            },
    {
        let acknowledged = delivered(status);
        if acknowledged {
            self.record_push(now);
        }
        acknowledged
    }

    /// Whether a single push may be tried now, and on which address it finds
    /// the local endpoint: it may where a collector address is set, whether
    /// pushing is enabled or not.
    pub fn test_push(&self) -> (plan: Result<String, String>)
        ensures
            self@.settings.has_url() ==> (plan matches Ok(url) && url@ == local_snapshot_url_text(
                self@.http_port,
            )),
            !self@.settings.has_url() ==> (plan matches Err(message) && message@
                == "Remote URL is not configured"@),
    {
        if self.settings.url.as_str().is_empty() {
            return Err(String::from_str("Remote URL is not configured"));
        }
        Ok(local_snapshot_url(self.http_port))
    }

    /// Remembers a push that was sent at `now`, in seconds since the epoch.
    fn record_push(&mut self, now: u64)
        ensures
            final(self)@ == (RemotePushModel {
                last_push_time: Some(
                    push_time_text_of(utc_text_of((now as i64) as int, PUSH_TIME_FORMAT@)),
                ),
                ..old(self)@
            }),
    {
        self.last_push_time = Some(format_push_time(now));
    }
}

} // verus!
