//! The decisions of the push loop and of the one-shot test push.
//!
//! The loop itself fetches, sends and sleeps; after each of these it asks
//! here what to do next. One cycle works on the copy of the remote settings
//! that was taken when the cycle began, so a change of the settings takes
//! effect with the next cycle.

use crate::decimal::{decimal_text, push_decimal};
use crate::settings::RemoteSettings;
use vstd::prelude::*;

verus! {

/// The header that carries the token of a push.
pub const DEVICE_TOKEN_HEADER: &'static str = "X-Device-Token";

/// The content type of a push.
pub const PUSH_CONTENT_TYPE: &'static str = "application/json";

/// The address of the local snapshot endpoint on a port.
pub open spec fn local_snapshot_url_text(port: u16) -> Seq<char> {
    "http://localhost:"@ + decimal_text(port as nat) + "/api/system"@
}

/// The address of the local snapshot endpoint on a port.
pub fn local_snapshot_url(port: u16) -> (url: String)
    ensures
        url@ == local_snapshot_url_text(port),
{
    let mut url = String::from_str("http://localhost:");
    push_decimal(&mut url, port as u64);
    url.append("/api/system");
    url
}

/// One push: the body goes to `url` as it is, with the token where one is
/// set.
#[derive(Debug)]
pub struct PushRequest {
    pub url: String,
    /// The value of `DEVICE_TOKEN_HEADER`; absent where no token is set.
    pub device_token: Option<String>,
    pub body: String,
}

/// What happened since the loop last asked.
#[derive(Debug)]
pub enum PushEvent {
    /// A cycle begins: the loop was started or its sleep is over.
    Wake,
    /// The fetch of the local snapshot ended, with the body or without one.
    Fetched(Option<String>),
    /// The push ended, with the status of the answer or without an answer.
    Forwarded(Option<u16>),
}

/// What the loop does next.
#[derive(Debug)]
pub enum PushAction {
    /// Fetch the local snapshot from this address.
    Fetch(String),
    /// Send this request to the collector.
    Forward(PushRequest),
    /// Sleep for so many seconds, then begin the next cycle.
    Sleep(u64),
    /// Leave the loop.
    Exit,
}

/// The kinds of action.
#[derive(Clone, Copy, Debug, PartialEq, Eq, Structural)]
pub enum ActionKind {
    Fetch,
    Forward,
    Sleep,
    Exit,
}

impl PushAction {
    /// The kind of the action.
    pub open spec fn kind(self) -> ActionKind {
        match self {
            PushAction::Fetch(_) => ActionKind::Fetch,
            PushAction::Forward(_) => ActionKind::Forward,
            PushAction::Sleep(_) => ActionKind::Sleep,
            PushAction::Exit => ActionKind::Exit,
        }
    }
}

/// The kind of action that follows an event: a cycle begins with a fetch
/// while pushing is enabled and ends the loop when it is not; a body that was
/// fetched is sent on; everything else, a failure too, is followed by the
/// sleep.
pub open spec fn action_kind_after(event: PushEvent, enabled: bool) -> ActionKind {
    match event {
        PushEvent::Wake => if enabled {
            ActionKind::Fetch
        } else {
            ActionKind::Exit
        },
        PushEvent::Fetched(Some(_)) => ActionKind::Forward,
        PushEvent::Fetched(None) => ActionKind::Sleep,
        PushEvent::Forwarded(_) => ActionKind::Sleep,
    }
}

/// The collector acknowledged the push: it answered, with a status from 200
/// to 299.
pub open spec fn is_delivered(status: Option<u16>) -> bool {
    status matches Some(code) && 200 <= code <= 299
}

/// Whether the collector acknowledged the push.
pub fn delivered(status: Option<u16>) -> (acknowledged: bool)
    ensures
        acknowledged == is_delivered(status),
{
    match status {
        Some(code) => 200 <= code && code <= 299,
        None => false,
    }
}

/// The request that sends a fetched body on under the given settings.
pub open spec fn request_of(settings: RemoteSettings, body: String) -> PushRequest {
    PushRequest {
        url: settings.url,
        device_token: if settings.token@.len() == 0 {
            None
        } else {
            Some(settings.token)
        },
        body,
    }
}

/// The request that sends a fetched body on: to the configured address, with
/// the token where it is not empty.
pub fn forward_request(settings: &RemoteSettings, body: String) -> (request: PushRequest)
    ensures
        request == request_of(*settings, body),
{
    let device_token = if settings.token.as_str().is_empty() {
        None
    } else {
        Some(settings.token.clone())
    };
    PushRequest { url: settings.url.clone(), device_token, body }
}

/// What the loop does after an event, under the settings of the cycle and
/// with the local endpoint on `http_port`.
pub fn next_action(event: PushEvent, settings: &RemoteSettings, http_port: u16) -> (action:
    PushAction)
    ensures
        action.kind() == action_kind_after(event, settings.enabled),
        action matches PushAction::Fetch(url) ==> url@ == local_snapshot_url_text(http_port),
        action matches PushAction::Forward(request) ==> event matches PushEvent::Fetched(Some(body))
            && request == request_of(*settings, body),
        action matches PushAction::Sleep(seconds) ==> seconds == settings.interval_seconds,
{
    match event {
        PushEvent::Wake => {
            if settings.enabled {
                PushAction::Fetch(local_snapshot_url(http_port))
            } else {
                PushAction::Exit
            }
        },
        PushEvent::Fetched(Some(body)) => PushAction::Forward(forward_request(settings, body)),
        PushEvent::Fetched(None) => PushAction::Sleep(settings.interval_seconds),
        PushEvent::Forwarded(_) => PushAction::Sleep(settings.interval_seconds),
    }
}

/// A cycle that failed does not end the loop: after a fetch without a body,
/// and after a push whatever its outcome, the loop sleeps, and the cycle
/// after the sleep fetches again while pushing is enabled.
pub proof fn law_failed_cycle_goes_on(enabled: bool, status: Option<u16>)
    ensures
        action_kind_after(PushEvent::Fetched(None), enabled) == ActionKind::Sleep,
        action_kind_after(PushEvent::Forwarded(status), enabled) == ActionKind::Sleep,
        action_kind_after(PushEvent::Wake, true) == ActionKind::Fetch,
{
}

/// Only the beginning of a cycle ends the loop, and only with pushing
/// disabled.
pub proof fn law_exit_only_when_disabled(event: PushEvent, enabled: bool)
    ensures
        action_kind_after(event, enabled) == ActionKind::Exit <==> event is Wake && !enabled,
{
}

/// With pushing disabled while the loop sleeps, the loop ends when it wakes,
/// before it fetches.
pub proof fn law_disabled_loop_exits_before_fetch()
    ensures
        action_kind_after(PushEvent::Wake, false) == ActionKind::Exit,
        action_kind_after(PushEvent::Wake, false) != ActionKind::Fetch,
{
}

/// How long ago something was, given the seconds since: in seconds below a
/// minute, in minutes below an hour, in hours below a day, in days from
/// there on, each rounded down.
pub open spec fn relative_age_text(elapsed: u64) -> Seq<char> {
    if elapsed < 60 {
        decimal_text(elapsed as nat) + "s ago"@
    } else if elapsed < 3600 {
        decimal_text((elapsed / 60) as nat) + "m ago"@
    } else if elapsed < 86400 {
        decimal_text((elapsed / 3600) as nat) + "h ago"@
    } else {
        decimal_text((elapsed / 86400) as nat) + "d ago"@
    }
}

/// How long ago something was, given the seconds since.
pub fn relative_age(elapsed: u64) -> (text: String)
    ensures
        text@ == relative_age_text(elapsed),
{
    let mut text = String::new();
    if elapsed < 60 {
        push_decimal(&mut text, elapsed);
        text.append("s ago");
    } else if elapsed < 3600 {
        push_decimal(&mut text, elapsed / 60);
        text.append("m ago");
    } else if elapsed < 86400 {
        push_decimal(&mut text, elapsed / 3600);
        text.append("h ago");
    } else {
        push_decimal(&mut text, elapsed / 86400);
        text.append("d ago");
    }
    text
}

} // verus!
