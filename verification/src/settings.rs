//! The four settings records and the media settings.

use vstd::prelude::*;

verus! {

/// The port that the snapshot endpoint listens on unless told otherwise.
pub const DEFAULT_HTTP_PORT: u16 = 21536;

/// How many processes a snapshot lists unless told otherwise.
pub const DEFAULT_PROCESS_LIMIT: u32 = 20;

/// The seconds between two pushes unless told otherwise.
pub const DEFAULT_PUSH_INTERVAL_SECONDS: u64 = 60;

/// Where the snapshot endpoint listens, and whether it does.
#[derive(Clone, Copy, Debug, PartialEq, Eq, Structural)]
pub struct HttpSettings {
    pub port: u16,
    /// True only after a server was bound and installed.
    pub is_running: bool,
}

/// One switch for each optional field of a snapshot.
#[derive(Clone, Copy, Debug, PartialEq, Eq, Structural)]
pub struct ShareSettings {
    pub share_computer_name: bool,
    pub share_uptime: bool,
    pub share_cpu_usage: bool,
    pub share_memory_usage: bool,
    pub share_processes: bool,
    pub share_disks: bool,
    pub share_network: bool,
}

/// How the application behaves at start and how long its process list is.
#[derive(Clone, Copy, Debug, PartialEq, Eq, Structural)]
pub struct AppSettings {
    pub auto_start_http: bool,
    pub auto_launch: bool,
    pub silent_launch: bool,
    pub process_limit: u32,
}

/// Where snapshots are pushed to, and how often.
#[derive(Debug)]
pub struct RemoteSettings {
    pub enabled: bool,
    /// Empty where no collector is configured.
    pub url: String,
    /// Sent along with every push where it is not empty.
    pub token: String,
    pub interval_seconds: u64,
}

/// What the media monitor may report.
#[derive(Clone, Copy, Debug, PartialEq, Eq, Structural)]
pub struct MediaSettings {
    pub enabled: bool,
    pub send_thumbnail: bool,
    pub compress_thumbnail: bool,
    pub thumbnail_max_size_kb: u32,
}

impl Default for HttpSettings {
    fn default() -> (settings: Self)
        ensures
            settings == (HttpSettings { port: DEFAULT_HTTP_PORT, is_running: false }),
    {
        HttpSettings { port: DEFAULT_HTTP_PORT, is_running: false }
    }
}

impl ShareSettings {
    /// The settings with every switch in the same position.
    pub open spec fn all(on: bool) -> ShareSettings {
        ShareSettings {
            share_computer_name: on,
            share_uptime: on,
            share_cpu_usage: on,
            share_memory_usage: on,
            share_processes: on,
            share_disks: on,
            share_network: on,
        }
    }
}

impl Default for ShareSettings {
    /// Everything is shared.
    fn default() -> (settings: Self)
        ensures
            settings == ShareSettings::all(true),
    {
        ShareSettings {
            share_computer_name: true,
            share_uptime: true,
            share_cpu_usage: true,
            share_memory_usage: true,
            share_processes: true,
            share_disks: true,
            share_network: true,
        }
    }
}

impl Default for AppSettings {
    fn default() -> (settings: Self)
        ensures
            settings == (AppSettings {
                auto_start_http: true,
                auto_launch: false,
                silent_launch: false,
                process_limit: DEFAULT_PROCESS_LIMIT,
            }),
    {
        AppSettings {
            auto_start_http: true,
            auto_launch: false,
            silent_launch: false,
            process_limit: DEFAULT_PROCESS_LIMIT,
        }
    }
}

impl MediaSettings {
    /// The media settings that hold where nothing was stored.
    pub open spec fn initial() -> MediaSettings {
        MediaSettings {
            enabled: true,
            send_thumbnail: false,
            compress_thumbnail: true,
            thumbnail_max_size_kb: 16,
        }
    }
}

impl Default for MediaSettings {
    fn default() -> (settings: Self)
        ensures
            settings == MediaSettings::initial(),
    {
        MediaSettings {
            enabled: true,
            send_thumbnail: false,
            compress_thumbnail: true,
            thumbnail_max_size_kb: 16,
        }
    }
}

impl RemoteSettings {
    /// Pushing is off, no collector and no token are set, and the interval is
    /// the default one.
    pub open spec fn is_initial(&self) -> bool {
        &&& !self.enabled
        &&& self.url@.len() == 0
        &&& self.token@.len() == 0
        &&& self.interval_seconds == DEFAULT_PUSH_INTERVAL_SECONDS
    }

    /// A collector is configured.
    pub open spec fn has_url(&self) -> bool {
        self.url@.len() > 0
    }

    /// The two records agree field for field.
    pub open spec fn same_as(&self, other: &RemoteSettings) -> bool {
        &&& self.enabled == other.enabled
        &&& self.url@ == other.url@
        &&& self.token@ == other.token@
        &&& self.interval_seconds == other.interval_seconds
    }
}

impl Default for RemoteSettings {
    fn default() -> (settings: Self)
        ensures
            settings.is_initial(),
    {
        RemoteSettings {
            enabled: false,
            url: String::new(),
            token: String::new(),
            interval_seconds: DEFAULT_PUSH_INTERVAL_SECONDS,
        }
    }
}

impl Clone for RemoteSettings {
    fn clone(&self) -> (copy: Self)
        ensures
            copy == *self,
    {
        RemoteSettings {
            enabled: self.enabled,
            url: self.url.clone(),
            token: self.token.clone(),
            interval_seconds: self.interval_seconds,
        }
    }
}

impl PartialEq for RemoteSettings {
    fn eq(&self, other: &Self) -> (equal: bool) {
        self.enabled == other.enabled && self.url == other.url && self.token == other.token
            && self.interval_seconds == other.interval_seconds
    }
}

impl vstd::std_specs::cmp::PartialEqSpecImpl for RemoteSettings {
    open spec fn obeys_eq_spec() -> bool {
        true
    }

    open spec fn eq_spec(&self, other: &Self) -> bool {
        self.same_as(other)
    }
}

/// The settings to go on with after a stored record was looked for: the
/// stored ones, or the defaults where none was found or it could not be read.
pub fn media_settings_or_default(stored: Option<MediaSettings>) -> (settings: MediaSettings)
    ensures
        settings == match stored {
            Some(found) => found,
            None => MediaSettings::initial(),
        },
{
    match stored {
        Some(found) => found,
        None => MediaSettings::default(),
    }
}

} // verus!
