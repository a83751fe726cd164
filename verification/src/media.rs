//! What is reported of the media that plays: the record itself, when one is
//! made, and which thumbnail goes with it.

use crate::settings::MediaSettings;
use base64::Engine;
use vstd::prelude::*;

verus! {

/// The media that plays.
#[derive(Debug)]
pub struct MediaInfo {
    pub title: String,
    pub artist: Option<String>,
    pub album: Option<String>,
    /// The whole length in seconds.
    pub duration: Option<u64>,
    /// The position in seconds.
    pub position: Option<u64>,
    /// `Playing` or `Paused`.
    pub playback_status: String,
    /// `Music` or `Video`.
    pub media_type: String,
    /// The thumbnail in base64.
    pub thumbnail: Option<String>,
}

/// What a media session says of its playback.
#[derive(Clone, Copy, Debug, PartialEq, Eq, Structural)]
pub enum PlaybackStatus {
    Playing,
    Paused,
    Stopped,
    Unknown,
}

/// How many ticks of a media timeline make a second.
pub const TICKS_PER_SECOND: u64 = 10_000_000;

impl PlaybackStatus {
    /// The name of the status.
    pub open spec fn name_text(self) -> Seq<char> {
        match self {
            PlaybackStatus::Playing => "Playing"@,
            PlaybackStatus::Paused => "Paused"@,
            PlaybackStatus::Stopped => "Stopped"@,
            PlaybackStatus::Unknown => "Unknown"@,
        }
    }

    /// Media is reported while it plays or is paused.
    pub open spec fn is_reported(self) -> bool {
        self == PlaybackStatus::Playing || self == PlaybackStatus::Paused
    }

    /// The name of the status.
    pub fn name(self) -> (text: String)
        ensures
            text@ == self.name_text(),
    {
        match self {
            PlaybackStatus::Playing => String::from_str("Playing"),
            PlaybackStatus::Paused => String::from_str("Paused"),
            PlaybackStatus::Stopped => String::from_str("Stopped"),
            PlaybackStatus::Unknown => String::from_str("Unknown"),
        }
    }
}

/// A length of time in whole seconds, given in ticks. The ticks are read as
/// an unsigned number.
pub fn ticks_to_seconds(ticks: i64) -> (seconds: u64)
    ensures
        seconds == (ticks as u64) / TICKS_PER_SECOND,
{
    (ticks as u64) / TICKS_PER_SECOND
}

/// The seconds of a length of time that may be missing.
pub open spec fn seconds_of(ticks: Option<i64>) -> Option<u64> {
    match ticks {
        Some(count) => Some((count as u64) / TICKS_PER_SECOND),
        None => None,
    }
}

/// The kind of media: music where an artist or an album is known, video
/// otherwise.
pub open spec fn media_type_text(artist: Option<String>, album: Option<String>) -> Seq<char> {
    if artist is Some || album is Some {
        "Music"@
    } else {
        "Video"@
    }
}

/// The media that plays, where the platform cannot tell: none.
pub fn get_current_media() -> (media: Option<MediaInfo>)
    ensures
        media is None,
{
    None
}

/// The record of a media session, where it is one to report: none for a
/// session that is stopped or in an unknown state.
pub fn media_info(
    status: PlaybackStatus,
    title: String,
    artist: Option<String>,
    album: Option<String>,
    end_ticks: Option<i64>,
    position_ticks: Option<i64>,
    thumbnail: Option<String>,
) -> (media: Option<MediaInfo>)
    ensures
        !status.is_reported() ==> media is None,
        status.is_reported() ==> (media matches Some(info) && info.title == title && info.artist
            == artist && info.album == album && info.duration == seconds_of(end_ticks)
            && info.position == seconds_of(position_ticks) && info.playback_status@
            == status.name_text() && info.media_type@ == media_type_text(artist, album)
            && info.thumbnail == thumbnail),
{
    match status {
        PlaybackStatus::Stopped | PlaybackStatus::Unknown => None,
        _ => {
            let media_type = if artist.is_some() || album.is_some() {
                String::from_str("Music")
            } else {
                String::from_str("Video")
            };
            let duration = match end_ticks {
                Some(ticks) => Some(ticks_to_seconds(ticks)),
                None => None,
            };
            let position = match position_ticks {
                Some(ticks) => Some(ticks_to_seconds(ticks)),
                None => None,
            };
            Some(
                MediaInfo {
                    title,
                    artist,
                    album,
                    duration,
                    position,
                    playback_status: status.name(),
                    media_type,
                    thumbnail,
                },
            )
        },
    }
}

/// Whether so many bytes fit into so many kilobytes of 1024 bytes each.
pub fn fits_kilobytes(len: usize, max_size_kb: u32) -> (fits: bool)
    ensures
        fits == (len <= max_size_kb * 1024),
{
    len as u64 <= max_size_kb as u64 * 1024
}

/// The image fits the size that the settings allow for a thumbnail.
pub open spec fn fits_thumbnail(settings: MediaSettings, len: nat) -> bool {
    len <= settings.thumbnail_max_size_kb * 1024
}

/// Whether an image of `len` bytes fits the size that the settings allow.
pub fn thumbnail_fits(settings: &MediaSettings, len: usize) -> (fits: bool)
    ensures
        fits == fits_thumbnail(*settings, len as nat),
{
    fits_kilobytes(len, settings.thumbnail_max_size_kb)
}

/// How many sizes are tried when an image is compressed.
pub const SCALE_STEPS: usize = 8;

/// How many qualities are tried for each size.
pub const QUALITY_STEPS: usize = 7;

/// The size of the given step, in percent of the image's own size: the
/// steps go from the whole size down to a fifth.
pub open spec fn scale_percent_of(step: int) -> u32 {
    if step == 0 {
        100
    } else if step == 1 {
        80
    } else if step == 2 {
        60
    } else if step == 3 {
        50
    } else if step == 4 {
        40
    } else if step == 5 {
        30
    } else if step == 6 {
        25
    } else {
        20
    }
}

/// The quality of the given step: the steps go from 85 down to 25 by tens.
pub open spec fn quality_of(step: int) -> u8 {
    (85 - 10 * step) as u8
}

/// One attempt to compress an image: the size in percent of its own size,
/// and the quality of the encoding.
#[derive(Clone, Copy, Debug, PartialEq, Eq, Structural)]
pub struct CompressionAttempt {
    pub scale_percent: u32,
    pub quality: u8,
    /// The attempt is the first at its size, so the image is to be resized
    /// for it.
    pub resize: bool,
}

/// The attempts to compress an image, in the order in which they are made:
/// every size from the largest down, and at every size every quality from
/// the best down. The first attempt whose outcome fits is taken. Past the
/// last attempt there is none.
pub fn compression_attempt(index: usize) -> (attempt: Option<CompressionAttempt>)
    ensures
        index >= SCALE_STEPS * QUALITY_STEPS ==> attempt is None,
        index < SCALE_STEPS * QUALITY_STEPS ==> attempt == Some(
            CompressionAttempt {
                scale_percent: scale_percent_of(index as int / QUALITY_STEPS as int),
                quality: quality_of(index as int % QUALITY_STEPS as int),
                resize: index as int % QUALITY_STEPS as int == 0,
            },
        ),
{
    if index >= SCALE_STEPS * QUALITY_STEPS {
        return None;
    }
    let scale_step = index / QUALITY_STEPS;
    let quality_step = index % QUALITY_STEPS;
    let scale_percent: u32 = if scale_step == 0 {
        100
    } else if scale_step == 1 {
        80
    } else if scale_step == 2 {
        60
    } else if scale_step == 3 {
        50
    } else if scale_step == 4 {
        40
    } else if scale_step == 5 {
        30
    } else if scale_step == 6 {
        25
    } else {
        20
    };
    let quality: u8 = 85 - 10 * (quality_step as u8);
    Some(CompressionAttempt { scale_percent, quality, resize: quality_step == 0 })
}

/// Whether the caller is to compress the image before it asks for the
/// thumbnail: where thumbnails are sent and compressed.
pub fn wants_compression(settings: &MediaSettings) -> (wanted: bool)
    ensures
        wanted == (settings.send_thumbnail && settings.compress_thumbnail),
{
    settings.send_thumbnail && settings.compress_thumbnail
}

/// The bytes that go out as the thumbnail, `compressed` being the outcome of
/// the compression where it was wanted and worked.
pub open spec fn thumbnail_bytes_of(
    settings: MediaSettings,
    raw: Vec<u8>,
    compressed: Option<Vec<u8>>,
) -> Option<Vec<u8>> {
    if !settings.send_thumbnail {
        None
    } else if !settings.compress_thumbnail {
        Some(raw)
    } else if compressed is Some {
        compressed
    } else if fits_thumbnail(settings, raw@.len()) {
        Some(raw)
    } else {
        None
    }
}

/// The bytes that go out as the thumbnail: none where thumbnails are not
/// sent; the image as it is where they are not compressed; the compressed
/// image where there is one; and where the compression failed, the image as
/// it is if it fits the allowed size, else none.
pub fn thumbnail_bytes(settings: &MediaSettings, raw: Vec<u8>, compressed: Option<Vec<u8>>) -> (bytes:
    Option<Vec<u8>>)
    ensures
        bytes == thumbnail_bytes_of(*settings, raw, compressed),
{
    if !settings.send_thumbnail {
        None
    } else if !settings.compress_thumbnail {
        Some(raw)
    } else if compressed.is_some() {
        compressed
    } else if thumbnail_fits(settings, raw.len()) {
        Some(raw)
    } else {
        None
    }
}

/// The base64 text of some bytes in the standard alphabet with padding, as
/// the `base64` crate's `STANDARD` engine writes it.
pub uninterp spec fn base64_standard(bytes: Seq<u8>) -> Seq<char>;

/// The text of so many bytes can be computed: its length fits the machine.
pub open spec fn base64_encodable(len: nat) -> bool {
    len / 3 * 4 + 4 <= usize::MAX
}

/// Calls `base64::Engine::encode` on
/// `base64::engine::general_purpose::STANDARD`. The text depends on the bytes
/// alone; the contract gives it a name and claims no more. The call panics
/// where the length of the text overflows, which the precondition excludes.
#[verifier::external_body]
fn base64_encode(bytes: &Vec<u8>) -> (text: String)
    requires
        base64_encodable(bytes@.len()),
    ensures
        text@ == base64_standard(bytes@),
{
    base64::engine::general_purpose::STANDARD.encode(bytes)
}

/// The base64 text of a thumbnail; none where the text would be too long
/// for the machine.
pub fn encode_thumbnail(bytes: &Vec<u8>) -> (text: Option<String>)
    ensures
        base64_encodable(bytes@.len()) ==> (text matches Some(encoded) && encoded@
            == base64_standard(bytes@)),
        !base64_encodable(bytes@.len()) ==> text is None,
{
    if bytes.len() / 3 <= (usize::MAX - 4) / 4 {
        Some(base64_encode(bytes))
    } else {
        None
    }
}

/// The thumbnail that goes into the record: the base64 text of the bytes
/// that `thumbnail_bytes` picks, none where it picks none or the text would
/// be too long for the machine.
pub fn thumbnail_text(settings: &MediaSettings, raw: Vec<u8>, compressed: Option<Vec<u8>>) -> (text:
    Option<String>)
    ensures
        match thumbnail_bytes_of(*settings, raw, compressed) {
            Some(bytes) => if base64_encodable(bytes@.len()) {
                text matches Some(encoded) && encoded@ == base64_standard(bytes@)
            } else {
                text is None
            },
            None => text is None,
        },
{
    match thumbnail_bytes(settings, raw, compressed) {
        Some(bytes) => encode_thumbnail(&bytes),
        None => None,
    }
}

} // verus!
