use watchmedo::media::{
    compression_attempt, encode_thumbnail, fits_kilobytes, get_current_media, media_info,
    thumbnail_bytes, thumbnail_fits, thumbnail_text, ticks_to_seconds, wants_compression,
    CompressionAttempt, PlaybackStatus, QUALITY_STEPS, SCALE_STEPS,
};
use watchmedo::settings::{media_settings_or_default, MediaSettings};

fn media_settings(send: bool, compress: bool, max_kb: u32) -> MediaSettings {
    MediaSettings {
        enabled: true,
        send_thumbnail: send,
        compress_thumbnail: compress,
        thumbnail_max_size_kb: max_kb,
    }
}

#[test]
fn default_media_settings() {
    let settings = MediaSettings::default();
    assert!(settings.enabled);
    assert!(!settings.send_thumbnail);
    assert!(settings.compress_thumbnail);
    assert_eq!(settings.thumbnail_max_size_kb, 16);
    assert_eq!(media_settings_or_default(None), settings);
    assert_eq!(media_settings_or_default(Some(media_settings(true, false, 4))), media_settings(true, false, 4));
}

#[test]
fn platform_without_media_sessions_reports_nothing() {
    assert!(get_current_media().is_none());
}

#[test]
fn stopped_and_unknown_sessions_are_not_reported() {
    for status in [PlaybackStatus::Stopped, PlaybackStatus::Unknown] {
        assert!(media_info(status, "t".to_string(), None, None, None, None, None).is_none());
    }
}

#[test]
fn playing_music_is_reported() {
    let info = media_info(
        PlaybackStatus::Playing,
        "Song".to_string(),
        Some("Artist".to_string()),
        None,
        Some(2_450_000_000),
        Some(19_999_999),
        Some("aGk=".to_string()),
    )
    .unwrap();
    assert_eq!(info.title, "Song");
    assert_eq!(info.artist.as_deref(), Some("Artist"));
    assert!(info.album.is_none());
    assert_eq!(info.duration, Some(245));
    assert_eq!(info.position, Some(1));
    assert_eq!(info.playback_status, "Playing");
    assert_eq!(info.media_type, "Music");
    assert_eq!(info.thumbnail.as_deref(), Some("aGk="));
}

#[test]
fn paused_media_without_artist_is_video() {
    let info =
        media_info(PlaybackStatus::Paused, "Clip".to_string(), None, None, None, None, None)
            .unwrap();
    assert_eq!(info.playback_status, "Paused");
    assert_eq!(info.media_type, "Video");
    assert!(info.duration.is_none());
    assert!(info.position.is_none());
    let info = media_info(
        PlaybackStatus::Paused,
        "Track".to_string(),
        None,
        Some("Album".to_string()),
        None,
        None,
        None,
    )
    .unwrap();
    assert_eq!(info.media_type, "Music");
}

#[test]
fn status_names() {
    assert_eq!(PlaybackStatus::Playing.name(), "Playing");
    assert_eq!(PlaybackStatus::Paused.name(), "Paused");
    assert_eq!(PlaybackStatus::Stopped.name(), "Stopped");
    assert_eq!(PlaybackStatus::Unknown.name(), "Unknown");
}

#[test]
fn ticks_are_tenths_of_microseconds() {
    assert_eq!(ticks_to_seconds(0), 0);
    assert_eq!(ticks_to_seconds(9_999_999), 0);
    assert_eq!(ticks_to_seconds(10_000_000), 1);
    assert_eq!(ticks_to_seconds(-1), u64::MAX / 10_000_000);
}

#[test]
fn thumbnail_size_limit_is_in_kilobytes() {
    let settings = media_settings(true, true, 16);
    assert!(thumbnail_fits(&settings, 0));
    assert!(thumbnail_fits(&settings, 16 * 1024));
    assert!(!thumbnail_fits(&settings, 16 * 1024 + 1));
    assert!(thumbnail_fits(&media_settings(true, true, u32::MAX), 4_000_000_000));
    assert!(!thumbnail_fits(&media_settings(true, true, 0), 1));
}

#[test]
fn compression_is_wanted_only_when_thumbnails_are_sent() {
    assert!(wants_compression(&media_settings(true, true, 16)));
    assert!(!wants_compression(&media_settings(true, false, 16)));
    assert!(!wants_compression(&media_settings(false, true, 16)));
}

#[test]
fn thumbnail_choice() {
    let raw = vec![1u8; 2048];
    let small = vec![2u8; 10];
    assert_eq!(thumbnail_bytes(&media_settings(false, true, 16), raw.clone(), Some(small.clone())), None);
    assert_eq!(
        thumbnail_bytes(&media_settings(true, false, 1), raw.clone(), None),
        Some(raw.clone())
    );
    assert_eq!(
        thumbnail_bytes(&media_settings(true, true, 1), raw.clone(), Some(small.clone())),
        Some(small.clone())
    );
    assert_eq!(thumbnail_bytes(&media_settings(true, true, 1), raw.clone(), None), None);
    assert_eq!(
        thumbnail_bytes(&media_settings(true, true, 2), raw.clone(), None),
        Some(raw.clone())
    );
}

#[test]
fn thumbnails_are_encoded_in_standard_base64() {
    assert_eq!(encode_thumbnail(&b"hello world~".to_vec()).unwrap(), "aGVsbG8gd29ybGR+");
    assert_eq!(encode_thumbnail(&Vec::new()).unwrap(), "");
    assert_eq!(encode_thumbnail(&vec![0xff, 0xfe]).unwrap(), "//4=");
    assert_eq!(encode_thumbnail(&vec![b'a']).unwrap(), "YQ==");
}

#[test]
fn thumbnail_text_encodes_the_chosen_bytes() {
    let raw = b"raw image".to_vec();
    let compressed = b"jpg".to_vec();
    assert_eq!(
        thumbnail_text(&media_settings(true, true, 16), raw.clone(), Some(compressed)).unwrap(),
        "anBn"
    );
    assert_eq!(
        thumbnail_text(&media_settings(true, false, 16), raw.clone(), None).unwrap(),
        "cmF3IGltYWdl"
    );
    assert!(thumbnail_text(&media_settings(false, false, 16), raw, None).is_none());
}

#[test]
fn compression_attempts_go_from_large_and_good_to_small_and_poor() {
    assert_eq!(SCALE_STEPS * QUALITY_STEPS, 56);
    let scales = [100, 80, 60, 50, 40, 30, 25, 20];
    let qualities = [85, 75, 65, 55, 45, 35, 25];
    let mut index = 0;
    for scale in scales {
        for (step, quality) in qualities.iter().enumerate() {
            assert_eq!(
                compression_attempt(index),
                Some(CompressionAttempt { scale_percent: scale, quality: *quality, resize: step == 0 })
            );
            index += 1;
        }
    }
    assert_eq!(compression_attempt(56), None);
    assert_eq!(compression_attempt(usize::MAX), None);
    assert!(fits_kilobytes(1024, 1));
    assert!(!fits_kilobytes(1025, 1));
    assert!(fits_kilobytes(0, 0));
}
