use youtube_terminal::launch::{build_launch_args, MpvSettings};
use youtube_terminal::player::{PlayMode, PlaybackQuality, PlayerState};

#[test]
fn test_build_launch_args_enable_long_video_buffering() {
    let config = MpvSettings::default();
    let args = build_launch_args(
        "/tmp/test.sock",
        "https://www.youtube.com/watch?v=abc123",
        PlayMode::Video,
        PlaybackQuality::P1080,
        &config,
        None,
        "/tmp/mpv.log",
        None,
        false,
    );

    assert!(args.iter().any(|arg| arg == "--hwdec=auto-safe"));
    assert!(args.iter().any(|arg| arg == "--cache=yes"));
    assert!(args.iter().any(|arg| arg == "--cache-pause=yes"));
    assert!(args
        .iter()
        .any(|arg| arg == &format!("--cache-secs={}", config.cache_secs)));
    assert!(args
        .iter()
        .any(|arg| arg == &format!("--cache-pause-wait={}", config.cache_pause_wait)));
    assert!(args
        .iter()
        .any(|arg| arg == &format!("--demuxer-max-bytes={}", config.demuxer_max_bytes)));
    assert!(args.iter().any(|arg| {
        arg == &format!("--demuxer-max-back-bytes={}", config.demuxer_max_back_bytes)
    }));
    assert!(args.iter().any(|arg| arg == "--ontop"));
    assert!(args.iter().any(|arg| arg
        == "--ytdl-format=bestvideo[vcodec!*=av01][height<=1080]+bestaudio/best[height<=1080]/best"));
}

#[test]
fn test_build_launch_args_use_no_video_for_audio_mode() {
    let config = MpvSettings::default();
    let args = build_launch_args(
        "/tmp/test.sock",
        "https://www.youtube.com/watch?v=abc123",
        PlayMode::AudioOnly,
        PlaybackQuality::P720,
        &config,
        None,
        "/tmp/mpv.log",
        None,
        false,
    );

    assert!(args.iter().any(|arg| arg == "--no-video"));
    assert!(!args.iter().any(|arg| arg.starts_with("--geometry=")));
    assert!(args.iter().any(|arg| arg
        == "--ytdl-format=bestvideo[vcodec!*=av01][height<=720]+bestaudio/best[height<=720]/best"));
}

#[test]
fn test_build_launch_args_uses_geometry_override_when_present() {
    let config = MpvSettings::default();
    let args = build_launch_args(
        "/tmp/test.sock",
        "https://www.youtube.com/watch?v=abc123",
        PlayMode::Video,
        PlaybackQuality::P1080,
        &config,
        Some("50%x50%+10+20"),
        "/tmp/mpv.log",
        None,
        false,
    );

    assert!(args.iter().any(|arg| arg == "--geometry=50%x50%+10+20"));
}

#[test]
fn launch_args_full_order() {
    let config = MpvSettings::default();
    let args = build_launch_args(
        "/s.sock",
        "URL",
        PlayMode::Video,
        PlaybackQuality::P720,
        &config,
        None,
        "/l.log",
        Some("/c.txt"),
        false,
    );
    let expected = vec![
        "--input-ipc-server=/s.sock",
        "--log-file=/l.log",
        "--cache=yes",
        "--cache-pause=yes",
        "--hwdec=auto-safe",
        "--cache-secs=45",
        "--cache-pause-wait=1.5",
        "--force-seekable=yes",
        "--demuxer-max-bytes=128MiB",
        "--demuxer-max-back-bytes=64MiB",
        "--ytdl-format=bestvideo[vcodec!*=av01][height<=720]+bestaudio/best[height<=720]/best",
        "--geometry=800x450+50%+50%",
        "--ontop",
        "--ytdl-raw-options=cookies=/c.txt",
        "URL",
    ];
    assert_eq!(args, expected);
}

#[test]
fn launch_args_macos_and_no_ontop() {
    let mut config = MpvSettings::default();
    config.ontop = false;
    config.force_seekable = false;
    let args = build_launch_args(
        "/s.sock",
        "URL",
        PlayMode::Video,
        PlaybackQuality::P1080,
        &config,
        None,
        "/l.log",
        None,
        true,
    );
    assert!(!args.iter().any(|a| a == "--ontop"));
    assert!(args.iter().any(|a| a == "--force-seekable=no"));
    assert!(args.iter().any(|a| a == "--osd-font=SF Pro"));
    assert_eq!(args.len(), 12 + 14 + 1);
    assert_eq!(args.last().unwrap(), "URL");
}

#[test]
fn player_state_from_answered_properties() {
    let state = PlayerState::from_properties(
        Some(true),
        Some(12.5f64.to_bits()),
        Some(300.0f64.to_bits()),
        Some("Song".to_string()),
        Some(80.0f64.to_bits()),
    );
    match state {
        PlayerState::Paused(info) => {
            assert_eq!(info.title, "Song");
            assert_eq!(f64::from_bits(info.time_pos_bits), 12.5);
            assert_eq!(f64::from_bits(info.duration_bits), 300.0);
            assert_eq!(f64::from_bits(info.volume_bits), 80.0);
        }
        other => panic!("expected paused, got {:?}", other),
    }
}

#[test]
fn player_state_defaults_for_missing_properties() {
    let state = PlayerState::from_properties(None, None, None, None, None);
    match state {
        PlayerState::Playing(info) => {
            assert_eq!(info.title, "");
            assert_eq!(f64::from_bits(info.time_pos_bits), 0.0);
            assert_eq!(f64::from_bits(info.duration_bits), 0.0);
            assert_eq!(f64::from_bits(info.volume_bits), 100.0);
        }
        other => panic!("expected playing, got {:?}", other),
    }
}

#[test]
fn video_mode_has_one_geometry_argument_and_audio_none() {
    let config = MpvSettings::default();
    let url = "https://www.youtube.com/watch?v=abc123";
    let video = build_launch_args("/tmp/s", url, PlayMode::Video, PlaybackQuality::P720, &config, None, "/tmp/l", None, true);
    let geometry: Vec<&String> = video.iter().filter(|a| a.starts_with("--geometry=")).collect();
    assert_eq!(geometry, vec!["--geometry=800x450+50%+50%"]);
    assert_eq!(video[11], "--geometry=800x450+50%+50%");
    assert_eq!(video.last().unwrap(), url);
    let audio = build_launch_args("/tmp/s", url, PlayMode::AudioOnly, PlaybackQuality::P720, &config, None, "/tmp/l", Some("/c"), false);
    assert!(audio.iter().all(|a| !a.starts_with("--geometry=")));
    assert_eq!(audio[11], "--no-video");
    assert_eq!(audio[10], format!("--ytdl-format={}", PlaybackQuality::P720.ytdl_format()));
}
