use v8q::config::{ConfigError, migrate_config, validate_config, validate_config_in, with_ui_mode, CaptureWindowConfig};
use v8q::{CaptureBackend, Config};

#[test]
fn backend_aliases_work() {
    for name in ["wl-screenrec", "hyprland", "wayland"] {
        let mut config = Config::default();
        config.capture.as_mut().unwrap().backend = name.to_string();
        assert_eq!(
            config.effective_backend().unwrap(),
            CaptureBackend::WlScreenrec
        );
    }

    let mut config = Config::default();
    config.capture.as_mut().unwrap().backend = "x11".to_string();
    assert_eq!(config.effective_backend().unwrap(), CaptureBackend::X11);

    config.capture.as_mut().unwrap().backend = "custom".to_string();
    assert_eq!(config.effective_backend().unwrap(), CaptureBackend::Custom);
}

#[test]
fn unknown_backend_is_refused_with_its_name() {
    let mut config = Config::default();
    config.capture.as_mut().unwrap().backend = "vhs".to_string();
    let err = config.effective_backend().unwrap_err();
    assert_eq!(err, ConfigError::UnknownBackend);
    assert_eq!(
        err.message(&config),
        "unknown capture backend 'vhs'. Valid backends: wl-screenrec, wayland, hyprland, x11, custom"
    );
}

#[test]
fn default_config_is_valid_without_warnings() {
    let config = Config::default();
    assert_eq!(validate_config(&config).unwrap(), Vec::<String>::new());
    assert_eq!(config.recording.duration_seconds, 30);
    assert_eq!(config.replay_segment_count(), 15);
    assert_eq!(config.ffmpeg_segment_wrap_count(), 18);
    assert!(config.paths.buffer_dir.ends_with("/buffer"));
    assert!(config.paths.pid_file.ends_with("/v8q.pid"));
}

#[test]
fn validation_reports_each_rule() {
    let home = Some("/home/u".to_string());
    let mut c = Config::default();
    c.recording.duration_seconds = 0;
    assert_eq!(validate_config_in(&c, &home).unwrap_err(), ConfigError::ZeroDuration);

    let mut c = Config::default();
    c.recording.fps = 241;
    assert_eq!(validate_config_in(&c, &home).unwrap_err(), ConfigError::FpsOutOfRange);

    let mut c = Config::default();
    c.wl_screenrec.bitrate = "  ".to_string();
    assert_eq!(validate_config_in(&c, &home).unwrap_err(), ConfigError::EmptyBitrate);

    let mut c = Config::default();
    c.wl_screenrec.ffmpeg_encoder = String::new();
    assert_eq!(validate_config_in(&c, &home).unwrap_err(), ConfigError::EmptyEncoder);

    let mut c = Config::default();
    c.capture.as_mut().unwrap().backend = "custom".to_string();
    assert_eq!(validate_config_in(&c, &home).unwrap_err(), ConfigError::CustomCommandMissing);

    let mut c = Config::default();
    c.wl_screenrec.capture_mode = "screen".to_string();
    assert_eq!(validate_config_in(&c, &home).unwrap_err(), ConfigError::InvalidCaptureMode);

    let mut c = Config::default();
    c.ui.mode = "expert".to_string();
    assert_eq!(validate_config_in(&c, &home).unwrap_err(), ConfigError::InvalidUiMode);

    let mut c = Config::default();
    c.paths.output_dir = String::new();
    assert_eq!(validate_config_in(&c, &home).unwrap_err(), ConfigError::EmptyOutputDir);
    assert_eq!(ConfigError::EmptyOutputDir.message(&c), "paths.output_dir must not be empty");

    let mut c = Config::default();
    c.paths.buffer_dir = String::new();
    assert_eq!(validate_config_in(&c, &home).unwrap_err(), ConfigError::EmptyBufferDir);
}

#[test]
fn legacy_settings_produce_warnings() {
    let home = Some("/home/u".to_string());
    let mut c = Config::default();
    c.capture = None;
    c.ffmpeg.capture_backend = Some("x11".to_string());
    c.capture_window = Some(CaptureWindowConfig {
        enabled: true,
        title: "t".to_string(),
        class: "c".to_string(),
        address: "0x1".to_string(),
        geometry: String::new(),
        follow: false,
    });
    let warnings = validate_config_in(&c, &home).unwrap();
    assert_eq!(
        warnings,
        vec![
            "capture.window is enabled but geometry is empty; run `v8q window select`".to_string(),
            "legacy [capture_window] is in use; run `v8q config migrate --write`".to_string(),
            "legacy [ffmpeg].capture_backend is in use; run `v8q config migrate --write`".to_string(),
        ]
    );
}

#[test]
fn migration_moves_legacy_settings_and_is_idempotent() {
    let home = Some("/home/u".to_string());
    let mut c = Config::default();
    c.capture = None;
    c.ffmpeg.capture_backend = Some("x11".to_string());
    c.paths.buffer_dir = "/tmp/v8q-buffer".to_string();
    c.paths.pid_file = "/tmp//v8q.pid".to_string();
    c.capture_window = Some(CaptureWindowConfig {
        enabled: true,
        title: "t".to_string(),
        class: "c".to_string(),
        address: "0x1".to_string(),
        geometry: "5,6 700x800".to_string(),
        follow: false,
    });
    let once = migrate_config(c.clone(), "/run/user/1000/v8q/buffer", "/run/user/1000/v8q/v8q.pid", &home);
    assert_eq!(once.capture.as_ref().unwrap().backend, "x11");
    assert_eq!(once.ffmpeg.capture_backend, None);
    assert_eq!(once.paths.buffer_dir, "/run/user/1000/v8q/buffer");
    assert_eq!(once.paths.pid_file, "/run/user/1000/v8q/v8q.pid");
    assert!(once.capture_window.is_none());
    assert_eq!(
        once.capture.as_ref().unwrap().window.as_ref().unwrap().geometry,
        "5,6 700x800"
    );
    assert_eq!(once.effective_backend().unwrap(), CaptureBackend::X11);

    let twice = migrate_config(once.clone(), "/run/user/1000/v8q/buffer", "/run/user/1000/v8q/v8q.pid", &home);
    assert_eq!(twice.paths.buffer_dir, once.paths.buffer_dir);
    assert_eq!(twice.paths.pid_file, once.paths.pid_file);
    assert_eq!(twice.capture.as_ref().unwrap().backend, "x11");
    assert_eq!(
        twice.capture.as_ref().unwrap().window.as_ref().unwrap().geometry,
        "5,6 700x800"
    );
}

#[test]
fn nested_capture_window_wins_during_migration() {
    let home = None;
    let mut c = Config::default();
    c.capture.as_mut().unwrap().window = Some(CaptureWindowConfig {
        enabled: true,
        title: String::new(),
        class: String::new(),
        address: String::new(),
        geometry: "1,2 300x400".to_string(),
        follow: false,
    });
    c.capture_window = Some(CaptureWindowConfig {
        enabled: true,
        title: String::new(),
        class: String::new(),
        address: String::new(),
        geometry: "5,6 700x800".to_string(),
        follow: false,
    });
    assert_eq!(c.effective_capture_window().geometry, "1,2 300x400");
    let m = migrate_config(c, "/b", "/p", &home);
    assert_eq!(m.effective_capture_window().geometry, "1,2 300x400");
    assert!(m.capture_window.is_none());
}

#[test]
fn history_file_and_paths_follow_home() {
    let home = Some("/home/u".to_string());
    let mut c = Config::default();
    c.paths.buffer_dir = "~/buf".to_string();
    c.paths.output_dir = "~".to_string();
    c.paths.pid_file = "/run/p.pid".to_string();
    assert_eq!(c.paths.buffer_dir_path_in(&home), "/home/u/buf");
    assert_eq!(c.paths.output_dir_path_in(&home), "/home/u");
    assert_eq!(c.paths.pid_file_path_in(&home), "/run/p.pid");
    assert_eq!(c.wl_screenrec_history_file_in(&home), "/home/u/buf/history.mkv");
}

#[test]
fn effective_encoder_and_bitrate_depend_on_backend() {
    let mut c = Config::default();
    c.wl_screenrec.ffmpeg_encoder = "wl-enc".to_string();
    c.recording.encoder = "rec-enc".to_string();
    c.wl_screenrec.bitrate = "8M".to_string();
    c.recording.video_bitrate = "9M".to_string();
    assert_eq!(c.effective_encoder().unwrap(), "wl-enc");
    assert_eq!(c.effective_bitrate().unwrap(), "8M");
    assert!(c.uses_wl_screenrec().unwrap());
    c.capture.as_mut().unwrap().backend = "x11".to_string();
    assert_eq!(c.effective_encoder().unwrap(), "rec-enc");
    assert_eq!(c.effective_bitrate().unwrap(), "9M");
    assert!(c.effective_backend().unwrap().is_segmented());
    assert_eq!(c.effective_backend().unwrap().as_str(), "x11");
}

#[test]
fn ui_mode_switch_keeps_the_rest() {
    let c = Config::default();
    let a = with_ui_mode(c.clone(), true);
    assert_eq!(a.ui.mode, "advanced");
    assert_eq!(a.recording.fps, c.recording.fps);
    let b = with_ui_mode(a, false);
    assert_eq!(b.ui.mode, "beginner");
}

#[test]
fn segment_counts_round_up() {
    let mut c = Config::default();
    c.recording.duration_seconds = 31;
    c.recording.segment_seconds = 2;
    assert_eq!(c.replay_segment_count(), 16);
    c.recording.duration_seconds = 0;
    c.recording.segment_seconds = 0;
    assert_eq!(c.replay_segment_count(), 1);
    assert_eq!(v8q::config::segments_needed(10, 3), 4);
}

fn window_geometry(geometry: &str) -> CaptureWindowConfig {
    CaptureWindowConfig {
        enabled: true,
        title: String::new(),
        class: String::new(),
        address: String::new(),
        geometry: geometry.to_string(),
        follow: false,
    }
}

fn legacy_paths_config() -> Config {
    let mut c = Config::default();
    c.recording.duration_seconds = 30;
    c.recording.segment_seconds = 2;
    c.recording.fps = 60;
    c.recording.width = 1920;
    c.recording.height = 1080;
    c.recording.encoder = "h264_nvenc".to_string();
    c.recording.video_bitrate = "20M".to_string();
    c.recording.audio_codec = "aac".to_string();
    c.paths.buffer_dir = "/tmp/v8q-buffer".to_string();
    c.paths.output_dir = "~/Videos/V8Q".to_string();
    c.paths.pid_file = "/tmp/v8q.pid".to_string();
    c.capture.as_mut().unwrap().backend = "wl-screenrec".to_string();
    c.capture.as_mut().unwrap().window = None;
    c.capture_window = None;
    c
}

#[test]
fn nested_capture_window_wins_over_legacy() {
    let mut config = legacy_paths_config();
    config.capture.as_mut().unwrap().window = Some(window_geometry("1,2 300x400"));
    config.capture_window = Some(window_geometry("5,6 700x800"));
    assert_eq!(config.effective_capture_window().geometry, "1,2 300x400");
}

#[test]
fn migrate_moves_legacy_capture_window_to_nested() {
    let mut raw = legacy_paths_config();
    raw.capture_window = Some(window_geometry("5,6 700x800"));
    let config = migrate_config(raw, "/run/user/1000/v8q/buffer", "/run/user/1000/v8q/v8q.pid", &None);
    assert!(config.capture_window.is_none());
    assert_eq!(config.capture.unwrap().window.unwrap().geometry, "5,6 700x800");
}
