use v8q::config::{Config, ConfigError};
use v8q::process::StopAction;
use v8q::replay::{StatusError, StatusObservation, TimedPath};
use v8q::wl_screenrec::CommandInputs;
use v8q::{
    build_clip_filename, clip_filename_at, config_path, get_status, latest_clip, list_clips,
    notify_replay_saved, open_output_folder_command, sanitize_clip_name, start_recorder,
    stop_recorder, validate_config, validate_config_detailed, ClipsResult, StartFailure,
    CaptureBackend,
};

fn observation(config_path: Option<String>) -> StatusObservation {
    StatusObservation {
        recorder_pid: None,
        pid_warnings: Vec::new(),
        process_command: None,
        metadata: None,
        config_path,
        home: Some("/home/u".to_string()),
        runtime_dir: "/run/user/1000/v8q".to_string(),
        history_size_bytes: None,
        wl_log_file: "/state/logs/wl-screenrec_2026-01-01.log".to_string(),
        wl_log_contents: None,
        segment_count: 0,
        log_files: Vec::new(),
        latest_clip: None,
    }
}

#[test]
fn get_status_returns_structured_info() {
    let config = Config::default();
    let status = get_status(&config, observation(config_path())).unwrap();
    assert_eq!(status.backend, "wl-screenrec");
    assert_eq!(status.replay_duration, 30);
    assert_eq!(status.fps, 60);
}

#[test]
fn status_reports_history_and_warnings() {
    let mut config = Config::default();
    config.paths.buffer_dir = "/tmp/v8q-buffer".to_string();
    let mut obs = observation(Some("/c/v8q/config.toml".to_string()));
    obs.recorder_pid = Some(77);
    obs.history_size_bytes = Some(100);
    obs.wl_log_contents = Some("ok\nERROR one\n\u{1b}[31mfailed two\u{1b}[0m\n".to_string());
    let status = get_status(&config, obs).unwrap();
    assert!(status.is_running);
    assert_eq!(status.pid, Some(77));
    assert_eq!(status.history_exists, Some(true));
    assert_eq!(status.history_valid, Some(false));
    assert_eq!(status.history_file.as_deref(), Some("/tmp/v8q-buffer/history.mkv"));
    assert_eq!(
        status.warnings,
        vec![
            "Using legacy buffer_dir /tmp/v8q-buffer. Recommended: /run/user/1000/v8q/buffer".to_string(),
            "History file exists but is probably not a valid replay yet: size is only 100 bytes.".to_string(),
        ]
    );
    assert_eq!(status.log_tail, vec!["ok".to_string(), "ERROR one".to_string(), "failed two".to_string()]);
    assert_eq!(status.last_error_lines, vec!["ERROR one".to_string(), "failed two".to_string()]);
    assert_eq!(status.detected_preset.as_deref(), Some("performance"));
    assert_eq!(status.capture_target, "fullscreen/focused output");
    assert_eq!(status.segment_count, None);
    assert_eq!(status.audio_enabled, Some(true));
}

#[test]
fn status_errors() {
    let mut config = Config::default();
    assert_eq!(get_status(&config, observation(None)).unwrap_err(), StatusError::NoConfigPath);
    config.capture.as_mut().unwrap().backend = "vhs".to_string();
    let e = get_status(&config, observation(Some("/c".to_string()))).unwrap_err();
    assert_eq!(e, StatusError::Config(ConfigError::UnknownBackend));
    assert_eq!(StatusError::NoConfigPath.message(&config), "could not locate user config directory");
}

#[test]
fn config_path_resolves() {
    let path = config_path().unwrap();
    assert!(path.ends_with("v8q/config.toml"));
}

#[test]
fn sanitizes_clip_name() {
    assert_eq!(sanitize_clip_name("ace 1v3"), "ace_1v3");
    assert_eq!(sanitize_clip_name("../bad/name"), "bad_name");
}

#[test]
fn sanitized_names_are_safe_and_short() {
    let long = "x".repeat(100);
    assert_eq!(sanitize_clip_name(&long).len(), 64);
    assert_eq!(sanitize_clip_name("  __héllo  wörld!!__ "), "h_llo_w_rld");
    assert_eq!(sanitize_clip_name("///"), "");
}

#[test]
fn clip_file_names() {
    assert_eq!(clip_filename_at(Some("ace 1v3"), "2026-01-02_03-04-05"), "v8q_2026-01-02_03-04-05_ace_1v3.mkv");
    assert_eq!(clip_filename_at(Some("///"), "T"), "v8q_T.mkv");
    assert_eq!(clip_filename_at(None, "T"), "v8q_T.mkv");
    let name = build_clip_filename(Some("x"));
    assert!(name.starts_with("v8q_"));
    assert!(name.ends_with("_x.mkv"));
    assert_eq!(name.len(), "v8q_2026-01-02_03-04-05_x.mkv".len());
}

#[test]
fn latest_clip_returns_none_for_empty_output_dir() {
    assert!(latest_clip(ClipsResult { clips: Vec::new() }).is_none());
    let clips = list_clips(vec![
        TimedPath { modified: 2, path: "/o/v8q_b.mkv".to_string() },
        TimedPath { modified: 1, path: "/o/v8q_a.mkv".to_string() },
    ]);
    assert_eq!(latest_clip(clips), Some("/o/v8q_b.mkv".to_string()));
}

#[test]
fn validation_helpers() {
    let config = Config::default();
    assert!(validate_config(&config).is_ok());
    assert_eq!(validate_config_detailed(&config).unwrap(), Vec::<String>::new());
    let mut bad = Config::default();
    bad.recording.fps = 0;
    assert_eq!(validate_config(&bad).unwrap_err(), ConfigError::FpsOutOfRange);
}

fn inputs() -> CommandInputs {
    CommandInputs {
        home: Some("/home/u".to_string()),
        windows: Ok(Vec::new()),
        active_window: Err("none".to_string()),
        hyprctl_monitors: None,
        bitrate_arg: "2500 kB".to_string(),
    }
}

#[test]
fn start_refuses_a_second_recorder_and_picks_the_backend() {
    let config = Config::default();
    let e = start_recorder(&config, Some(9), true, Some("--history --filename".to_string()), &inputs()).unwrap_err();
    assert!(matches!(e, StartFailure::AlreadyRunning(9)));
    assert_eq!(e.message(&config), "recorder is already running with PID 9");
    let (b, args) = start_recorder(&config, None, true, Some("--history --filename".to_string()), &inputs()).unwrap();
    assert_eq!(b, CaptureBackend::WlScreenrec);
    assert_eq!(args[0], "wl-screenrec");
    let e = start_recorder(&config, None, false, None, &inputs()).unwrap_err();
    assert!(matches!(e, StartFailure::WlScreenrec(_)));

    let mut x11 = Config::default();
    x11.capture.as_mut().unwrap().backend = "x11".to_string();
    let (b, args) = start_recorder(&x11, None, false, None, &inputs()).unwrap();
    assert_eq!(b, CaptureBackend::X11);
    assert_eq!(args[0], "ffmpeg");

    let mut custom = Config::default();
    custom.capture.as_mut().unwrap().backend = "custom".to_string();
    let e = start_recorder(&custom, None, false, None, &inputs()).unwrap_err();
    assert_eq!(e.message(&custom), "capture backend 'custom' requires ffmpeg.custom_record_command");
    custom.ffmpeg.custom_record_command = "ffmpeg 'unterminated".to_string();
    let e = start_recorder(&custom, None, false, None, &inputs()).unwrap_err();
    assert_eq!(e.message(&custom), "failed to parse custom_record_command");
    custom.ffmpeg.custom_record_command = "''".to_string();
    let e = start_recorder(&custom, None, false, None, &inputs());
    assert!(e.is_ok());
}

#[test]
fn stop_reports_what_happened() {
    let config = Config::default();
    let (r, remove) = stop_recorder(&config, Some(5), StopAction::Terminate, true, Some(0));
    assert!(r.was_running);
    assert_eq!(r.pid, Some(5));
    assert!(remove);
    let (r, remove) = stop_recorder(&config, Some(5), StopAction::ForgetForeign, true, Some(10));
    assert!(!r.was_running);
    assert!(!remove);
    let (r, _) = stop_recorder(&config, None, StopAction::RemoveFiles, false, None);
    assert!(!r.was_running);
    assert_eq!(r.pid, None);
}

#[test]
fn notification_and_folder_commands() {
    let config = Config::default();
    let (cmd, args) = notify_replay_saved(&config, "/o/v8q_x.mkv").unwrap();
    assert_eq!(cmd, "notify-send");
    assert_eq!(args, vec!["V8Q replay saved".to_string(), "/o/v8q_x.mkv".to_string()]);
    let mut quiet = Config::default();
    quiet.notifications.on_save = false;
    assert!(notify_replay_saved(&quiet, "/o").is_none());
    let (program, args) = open_output_folder_command(&config, &Some("/home/u".to_string()));
    assert_eq!(program, "xdg-open");
    assert_eq!(args, vec!["/home/u/Videos/V8Q".to_string()]);
}

#[test]
fn open_output_folder_command_uses_xdg_open() {
    let config = Config::default();
    let (program, args) = open_output_folder_command(&config, &v8q::paths::home_dir());
    assert_eq!(program, "xdg-open");
    assert_eq!(args.len(), 1);
}
