use v8q::config::Config;
use v8q::wl_screenrec::{
    build_wl_screenrec_command, command_for_config, exited_immediately_message, startup_hint,
    CommandError, CommandInputs, StartError, WlScreenrecCapabilities,
};
use v8q::window::WindowInfo;

fn inputs() -> CommandInputs {
    CommandInputs {
        home: Some("/home/u".to_string()),
        windows: Ok(Vec::new()),
        active_window: Err("no active window".to_string()),
        hyprctl_monitors: None,
        bitrate_arg: "2500 kB".to_string(),
    }
}

#[test]
fn builds_wl_screenrec_history_command() {
    let mut config = Config::default();
    config.capture.as_mut().unwrap().backend = "wl-screenrec".to_string();
    config.wl_screenrec.audio = true;
    config.wl_screenrec.audio_device = "default".to_string();

    let command = build_wl_screenrec_command(&config, &WlScreenrecCapabilities::all(), &inputs()).unwrap();
    assert_eq!(command[0], "wl-screenrec");
    assert!(command.contains(&"--history".to_string()));
    assert!(command.contains(&"30".to_string()));
    assert!(command.contains(&"--max-fps".to_string()));
    assert!(command.contains(&"--ffmpeg-encoder".to_string()));
    assert!(command.contains(&"h264_nvenc".to_string()));
    assert!(command.contains(&"--audio".to_string()));
}

#[test]
fn omits_optional_flags_when_help_does_not_support_them() {
    let mut config = Config::default();
    config.wl_screenrec.output = "DP-1".to_string();
    config.wl_screenrec.geometry = "0,0 1920x1080".to_string();
    let caps = WlScreenrecCapabilities::from_help("--history --filename");

    let command = build_wl_screenrec_command(&config, &caps, &inputs()).unwrap();
    assert!(command.contains(&"--history".to_string()));
    assert!(command.contains(&"--filename".to_string()));
    assert!(!command.contains(&"--ffmpeg-encoder".to_string()));
    assert!(!command.contains(&"--audio".to_string()));
    assert!(!command.contains(&"--output".to_string()));
    assert!(!command.contains(&"--geometry".to_string()));
}

#[test]
fn output_mode_passes_configured_output() {
    let mut config = Config::default();
    config.wl_screenrec.output = "DP-1".to_string();
    config.wl_screenrec.auto_select_focused_output = false;

    let command = build_wl_screenrec_command(&config, &WlScreenrecCapabilities::all(), &inputs()).unwrap();
    assert!(command.contains(&"--output".to_string()));
    assert!(command.contains(&"DP-1".to_string()));
    assert!(!command.contains(&"--geometry".to_string()));
}

#[test]
fn geometry_mode_passes_geometry_instead_of_output() {
    let mut config = Config::default();
    config.wl_screenrec.capture_mode = "geometry".to_string();
    config.wl_screenrec.output = "DP-1".to_string();
    config.wl_screenrec.geometry = "1366,0 1920x1080".to_string();

    let command = build_wl_screenrec_command(&config, &WlScreenrecCapabilities::all(), &inputs()).unwrap();
    assert!(command.contains(&"--geometry".to_string()));
    assert!(command.contains(&"1366,0 1920x1080".to_string()));
    assert!(!command.contains(&"--output".to_string()));
}

#[test]
fn omits_audio_codec_when_audio_is_disabled() {
    let mut config = Config::default();
    config.wl_screenrec.audio = false;
    config.wl_screenrec.auto_select_focused_output = false;

    let command = build_wl_screenrec_command(&config, &WlScreenrecCapabilities::all(), &inputs()).unwrap();
    assert!(!command.contains(&"--audio".to_string()));
    assert!(!command.contains(&"--audio-codec".to_string()));
}

#[test]
fn the_whole_default_command_in_order() {
    let config = Config::default();
    let mut i = inputs();
    i.hyprctl_monitors = Some(r#"[{"name": "DP-1", "focused": false}, {"name": "HDMI-A-1", "focused": true}]"#.to_string());
    let command = build_wl_screenrec_command(&config, &WlScreenrecCapabilities::all(), &i).unwrap();
    let expected: Vec<String> = [
        "wl-screenrec", "--history", "30", "--filename",
    ]
    .iter()
    .map(|s| s.to_string())
    .collect();
    assert_eq!(&command[..4], &expected[..]);
    assert!(command[4].ends_with("/buffer/history.mkv"));
    let rest: Vec<String> = [
        "--max-fps", "60", "--ffmpeg-encoder", "h264_nvenc", "--bitrate", "2500 kB",
        "--output", "HDMI-A-1", "--audio", "--audio-codec", "aac", "--audio-device", "default",
        "--audio-backend", "pulse", "--ffmpeg-encoder-options", "preset=p5",
    ]
    .iter()
    .map(|s| s.to_string())
    .collect();
    assert_eq!(&command[5..], &rest[..]);
}

#[test]
fn capture_target_errors() {
    let mut config = Config::default();
    config.wl_screenrec.capture_mode = "active-window".to_string();
    let err = build_wl_screenrec_command(&config, &WlScreenrecCapabilities::all(), &inputs()).unwrap_err();
    assert!(matches!(err, CommandError::ActiveWindow(ref m) if m == "no active window"));
    assert_eq!(err.message(&config), "no active window");

    let caps = WlScreenrecCapabilities::from_help("--history --filename");
    let err = build_wl_screenrec_command(&config, &caps, &inputs()).unwrap_err();
    assert!(matches!(err, CommandError::GeometryUnsupported));

    config.wl_screenrec.capture_mode = "geometry".to_string();
    config.wl_screenrec.geometry = "   ".to_string();
    let err = build_wl_screenrec_command(&config, &WlScreenrecCapabilities::all(), &inputs()).unwrap_err();
    assert!(matches!(err, CommandError::EmptyGeometry));

    config.wl_screenrec.capture_mode = "screen".to_string();
    let err = build_wl_screenrec_command(&config, &WlScreenrecCapabilities::all(), &inputs()).unwrap_err();
    assert!(matches!(err, CommandError::UnknownCaptureMode));
    assert_eq!(
        err.message(&config),
        "unknown wl_screenrec.capture_mode 'screen'. Valid modes: output, monitor, geometry, active-window"
    );
}

#[test]
fn window_capture_uses_the_selected_window() {
    let mut config = Config::default();
    let w = WindowInfo {
        title: "Mozilla Firefox".to_string(),
        class: "firefox".to_string(),
        app_id: "firefox".to_string(),
        workspace: "1".to_string(),
        pid: Some(1234),
        address: "0xabc".to_string(),
        x: 1366,
        y: 0,
        width: 1920,
        height: 1080,
    };
    v8q::window::apply_selected_window(&mut config, &w);
    let command = build_wl_screenrec_command(&config, &WlScreenrecCapabilities::all(), &inputs()).unwrap();
    assert!(command.contains(&"1366,0 1920x1080".to_string()));
    let caps = WlScreenrecCapabilities::from_help("--history --filename");
    let err = build_wl_screenrec_command(&config, &caps, &inputs()).unwrap_err();
    assert!(matches!(err, CommandError::WindowNeedsGeometry));
}

#[test]
fn starting_needs_wl_screenrec_and_its_flags() {
    let config = Config::default();
    assert!(matches!(command_for_config(&config, false, None, &inputs()), Err(StartError::NotInstalled)));
    let e = command_for_config(&config, true, None, &inputs()).unwrap_err();
    assert_eq!(e.message(&config), "failed to run wl-screenrec --help");
    let e = command_for_config(&config, true, Some("--history only".to_string()), &inputs()).unwrap_err();
    assert_eq!(e.message(&config), "wl-screenrec --help does not contain required flag --filename");
    assert_eq!(
        StartError::NotInstalled.message(&config),
        "wl-screenrec not found in PATH; install it with `paru -S wl-screenrec`, then rerun `v8q doctor`"
    );
    let (args, help) = command_for_config(&config, true, Some("--history --filename".to_string()), &inputs()).unwrap();
    assert_eq!(help, "--history --filename");
    assert_eq!(args.len(), 5);
    assert_eq!(args[0], "wl-screenrec");
}

#[test]
fn startup_failure_shows_hint() {
    let lines = vec!["x".to_string(), "Failed to negotiate format".to_string()];
    assert!(startup_hint(&lines).starts_with("Hint: this wl-screenrec/NVIDIA path failed"));
    assert_eq!(startup_hint(&Vec::new()), "Hint: run `v8q debug wl-screenrec --test-run 5` and inspect the log.");
    let m = exited_immediately_message(
        "exit status: 1",
        &vec!["wl-screenrec".to_string(), "--history".to_string()],
        &Some("boom\nmultiple enabled displays\n".to_string()),
    );
    assert!(m.starts_with("wl-screenrec exited immediately with status exit status: 1\ncommand: wl-screenrec --history\nlog tail:\nboom\nmultiple enabled displays\nHint: set `[wl_screenrec] output"));
}
