use v8q::report::{
    hyprland_binds, logs_lines, preset_list_lines, shell_profile, shell_setup_lines, start_lines,
    status_lines, stop_message, supported_flag_lines,
};
use v8q::replay::StatusObservation;
use v8q::{get_status, Config, StartResult, StopResult};

#[test]
fn stop_messages() {
    assert_eq!(stop_message(&StopResult { was_running: true, pid: Some(3) }), "Stopped V8Q recorder with PID 3.");
    assert_eq!(
        stop_message(&StopResult { was_running: false, pid: Some(3) }),
        "Recorder PID 3 was not running; removed stale PID metadata."
    );
    assert_eq!(stop_message(&StopResult { was_running: false, pid: None }), "V8Q is not running.");
    assert_eq!(stop_message(&StopResult { was_running: true, pid: None }), "Stopped V8Q recorder.");
}

#[test]
fn start_lines_show_the_recorder() {
    let lines = start_lines(&StartResult {
        pid: 12,
        backend: "wl-screenrec".to_string(),
        buffer_dir: "/b".to_string(),
        log_file: "/l".to_string(),
    });
    assert_eq!(lines, vec!["Started V8Q recorder with PID 12.", "Backend: wl-screenrec", "Buffer: /b", "Log: /l"]);
}

#[test]
fn status_text_lists_the_settings() {
    let config = Config::default();
    let obs = StatusObservation {
        recorder_pid: Some(7),
        pid_warnings: vec!["w".to_string()],
        process_command: Some("wl-screenrec --history 30".to_string()),
        metadata: None,
        config_path: Some("/c/config.toml".to_string()),
        home: Some("/home/u".to_string()),
        runtime_dir: "/run/v8q".to_string(),
        history_size_bytes: Some(4096),
        wl_log_file: "/l/wl.log".to_string(),
        wl_log_contents: Some("line\n".to_string()),
        segment_count: 0,
        log_files: vec![("/l/wl.log".to_string(), "line\n".to_string())],
        latest_clip: None,
    };
    let status = get_status(&config, obs).unwrap();
    let lines = status_lines(&status);
    assert_eq!(lines[0], "V8Q Status\n");
    assert_eq!(lines[1], "State: running");
    assert_eq!(lines[2], "PID: 7");
    assert_eq!(lines[3], "Backend: wl-screenrec");
    assert_eq!(lines[4], "Config: /c/config.toml");
    assert!(lines.contains(&"Replay: 30s".to_string()));
    assert!(lines.contains(&"Audio: on".to_string()));
    assert!(lines.contains(&"History exists: true".to_string()));
    assert!(lines.contains(&"History size: 4096 bytes".to_string()));
    assert!(lines.contains(&"History valid: yes".to_string()));
    assert!(lines.contains(&"Process command: wl-screenrec --history 30".to_string()));
    assert!(lines.contains(&"WARN: w".to_string()));
    assert!(lines.contains(&"\nLast wl-screenrec log:".to_string()));
    assert_eq!(lines[lines.len() - 2], "\nLast log lines from /l/wl.log:");
    assert_eq!(lines[lines.len() - 1], "  line");
}

#[test]
fn log_lines_are_indented() {
    let logs = vec![("/a".to_string(), vec!["x".to_string(), "y".to_string()])];
    assert_eq!(logs_lines(&logs), vec!["\nLast log lines from /a:", "  x", "  y"]);
}

#[test]
fn supported_flags_are_listed() {
    let lines = supported_flag_lines("--history --filename --audio");
    assert_eq!(lines[0], "supported_flags:");
    assert_eq!(lines[1], "  --history: true");
    assert_eq!(lines[3], "  --max-fps: false");
    assert_eq!(lines[5], "  --audio: true");
    assert_eq!(lines.len(), 12);
}

#[test]
fn shell_setup_depends_on_the_shell() {
    assert_eq!(shell_profile("/usr/bin/fish"), ("~/.config/fish/config.fish", "fish_add_path $HOME/.cargo/bin"));
    assert_eq!(shell_profile("/bin/zsh").0, "~/.zshrc");
    assert_eq!(shell_profile("").0, "~/.bashrc");
    let lines = shell_setup_lines("/bin/bash");
    assert_eq!(lines[1], "echo 'export PATH=\"$HOME/.cargo/bin:$PATH\"' >> ~/.bashrc");
    assert!(hyprland_binds().starts_with("bind = SUPER_SHIFT, R, exec, v8q save\n"));
}

#[test]
fn preset_list_has_every_preset() {
    let lines = preset_list_lines();
    assert_eq!(lines.len(), 8);
    assert_eq!(lines[1], "performance - Good balance for an Nvidia gaming PC.");
}
