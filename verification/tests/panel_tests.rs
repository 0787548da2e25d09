use v8q::panel::{
    error_message, handle_event, info_message, settings_text_in, snapshot_view, PanelEvent, Snapshot,
};
use v8q::replay::StatusObservation;
use v8q::{
    get_status, Config, DoctorCheck, DoctorCheckStatus, DoctorReport, SaveResult, StartResult,
    StatusInfo, StopResult,
};

fn observed(pid: Option<u32>, history: Option<u64>) -> StatusInfo {
    let config = Config::default();
    let obs = StatusObservation {
        recorder_pid: pid,
        pid_warnings: vec!["stale pid".to_string()],
        process_command: None,
        metadata: None,
        config_path: Some("/c/config.toml".to_string()),
        home: Some("/home/u".to_string()),
        runtime_dir: "/run/v8q".to_string(),
        history_size_bytes: history,
        wl_log_file: "/l/wl.log".to_string(),
        wl_log_contents: None,
        segment_count: 0,
        log_files: vec![],
        latest_clip: None,
    };
    get_status(&config, obs).unwrap()
}

fn snapshot(pid: Option<u32>) -> Snapshot {
    Snapshot { status: observed(pid, Some(4096)), latest_clip: Some("/clips/a.mp4".to_string()) }
}

#[test]
fn running_recorder_enables_stop_and_save() {
    let status = observed(Some(42), Some(4096));
    let view = snapshot_view(&status, &None);
    assert_eq!(view.status, "Recording");
    assert_eq!(view.pid, "42");
    assert_eq!(view.replay, "30s");
    assert_eq!(view.fps, "60");
    assert_eq!(view.latest_clip, "-");
    assert!(!view.start_enabled);
    assert!(view.stop_enabled);
    assert!(view.save_enabled);
    assert_eq!(view.notice, Some("stale pid".to_string()));
}

#[test]
fn stopped_recorder_enables_only_start() {
    let status = observed(None, None);
    let view = snapshot_view(&status, &Some("/clips/x.mp4".to_string()));
    assert_eq!(view.status, "Stopped");
    assert_eq!(view.pid, "-");
    assert_eq!(view.latest_clip, "/clips/x.mp4");
    assert_eq!(view.recent_errors, "-");
    assert!(view.start_enabled);
    assert!(!view.stop_enabled);
    assert!(!view.save_enabled);
}

#[test]
fn running_recorder_without_replay_file_gets_a_note() {
    let status = observed(Some(5), None);
    let view = snapshot_view(&status, &None);
    assert_eq!(
        view.notice,
        Some(
            "stale pid\nRecorder process is running, but no replay file has been produced yet."
                .to_string()
        )
    );
}

#[test]
fn messages_and_errors() {
    let m = info_message("Ready.");
    assert_eq!(m.text, "Ready.");
    assert_eq!(m.last_error, "");
    assert!(!m.copy_enabled);
    let e = error_message("boom");
    assert_eq!(e.text, "Error: boom");
    assert_eq!(e.last_error, "boom");
    assert!(e.copy_enabled);
}

#[test]
fn events_set_the_message_line() {
    let u = handle_event(&PanelEvent::Snapshot(Ok(snapshot(Some(1)))));
    assert_eq!(u.message.unwrap().text, "Status refreshed.");
    assert_eq!(u.view.unwrap().pid, "1");

    let start = StartResult {
        pid: 12,
        backend: "wl-screenrec".to_string(),
        buffer_dir: "/b".to_string(),
        log_file: "/l/wl.log".to_string(),
    };
    let u = handle_event(&PanelEvent::Started(Ok((start, snapshot(Some(12))))));
    assert_eq!(u.message.unwrap().text, "Started recorder PID 12 using wl-screenrec. Log: /l/wl.log");

    let save = SaveResult { output_file: "/clips/r.mkv".to_string(), duration_seconds: 30, backend: "x11".to_string() };
    let u = handle_event(&PanelEvent::Saved(Ok((save, snapshot(Some(12))))));
    assert_eq!(u.message.unwrap().text, "Saved replay: /clips/r.mkv");

    let u = handle_event(&PanelEvent::Stopped(Ok((StopResult { was_running: true, pid: Some(9) }, snapshot(None)))));
    assert_eq!(u.message.unwrap().text, "Stopped recorder PID 9.");
    let u = handle_event(&PanelEvent::Stopped(Ok((StopResult { was_running: true, pid: None }, snapshot(None)))));
    assert_eq!(u.message.unwrap().text, "Stopped recorder PID 0.");
    let u = handle_event(&PanelEvent::Stopped(Ok((StopResult { was_running: false, pid: None }, snapshot(None)))));
    assert_eq!(u.message.unwrap().text, "Recorder was already stopped.");

    let u = handle_event(&PanelEvent::OpenedFolder(Ok(())));
    assert!(u.view.is_none());
    assert_eq!(u.message.unwrap().text, "Opened clips folder.");
    let u = handle_event(&PanelEvent::OpenedConfig(Ok(())));
    assert_eq!(u.message.unwrap().text, "Opened config file.");

    let u = handle_event(&PanelEvent::Saved(Err("no recorder".to_string())));
    assert!(u.view.is_none());
    let m = u.message.unwrap();
    assert_eq!(m.text, "Error: no recorder");
    assert!(m.copy_enabled);
}

#[test]
fn doctor_event_opens_the_doctor_window() {
    let report = DoctorReport {
        checks: vec![
            DoctorCheck {
                name: "ffmpeg".to_string(),
                status: DoctorCheckStatus::Pass,
                message: "found".to_string(),
                hint: None,
            },
            DoctorCheck {
                name: "wl-screenrec".to_string(),
                status: DoctorCheckStatus::Fail,
                message: "missing".to_string(),
                hint: Some("install it".to_string()),
            },
        ],
        ok_count: 1,
        warn_count: 0,
        fail_count: 1,
        summary: String::new(),
        recommended_actions: vec![],
    };
    let u = handle_event(&PanelEvent::Doctor(Ok(report)));
    assert!(u.message.is_none());
    assert!(u.view.is_none());
    assert_eq!(
        u.doctor_window.unwrap(),
        vec![
            "Summary: 1 OK, 0 WARN, 1 FAIL".to_string(),
            "[OK] ffmpeg\nfound".to_string(),
            "[FAIL] wl-screenrec\nmissing\ninstall it".to_string(),
        ]
    );
}

#[test]
fn settings_window_text() {
    let config = Config::default();
    let text = settings_text_in(&config, &Some("/c/config.toml".to_string()), &None, &Some("/home/u".to_string()));
    let lines: Vec<&str> = text.split('\n').collect();
    assert_eq!(lines[0], "Config: /c/config.toml");
    assert_eq!(lines[1], "Backend: wl-screenrec");
    assert_eq!(lines[2], "Replay duration: 30s");
    assert_eq!(lines[3], "Segment duration: 2s");
    assert_eq!(lines[4], "FPS: 60");
    assert_eq!(lines[5], format!("Encoder: {}", config.recording.encoder));
    assert_eq!(lines[7], "Audio: on");
    assert_eq!(lines[8], "Output: /home/u/Videos/V8Q");
    assert_eq!(lines.len(), 10);

    let mut bad = Config::default();
    bad.capture.as_mut().unwrap().backend = "vnc".to_string();
    let text = settings_text_in(&bad, &None, &None, &None);
    assert!(text.starts_with("Config: -\nBackend: invalid (unknown capture backend 'vnc'."));
}
