use v8q::doctor::{
    check_audio_default, check_legacy_buffer_dir, check_wl_screenrec_flags, report_for,
    required_flags, wl_screenrec_help_has_flags, wl_screenrec_help_text, SystemProbe,
};
use v8q::report::{doctor_lines, doctor_summary_lines};
use v8q::{Config, DoctorCheck, DoctorCheckStatus, DoctorReport};

#[test]
fn report_counts_statuses() {
    let report = DoctorReport::from_checks(vec![
        DoctorCheck::ok("a", "ok"),
        DoctorCheck::warn("b", "warn", None),
        DoctorCheck::fail("c", "fail", None),
        DoctorCheck {
            name: "d".to_string(),
            status: DoctorCheckStatus::Pass,
            message: "ok2".to_string(),
            hint: None,
        },
    ]);

    assert_eq!(report.ok_count, 2);
    assert_eq!(report.warn_count, 1);
    assert_eq!(report.fail_count, 1);
}

#[test]
fn report_counts_add_up_and_collect_hints() {
    let report = DoctorReport::from_checks(vec![
        DoctorCheck::ok("a", "ok"),
        DoctorCheck::warn("b", "warn", Some("try b".to_string())),
        DoctorCheck::fail("c", "fail", Some("try c".to_string())),
    ]);
    assert_eq!(report.ok_count + report.warn_count + report.fail_count, report.checks.len());
    assert_eq!(report.summary, "1 OK, 1 WARN, 1 FAIL");
    assert_eq!(report.recommended_actions, vec!["try b".to_string(), "try c".to_string()]);
}

#[test]
fn audio_default_generates_warning() {
    let mut config = Config::default();
    config.wl_screenrec.audio = true;
    config.wl_screenrec.audio_device = "default".to_string();

    let check = check_audio_default(&config);
    assert_eq!(check.status, DoctorCheckStatus::Warn);
    assert!(check.message.contains("audio_device is 'default'"));
}

#[test]
fn explicit_audio_device_passes() {
    let mut config = Config::default();
    config.wl_screenrec.audio_device = "alsa_output.monitor".to_string();
    assert_eq!(check_audio_default(&config).status, DoctorCheckStatus::Pass);
}

#[test]
fn legacy_buffer_generates_warning() {
    let mut config = Config::default();
    config.paths.buffer_dir = "/tmp/v8q-buffer".to_string();

    let default_buffer = v8q::paths::default_buffer_dir(&v8q::paths::runtime_dir());
    let check = check_legacy_buffer_dir(&config, &v8q::paths::home_dir(), &default_buffer);
    assert_eq!(check.status, DoctorCheckStatus::Warn);
    assert!(check.message.contains("legacy buffer_dir"));
    assert_ne!(default_buffer, "/tmp/v8q-buffer");
}

#[test]
fn help_flags_are_checked_in_order() {
    let flags = required_flags();
    assert!(wl_screenrec_help_has_flags("--history N --filename F", &flags).is_ok());
    assert_eq!(
        wl_screenrec_help_has_flags("--filename only", &flags).unwrap_err(),
        "wl-screenrec --help does not contain required flag --history"
    );
    assert_eq!(wl_screenrec_help_text(None).unwrap_err(), "failed to run wl-screenrec --help");
    assert_eq!(wl_screenrec_help_text(Some("x".to_string())).unwrap(), "x");
    let check = check_wl_screenrec_flags(&flags, &Some("--history".to_string()));
    assert_eq!(check.status, DoctorCheckStatus::Fail);
}

fn quiet_probe() -> SystemProbe {
    SystemProbe {
        session_type: Some("wayland".to_string()),
        hyprland_signature: true,
        current_desktop: Some("Hyprland".to_string()),
        shell: Some("/bin/bash".to_string()),
        commands: Vec::new(),
        current_exe: Ok("/home/u/.cargo/bin/v8q".to_string()),
        home: Some("/home/u".to_string()),
        cargo_bin_exists: true,
        cargo_bin_in_path: true,
        wl_screenrec_help: None,
        ffmpeg_encoders: None,
        pactl_sources: None,
        hyprctl_monitors: None,
        windows: Err("no hyprland".to_string()),
        services: Vec::new(),
        buffer_dir_created: Ok(()),
        output_dir_created: Ok(()),
        pid_parent: None,
        default_buffer_dir: "/run/user/1000/v8q/buffer".to_string(),
    }
}

#[test]
fn full_report_has_consistent_counts_and_text() {
    let config = Config::default();
    let report = report_for(&config, "/home/u/.config/v8q/config.toml", &quiet_probe());
    assert!(report.checks.len() > 5);
    assert_eq!(report.ok_count + report.warn_count + report.fail_count, report.checks.len());
    let verbose = doctor_lines(&report);
    assert_eq!(verbose[0], "V8Q Doctor\n");
    assert_eq!(verbose[verbose.len() - 3], format!("- {} OK", report.ok_count));
    let summary = doctor_summary_lines(&report);
    assert_eq!(summary[0], "V8Q Doctor\n");
    assert!(summary[1].starts_with("System: "));
    assert!(summary[5].starts_with("Window capture: "));
    assert_eq!(summary[6], format!("\nSummary: {}", report.summary));
    assert_eq!(summary[summary.len() - 1], "\nRun `v8q doctor --verbose` for details.");
}

#[test]
fn summary_takes_the_worst_status_of_a_group() {
    let report = DoctorReport::from_checks(vec![
        DoctorCheck::ok("session", "fine"),
        DoctorCheck::warn("shell", "hmm", Some("first line\nsecond line".to_string())),
        DoctorCheck::fail("audio", "broken", None),
        DoctorCheck::ok("audio-device", "fine"),
    ]);
    let summary = doctor_summary_lines(&report);
    assert_eq!(summary[1], "System: WARN");
    assert_eq!(summary[2], "Backend: OK");
    assert_eq!(summary[3], "Audio: FAIL");
    assert_eq!(summary[7], "\nRecommended actions:");
    assert_eq!(summary[8], "- first line");
    let verbose = doctor_lines(&report);
    assert_eq!(verbose[1], "[OK] fine");
    assert_eq!(verbose[2], "[WARN] hmm");
    assert_eq!(verbose[3], "       first line");
    assert_eq!(verbose[4], "       second line");
}
