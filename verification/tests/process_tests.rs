use v8q::process::{
    cmdline_looks_like_recorder, ensure_not_running, judge_recorder, new_meta, pid_file_text,
    pid_from_contents, pid_meta_file, proc_cmdline, read_pid, recorder_pid, recorder_pid_checked,
    signal_refused_message, stop_action, RecorderVerdict, StopAction,
};
use v8q::lock::{CreateOutcome, FileLock, LockError, LockMeta};

#[test]
fn recorder_cmdline_validation_rejects_unrelated_processes() {
    assert!(cmdline_looks_like_recorder("wl-screenrec --history 30"));
    assert!(cmdline_looks_like_recorder("ffmpeg -f segment"));
    assert!(cmdline_looks_like_recorder("v8q start --foreground"));
    assert!(!cmdline_looks_like_recorder("sleep 1000"));
    assert!(!cmdline_looks_like_recorder("v8q status"));
}

#[test]
fn pid_files_parse_and_print() {
    assert_eq!(pid_from_contents("  1234\n"), Some(1234));
    assert_eq!(pid_from_contents("+7"), Some(7));
    assert_eq!(pid_from_contents("4294967296"), None);
    assert_eq!(pid_from_contents("12a"), None);
    assert_eq!(read_pid("/run/v8q.pid", None).unwrap(), None);
    assert_eq!(read_pid("/run/v8q.pid", Some("42\n")).unwrap(), Some(42));
    assert_eq!(read_pid("/run/v8q.pid", Some("x")).unwrap_err(), "invalid PID file /run/v8q.pid");
    assert_eq!(pid_file_text(42), "42\n");
    assert_eq!(pid_meta_file("/run/v8q.pid"), "/run/v8q.pid.meta");
}

#[test]
fn stale_pids_are_reported() {
    let (pid, warnings) = recorder_pid_checked(Some(5), false, None, None);
    assert_eq!(pid, None);
    assert_eq!(warnings, vec!["stale PID 5: process is not running".to_string()]);
    let (pid, warnings) = recorder_pid_checked(Some(5), true, None, None);
    assert_eq!(pid, None);
    assert_eq!(warnings, vec!["stale PID 5: could not read /proc/5/cmdline".to_string()]);
    let (pid, warnings) = recorder_pid_checked(Some(5), true, Some("sleep 1"), None);
    assert_eq!(pid, None);
    assert_eq!(warnings, vec!["stale PID 5: unexpected command line: sleep 1".to_string()]);
    let (pid, warnings) = recorder_pid_checked(Some(5), true, Some("ffmpeg -i x"), Some("wl-screenrec"));
    assert_eq!(pid, None);
    assert_eq!(warnings, vec!["stale PID 5: expected wl-screenrec but command line was: ffmpeg -i x".to_string()]);
    let (pid, warnings) = recorder_pid_checked(Some(5), true, Some("wl-screenrec --history 30"), Some("x11"));
    assert_eq!(pid, None);
    assert_eq!(warnings.len(), 1);
    let (pid, warnings) = recorder_pid_checked(Some(5), true, Some("wl-screenrec --history 30"), Some("wl-screenrec"));
    assert_eq!(pid, Some(5));
    assert!(warnings.is_empty());
    assert_eq!(recorder_pid(None, true, None), None);
    assert!(matches!(judge_recorder(3, true, Some("ffmpeg"), None), RecorderVerdict::Running));
}

#[test]
fn starting_twice_is_refused() {
    assert_eq!(ensure_not_running(Some(12)).unwrap_err(), "recorder is already running with PID 12");
    assert!(ensure_not_running(None).is_ok());
}

#[test]
fn stopping_only_terminates_recorders() {
    assert_eq!(stop_action(false, Some("wl-screenrec")), StopAction::RemoveFiles);
    assert_eq!(stop_action(true, Some("sleep 9")), StopAction::ForgetForeign);
    assert_eq!(stop_action(true, None), StopAction::ForgetForeign);
    assert_eq!(stop_action(true, Some("ffmpeg -f segment")), StopAction::Terminate);
    assert_eq!(signal_refused_message(7, "USR1"), "PID 7 did not accept SIGUSR1");
}

#[test]
fn command_lines_from_proc() {
    assert_eq!(proc_cmdline(&b"wl-screenrec\0--history\030\0".to_vec()), Some("wl-screenrec --history 30".to_string()));
    assert_eq!(proc_cmdline(&Vec::new()), None);
    assert_eq!(proc_cmdline(&b"\0\0".to_vec()), None);
    assert_eq!(proc_cmdline(&b"a\0\0b".to_vec()), Some("a b".to_string()));
    assert_eq!(proc_cmdline(&vec![0xff, b'x']), Some("\u{fffd}x".to_string()));
}

#[test]
fn metadata_records_the_version() {
    let meta = new_meta(1, "wl-screenrec", "wl-screenrec --history 30", "/b", "/o", Some("/b/history.mkv"), "/c", "/l", "2026-01-01T00:00:00+00:00");
    assert_eq!(meta.binary_version, "0.4.0");
    assert_eq!(meta.history_file.as_deref(), Some("/b/history.mkv"));
    assert_eq!(meta.started_at, "2026-01-01T00:00:00+00:00");
}

#[test]
fn save_lock_prevents_second_acquire() {
    let path = "/run/user/1000/v8q/v8q-save.lock";
    let lock = FileLock::acquire(path, "busy", CreateOutcome::Created).unwrap();
    assert_eq!(lock.path(), path);
    let second = FileLock::acquire(path, "busy", CreateOutcome::AlreadyExists);
    assert!(second.is_err());
    assert_eq!(second.unwrap_err().message(), "busy");
    drop(lock);
    assert!(FileLock::acquire(path, "busy", CreateOutcome::Created).is_ok());
    let e = FileLock::acquire(path, "busy", CreateOutcome::Failed("denied".to_string())).unwrap_err();
    assert!(matches!(e, LockError::CreateFailed(_, _)));
    assert_eq!(e.message(), "failed to create lock /run/user/1000/v8q/v8q-save.lock: denied");
    let meta = LockMeta::new(9, "now", "save");
    assert!(FileLock::is_stale(&Some(meta.clone()), false));
    assert!(!FileLock::is_stale(&Some(meta), true));
    assert!(!FileLock::is_stale(&None, false));
}
