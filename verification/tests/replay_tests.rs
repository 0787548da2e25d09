use v8q::config::Config;
use v8q::replay::{
    choose_segments, clean, clip_listing, error_lines, escape_concat_path, first_output_path,
    is_cleanable_buffer_file, is_clip_file_name, is_log_file, is_relevant_log_error,
    is_segment_file_name, last_lines, last_relevant_log_error, log_files, log_tail, logs,
    numbered_output_path, order_clips, after_output_check, output_candidate_path, wl_screenrec_save_result,
    OutputAttempt, OutputStep, poll_history, recorder_not_running_message, rename_target,
    save_with_options, sort_by_modified, strip_ansi, wl_screenrec_failure_context, HistoryPoll,
    SaveError, SaveOptions, SavePlan, SegmentError, StableWatch, TimedPath,
    MIN_VALID_HISTORY_BYTES,
};
use v8q::cli::ClipSort;

fn tp(modified: i128, path: &str) -> TimedPath {
    TimedPath { modified, path: path.to_string() }
}

#[test]
fn escapes_single_quotes_for_concat_file() {
    assert_eq!(escape_concat_path("/tmp/a'b.mkv"), "/tmp/a'\\''b.mkv");
}

#[test]
fn cleanable_buffer_files_exclude_logs() {
    assert!(is_cleanable_buffer_file("/tmp/seg_000001.mkv"));
    assert!(is_cleanable_buffer_file("/tmp/concat_test.txt"));
    assert!(is_cleanable_buffer_file("/tmp/history.mkv"));
    assert!(!is_cleanable_buffer_file("/tmp/ffmpeg.log"));
    assert!(!is_cleanable_buffer_file("/tmp/wl-screenrec.log"));
}

#[test]
fn clean_never_removes_saved_clips() {
    assert!(!is_cleanable_buffer_file("/home/u/Videos/V8Q/v8q_2026-01-01_00-00-01.mkv"));
    let home = Some("/home/u".to_string());
    let mut config = Config::default();
    config.paths.buffer_dir = "~/buf".to_string();
    let files = vec![
        "/home/u/buf/seg_000001.mkv".to_string(),
        "/home/u/buf/ffmpeg.log".to_string(),
        "/home/u/buf/history.mkv".to_string(),
        "/home/u/buf/v8q_clip.mkv".to_string(),
    ];
    let plan = clean(&config, &home, &files);
    assert_eq!(plan.buffer_dir, "/home/u/buf");
    assert_eq!(
        plan.remove,
        vec!["/home/u/buf/seg_000001.mkv".to_string(), "/home/u/buf/history.mkv".to_string()]
    );
    let result = plan.done();
    assert_eq!(result.removed_files, 2);
    assert_eq!(result.buffer_dir, "/home/u/buf");
}

#[test]
fn detects_segment_files() {
    assert!(is_segment_file_name("/tmp/v8q-test/seg_000001.mkv"));
    assert!(!is_segment_file_name("/tmp/v8q-test/concat.txt"));
    assert!(!is_segment_file_name("/tmp/v8q-test/seg_000001.mp4"));
}

#[test]
fn strips_basic_ansi_escape_sequences() {
    assert_eq!(strip_ansi("\u{1b}[31mERROR\u{1b}[0m plain"), "ERROR plain");
}

#[test]
fn strips_csi_ansi_escape_sequences() {
    assert_eq!(strip_ansi("\u{1b}[2Kline\u{1b}[?25h"), "line");
}

#[test]
fn plain_text_is_left_as_it_is() {
    assert_eq!(strip_ansi("no escapes [here]"), "no escapes [here]");
    assert_eq!(strip_ansi("\u{1b}x"), "\u{1b}x");
    assert_eq!(strip_ansi("cut \u{1b}[12"), "cut ");
}

#[test]
fn finds_last_relevant_log_error() {
    let lines = ["ok", "ERROR first", "still ok", "Failed second"];
    assert_eq!(
        last_relevant_log_error(&lines),
        Some("Failed second".to_string())
    );
}

#[test]
fn no_error_line_gives_none() {
    let lines = ["ok", "fine"];
    assert_eq!(last_relevant_log_error(&lines), None);
    assert!(is_relevant_log_error("thread panicked"));
    assert!(!is_relevant_log_error("Error without colon"));
}

#[test]
fn tiny_history_threshold_marks_zero_bytes_invalid() {
    let size = 0;
    assert!(size < MIN_VALID_HISTORY_BYTES);
}

#[test]
fn log_tails_keep_the_last_lines() {
    assert_eq!(last_lines("a\nb\r\nc\n", 2), vec!["b".to_string(), "c".to_string()]);
    assert_eq!(last_lines("", 5), Vec::<String>::new());
    assert_eq!(log_tail("x\n\u{1b}[31my\u{1b}[0m", 10), vec!["x".to_string(), "y".to_string()]);
    let tails = logs(&vec![("/l/a.log".to_string(), "1\n2\n3\n4\n5\n6\n7\n8\n9\n10\n11\n".to_string())]);
    assert_eq!(tails.logs[0].0, "/l/a.log");
    assert_eq!(tails.logs[0].1.len(), 10);
    assert_eq!(tails.logs[0].1[0], "2");
    let lines = vec!["ok".to_string(), "ERROR a".to_string(), "error: b".to_string(), "panic c".to_string(), "x".to_string(), "failed d".to_string()];
    assert_eq!(error_lines(&lines, 3), vec!["error: b".to_string(), "panic c".to_string(), "failed d".to_string()]);
}

#[test]
fn list_clips_orders_by_modified_time() {
    let files = vec![
        tp(20, "/out/v8q_2026-01-01_00-00-02.mkv"),
        tp(5, "/out/other.mkv"),
        tp(10, "/out/v8q_2026-01-01_00-00-01.mkv"),
    ];
    let clips = order_clips(files).clips;
    assert_eq!(
        clips,
        vec![
            "/out/v8q_2026-01-01_00-00-01.mkv".to_string(),
            "/out/v8q_2026-01-01_00-00-02.mkv".to_string()
        ]
    );
}

#[test]
fn sorting_by_time_is_stable_and_keeps_every_item() {
    let sorted = sort_by_modified(vec![tp(3, "c"), tp(1, "a1"), tp(2, "b"), tp(1, "a2")]);
    let paths: Vec<String> = sorted.iter().map(|t| t.path.clone()).collect();
    assert_eq!(paths, vec!["a1", "a2", "b", "c"]);
}

#[test]
fn clip_listing_sorts_and_limits() {
    let clips = vec!["a".to_string(), "b".to_string(), "c".to_string()];
    assert_eq!(clip_listing(clips.clone(), ClipSort::Newest, Some(2)), vec!["c".to_string(), "b".to_string()]);
    assert_eq!(clip_listing(clips.clone(), ClipSort::Oldest, None), clips);
    assert_eq!(clip_listing(clips, ClipSort::Oldest, Some(0)), Vec::<String>::new());
}

#[test]
fn chooses_the_newest_segments_in_time_order() {
    let config = Config::default();
    let options = SaveOptions { name: None, duration_seconds: Some(4) };
    let segments = vec![tp(4, "s4"), tp(1, "s1"), tp(3, "s3"), tp(2, "s2")];
    assert_eq!(choose_segments(&config, &options, segments).unwrap(), vec!["s3".to_string(), "s4".to_string()]);
    let err = choose_segments(&config, &SaveOptions::default(), vec![tp(1, "s1")]).unwrap_err();
    assert_eq!(err, SegmentError::NotEnough(1, 15, 30));
    assert_eq!(err.message(), "not enough segments yet: have 1, need 15 for 30 seconds");
}

#[test]
fn save_plan_joins_segments_with_ffmpeg() {
    let home = Some("/home/u".to_string());
    let mut config = Config::default();
    config.capture.as_mut().unwrap().backend = "x11".to_string();
    config.paths.buffer_dir = "/buf".to_string();
    config.paths.output_dir = "/out".to_string();
    let options = SaveOptions { name: None, duration_seconds: Some(2) };
    let plan = save_with_options(&config, &options, vec![tp(1, "/buf/seg_1.mkv"), tp(2, "/buf/it's.mkv")], OutputAttempt::Numbered(2), "2026", &home).unwrap();
    match plan {
        SavePlan::Concat(s) => {
            assert_eq!(s.concat_file, "/buf/concat_2026.txt");
            assert_eq!(s.concat_list, "file '/buf/it'\\''s.mkv'\n");
            assert_eq!(s.ffmpeg_args, vec!["ffmpeg", "-y", "-f", "concat", "-safe", "0", "-i", "/buf/concat_2026.txt", "-c", "copy", "/out/v8q_2026_2.mkv"]);
            assert_eq!(s.result.output_file, "/out/v8q_2026_2.mkv");
            assert_eq!(s.result.duration_seconds, 2);
            assert_eq!(s.result.backend, "x11");
        }
        SavePlan::WlScreenrec { .. } => panic!("expected a concat save"),
    }
    let wl = save_with_options(&Config::default(), &SaveOptions::default(), Vec::new(), OutputAttempt::First, "t", &home).unwrap();
    match wl {
        SavePlan::WlScreenrec { history_file, duration_seconds } => {
            assert!(history_file.ends_with("/history.mkv"));
            assert_eq!(duration_seconds, 30);
        }
        SavePlan::Concat(_) => panic!("expected a wl-screenrec save"),
    }
    let mut bad = Config::default();
    bad.capture.as_mut().unwrap().backend = "nope".to_string();
    let err = save_with_options(&bad, &SaveOptions::default(), Vec::new(), OutputAttempt::First, "t", &home).unwrap_err();
    assert_eq!(err, SaveError::Config(v8q::config::ConfigError::UnknownBackend));
}

#[test]
fn history_wait_reports_exit_and_readiness() {
    match poll_history(42, "wl-screenrec --history 30", false, None) {
        HistoryPoll::Exited(m) => assert_eq!(m, "recorder process exited before save; wl-screenrec crashed or stopped before writing history file; pid=42; cmdline=wl-screenrec --history 30"),
        _ => panic!("expected an exit"),
    }
    assert!(matches!(poll_history(1, "x", true, Some(MIN_VALID_HISTORY_BYTES)), HistoryPoll::Ready));
    assert!(matches!(poll_history(1, "x", true, Some(10)), HistoryPoll::Waiting));
    assert!(matches!(poll_history(1, "x", true, None), HistoryPoll::Waiting));
}

#[test]
fn stable_watch_needs_three_equal_sizes() {
    let mut w = StableWatch::new();
    assert!(!w.observe(Some(2048)));
    assert!(!w.observe(Some(2048)));
    assert!(w.observe(Some(2048)));
    let mut w = StableWatch::new();
    assert!(!w.observe(Some(10)));
    assert!(!w.observe(Some(10)));
    assert!(!w.observe(None));
    assert_eq!(w.stable_ticks, 0);
}

#[test]
fn wl_screenrec_failure_context_includes_actionable_debug_data() {
    let listing = Ok(vec![("/buf/probe.txt".to_string(), 5u64)]);
    let context = wl_screenrec_failure_context(
        1234,
        "wl-screenrec --history 30",
        "/buf/history.mkv",
        "/buf",
        false,
        &vec!["stale warning".to_string()],
        &listing,
        &None,
    );
    assert!(context.contains("expected history file"));
    assert!(context.contains("buffer listing"));
    assert!(context.contains("probe.txt"));
    assert!(context.contains("  /buf/probe.txt (5 bytes)"));
    assert!(context.contains("log tail"));
    assert!(context.contains("<empty>"));
    assert!(context.contains("beginner-safe"));
    assert!(context.contains("wl-screenrec-nvidia-compat"));
    let failed: Result<Vec<(String, u64)>, String> = Err("denied".to_string());
    let context = wl_screenrec_failure_context(1, "c", "/h", "/b", true, &Vec::new(), &failed, &Some("l1\nERROR l2".to_string()));
    assert!(context.contains("  <failed to list buffer dir: denied>"));
    assert!(context.contains("process alive: true"));
    assert!(context.contains("warnings: <none>"));
    assert!(context.contains("log tail:\nl1\nERROR l2\n"));
}

#[test]
fn not_running_message_names_the_history_file() {
    let m = recorder_not_running_message("/buf/history.mkv", &vec!["a".to_string(), "b".to_string()], &None);
    assert!(m.starts_with("recorder process exited before save; wl-screenrec crashed or is not running.\nV8Q detected it and preserved the log.\nwarnings: a; b\nexpected history file: /buf/history.mkv\nlog tail:\n<empty>\nRecommended actions:\n- Run `v8q debug wl-screenrec --test-run 5`."));
}

#[test]
fn saved_clip_names_are_listed_clips() {
    let first = first_output_path("/out", Some("ace 1v3"), "2026-01-01_00-00-00");
    assert_eq!(first, "/out/v8q_2026-01-01_00-00-00_ace_1v3.mkv");
    assert!(is_clip_file_name(&first));
    let second = numbered_output_path("/out", "v8q_2026-01-01_00-00-00_ace_1v3.mkv", 2);
    assert_eq!(second, "/out/v8q_2026-01-01_00-00-00_ace_1v3_2.mkv");
    assert!(is_clip_file_name(&second));
    assert_eq!(numbered_output_path("/out", ".hidden", 1), "/out/.hidden_1.mkv");
    assert_eq!(rename_target("/out", "../bad/name"), "/out/bad_name.mkv");
}

#[test]
fn log_files_and_log_extensions() {
    assert_eq!(log_files(Some("ffmpeg"), "/logs", "2026-01-01"), vec!["/logs/ffmpeg_2026-01-01.log".to_string()]);
    assert_eq!(
        log_files(None, "/logs", "d"),
        vec!["/logs/wl-screenrec_d.log".to_string(), "/logs/ffmpeg_d.log".to_string(), "/logs/latest.log".to_string()]
    );
    assert!(is_log_file("/logs/latest.log"));
    assert!(!is_log_file("/logs/.log"));
    assert!(!is_log_file("/logs/a.txt"));
    assert!(!is_log_file("/logs/log"));
}

#[test]
fn clip_path_search_goes_in_order() {
    assert_eq!(after_output_check(OutputAttempt::First, false, 7), OutputStep::Use(OutputAttempt::First));
    assert_eq!(after_output_check(OutputAttempt::First, true, 7), OutputStep::Check(OutputAttempt::Numbered(1)));
    assert_eq!(after_output_check(OutputAttempt::Numbered(5), true, 7), OutputStep::Check(OutputAttempt::Numbered(6)));
    assert_eq!(after_output_check(OutputAttempt::Numbered(5), false, 7), OutputStep::Use(OutputAttempt::Numbered(5)));
    assert_eq!(after_output_check(OutputAttempt::Numbered(999), true, 7), OutputStep::Use(OutputAttempt::Fallback(7)));
    let ts = "2026-01-01_00-00-00";
    assert_eq!(output_candidate_path("/out", Some("ace 1v3"), ts, OutputAttempt::First), "/out/v8q_2026-01-01_00-00-00_ace_1v3.mkv");
    assert_eq!(output_candidate_path("/out", Some("ace 1v3"), ts, OutputAttempt::Numbered(3)), "/out/v8q_2026-01-01_00-00-00_ace_1v3_3.mkv");
    assert_eq!(output_candidate_path("/out", None, ts, OutputAttempt::Fallback(1700)), "/out/v8q_2026-01-01_00-00-00_1700.mkv");
}

#[test]
fn wl_screenrec_save_names_the_clip() {
    let mut config = Config::default();
    config.paths.output_dir = "~/clips".to_string();
    let options = SaveOptions { name: Some("boss fight".to_string()), duration_seconds: None };
    let r = wl_screenrec_save_result(&config, &options, OutputAttempt::Numbered(1), "T", &Some("/home/u".to_string()));
    assert_eq!(r.output_file, "/home/u/clips/v8q_T_boss_fight_1.mkv");
    assert_eq!(r.duration_seconds, 30);
    assert_eq!(r.backend, "wl-screenrec");
}
