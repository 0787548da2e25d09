use v8q::config::Config;
use v8q::ffmpeg::{build_record_command, build_record_command_in, render_custom_command, RecordCommandError};
use v8q::paths::{
    expand_tilde, expand_tilde_with, join_path, path_starts_with, runtime_dir_from, same_path,
    state_dir,
};
use v8q::preset::{apply, describe_diff, detect, explain, find, presets};
use v8q::service::{service_file, service_path_in};

#[test]
fn leaves_absolute_path_unchanged() {
    assert_eq!(expand_tilde("/tmp/v8q"), "/tmp/v8q");
}

#[test]
fn expands_home_relative_path() {
    let path = expand_tilde("~/Videos/V8Q");
    assert!(path.ends_with("/Videos/V8Q"));
    assert!(!path.starts_with('~'));
}

#[test]
fn path_helpers() {
    let home = Some("/home/u".to_string());
    assert_eq!(expand_tilde_with("~", &home), "/home/u");
    assert_eq!(expand_tilde_with("~x", &home), "~x");
    assert_eq!(expand_tilde_with("~/a", &None), "~/a");
    assert_eq!(join_path("/a/", "b"), "/a/b");
    assert_eq!(join_path("/a", "/b"), "/b");
    assert_eq!(join_path("", "b"), "b");
    assert!(same_path("/tmp//v8q-buffer/", "/tmp/v8q-buffer"));
    assert!(same_path("/tmp/./x", "/tmp/x"));
    assert!(!same_path("tmp/x", "/tmp/x"));
    assert_eq!(runtime_dir_from(&Some("/run/user/1".to_string()), &None), "/run/user/1/v8q");
    assert_eq!(runtime_dir_from(&None, &Some("1000".to_string())), "/tmp/v8q-1000");
    assert_eq!(runtime_dir_from(&None, &None), "/tmp/v8q-unknown");
    assert_eq!(state_dir(&None, &home, "/tmp"), "/home/u/.local/state/v8q");
    assert_eq!(state_dir(&Some("/s".to_string()), &home, "/tmp"), "/s/v8q");
    assert_eq!(state_dir(&None, &None, "/tmp"), "/tmp/v8q");
    assert!(path_starts_with("/home/u/Videos/V8Q/a.mkv", "/home/u/Videos/V8Q"));
    assert!(!path_starts_with("/home/u/Videos/V8Q2/a.mkv", "/home/u/Videos/V8Q"));
    assert!(path_starts_with("/a", ""));
    assert!(!path_starts_with("a/b", "/a"));
}

#[test]
fn service_file_contains_foreground() {
    assert!(service_file().contains("v8q start --foreground"));
    assert_eq!(service_path_in("/home/u/.config"), "/home/u/.config/systemd/user/v8q.service");
}

#[test]
fn detect_finds_applied_beginner_safe_preset() {
    let preset = find("beginner-safe").unwrap();
    let mut config = Config::default();
    apply(&mut config, &preset);
    assert_eq!(detect(&config), Some("beginner-safe"));
}

#[test]
fn dry_run_diff_reports_changes() {
    let preset = find("beginner-safe").unwrap();
    let config = Config::default();
    let diff = describe_diff(&config, &preset);
    assert!(diff.iter().any(|line| line.contains("recording.fps")));
    assert!(diff.iter().any(|line| line.contains("wl_screenrec.audio")));
}

#[test]
fn applying_a_preset_twice_changes_nothing_more() {
    let preset = find("wl-screenrec-nvidia-compat").unwrap();
    let mut config = Config::default();
    let diff = describe_diff(&config, &preset);
    assert!(diff.contains(&"recording.fps: 60 -> 60".to_string()) == false);
    assert!(diff.contains(&"wl_screenrec.extra_args: [] -> [\"--experimental-vulkan\"]".to_string()));
    apply(&mut config, &preset);
    assert!(describe_diff(&config, &preset).is_empty());
    let lines = explain(&config, &preset);
    assert_eq!(lines[0], "Preset: wl-screenrec-nvidia-compat");
    assert_eq!(lines[4], "Changes:");
    assert_eq!(lines[5], "- no changes from current config");
    assert_eq!(presets().len(), 8);
    assert!(find("nope").is_none());
    assert_eq!(detect(&Config::default()), Some("performance"));
}

#[test]
fn x11_command_contains_segment_wrap() {
    let mut config = Config::default();
    config.capture.as_mut().unwrap().backend = "x11".to_string();

    let command = build_record_command(&config).unwrap();
    assert!(command.contains(&"-segment_wrap".to_string()));
    assert!(command.contains(&"18".to_string()));
}

#[test]
fn custom_command_replaces_variables() {
    let mut config = Config::default();
    config.capture.as_mut().unwrap().backend = "custom".to_string();
    config.ffmpeg.custom_record_command =
        "ffmpeg -framerate {fps} -i test -segment_time {segment_seconds} {buffer_dir}/seg_%06d.mkv"
            .to_string();

    let command = build_record_command(&config).unwrap();
    assert_eq!(command[2], "60");
    assert!(command.iter().any(|arg| arg.contains("/seg_")));
}

#[test]
fn custom_command_quotes_the_buffer_dir() {
    let home = Some("/home/u".to_string());
    let mut config = Config::default();
    config.capture.as_mut().unwrap().backend = "custom".to_string();
    config.paths.buffer_dir = "~/my buf".to_string();
    config.ffmpeg.custom_record_command = "rec {buffer_dir}/seg.mkv {width}x{height}".to_string();
    assert_eq!(
        render_custom_command(&config.ffmpeg.custom_record_command, &config, &home),
        "rec '/home/u/my buf'/seg.mkv 1920x1080"
    );
    let command = build_record_command_in(&config, &home).unwrap();
    assert_eq!(command, vec!["rec".to_string(), "/home/u/my buf/seg.mkv".to_string(), "1920x1080".to_string()]);
    config.capture.as_mut().unwrap().backend = "wl-screenrec".to_string();
    assert_eq!(build_record_command_in(&config, &home).unwrap_err(), RecordCommandError::NotSegmented);
    assert_eq!(
        RecordCommandError::NotSegmented.message(&config),
        "wl-screenrec is not an FFmpeg segmented backend; use capture.start path"
    );
}

#[test]
fn x11_command_in_full() {
    let home = Some("/home/u".to_string());
    let mut config = Config::default();
    config.capture.as_mut().unwrap().backend = "x11".to_string();
    config.paths.buffer_dir = "/b".to_string();
    let command = build_record_command_in(&config, &home).unwrap();
    let tail: Vec<String> = ["-f", "segment", "-segment_time", "2", "-segment_wrap", "18", "-reset_timestamps", "1", "/b/seg_%06d.mkv"]
        .iter().map(|s| s.to_string()).collect();
    assert_eq!(&command[command.len() - 9..], &tail[..]);
    assert_eq!(command[7], "1920x1080");
}

#[test]
fn dry_run_diff_lists_recording_encoder_and_bitrate() {
    let preset = find("beginner-safe").unwrap();
    let mut config = Config::default();
    let encoder = preset.encoder.unwrap();
    let bitrate = preset.bitrate.unwrap();
    config.wl_screenrec.ffmpeg_encoder = encoder.to_string();
    config.wl_screenrec.bitrate = bitrate.to_string();
    config.recording.encoder = "h264_vaapi".to_string();
    config.recording.video_bitrate = "99M".to_string();
    let diff = describe_diff(&config, &preset);
    assert!(diff.contains(&format!("recording.encoder: h264_vaapi -> {encoder}")));
    assert!(diff.contains(&format!("recording.video_bitrate: 99M -> {bitrate}")));
    assert!(!diff.iter().any(|line| line.starts_with("wl_screenrec.ffmpeg_encoder:")));
    assert!(!diff.iter().any(|line| line.starts_with("wl_screenrec.bitrate:")));
    apply(&mut config, &preset);
    assert!(describe_diff(&config, &preset).is_empty());
}
