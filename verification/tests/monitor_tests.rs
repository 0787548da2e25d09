use v8q::monitors::{focused_output_from_hyprctl, monitor_names_from_hyprctl_json};

#[test]
fn parses_hyprctl_monitor_names() {
    let names = monitor_names_from_hyprctl_json(
        r#"[
  {"name": "HDMI-A-1"},
  {"name": "DP-1"}
]"#,
    );
    assert_eq!(names, vec!["HDMI-A-1", "DP-1"]);
}

#[test]
fn monitor_names_skip_unnamed_and_unreadable() {
    assert_eq!(monitor_names_from_hyprctl_json(r#"[{"id": 1}, {"name": "DP-2"}, {"name": 3}]"#), vec!["DP-2"]);
    assert!(monitor_names_from_hyprctl_json("not json").is_empty());
    assert!(monitor_names_from_hyprctl_json(r#"{"name": "DP-1"}"#).is_empty());
}

#[test]
fn focused_monitor_is_chosen() {
    let text = r#"[{"name": "DP-1", "focused": false}, {"name": "HDMI-A-1", "focused": true}]"#;
    assert_eq!(focused_output_from_hyprctl(text), Some("HDMI-A-1".to_string()));
}

#[test]
fn first_monitor_when_none_is_focused() {
    let text = r#"[{"name": "DP-1"}, {"name": "HDMI-A-1", "focused": "yes"}]"#;
    assert_eq!(focused_output_from_hyprctl(text), Some("DP-1".to_string()));
    assert_eq!(focused_output_from_hyprctl("[]"), None);
    assert_eq!(focused_output_from_hyprctl("garbage"), None);
    assert_eq!(focused_output_from_hyprctl(r#"[{"focused": true}, {"name": "DP-1"}]"#), None);
}

#[test]
fn doctor_warns_about_several_monitors() {
    let mut config = v8q::Config::default();
    config.wl_screenrec.auto_select_focused_output = false;
    let text = Some(r#"[{"name": "HDMI-A-1"}, {"name": "DP-1"}]"#.to_string());
    let check = v8q::doctor::check_wl_screenrec_output_selection(&config, &text);
    assert_eq!(check.status, v8q::DoctorCheckStatus::Warn);
    assert_eq!(check.message, "multiple enabled displays detected and wl_screenrec.output is empty");
    assert_eq!(
        check.hint,
        Some("wl-screenrec may exit before recording. Set `[wl_screenrec] output = \"HDMI-A-1\"` or another output from: HDMI-A-1, DP-1".to_string())
    );
    let one = Some(r#"[{"name": "HDMI-A-1"}]"#.to_string());
    let check = v8q::doctor::check_wl_screenrec_output_selection(&config, &one);
    assert_eq!(check.status, v8q::DoctorCheckStatus::Pass);
}
