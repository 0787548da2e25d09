use v8q::config::Config;
use v8q::window::{select_window, with_selected_window, without_capture_window, WindowError, WindowInfo};

fn clients() -> Vec<WindowInfo> {
    vec![
        WindowInfo {
            title: "Mozilla Firefox".to_string(),
            class: "firefox".to_string(),
            app_id: "firefox".to_string(),
            workspace: "1".to_string(),
            pid: Some(1234),
            address: "0xabc".to_string(),
            x: 1366,
            y: 0,
            width: 1920,
            height: 1080,
        },
        WindowInfo {
            title: "Steam".to_string(),
            class: "steam".to_string(),
            app_id: "steam".to_string(),
            workspace: "2".to_string(),
            pid: Some(2345),
            address: "0xdef".to_string(),
            x: 0,
            y: 0,
            width: 1366,
            height: 768,
        },
    ]
}

#[test]
fn selects_window_by_title() {
    let windows = clients();
    let selected = select_window(&windows, Some("Firefox"), None, None).unwrap();
    assert_eq!(selected.class, "firefox");
}

#[test]
fn selects_window_by_class() {
    let windows = clients();
    let selected = select_window(&windows, None, Some("steam"), None).unwrap();
    assert_eq!(selected.title, "Steam");
}

#[test]
fn select_window_errors_when_none_match() {
    let windows = clients();
    assert!(select_window(&windows, Some("missing"), None, None).is_err());
}

#[test]
fn select_window_errors_when_multiple_match() {
    let windows = clients();
    assert!(select_window(&windows, None, None, None).is_err());
}

#[test]
fn selection_errors_say_why() {
    let windows = clients();
    let e = select_window(&windows, Some("missing"), None, None).unwrap_err();
    assert!(matches!(e, WindowError::NoMatch));
    let e = select_window(&windows, None, None, None).unwrap_err();
    match e {
        WindowError::Ambiguous(found) => assert_eq!(found.len(), 2),
        _ => panic!("expected an ambiguous selection"),
    }
    assert_eq!(windows[0].geometry(), "1366,0 1920x1080");
    let selected = select_window(&windows, None, None, Some("STEAM")).unwrap();
    assert_eq!(selected.address, "0xdef");
}

#[test]
fn selecting_and_clearing_a_window_updates_the_config() {
    let windows = clients();
    let config = Config::default();
    let next = with_selected_window(config, &windows[0], true);
    let w = next.effective_capture_window();
    assert!(w.enabled);
    assert!(w.follow);
    assert_eq!(w.geometry, "1366,0 1920x1080");
    assert_eq!(next.wl_screenrec.capture_mode, "geometry");
    let cleared = without_capture_window(next);
    let w = cleared.effective_capture_window();
    assert!(!w.enabled);
    assert_eq!(w.geometry, "");
    assert_eq!(cleared.wl_screenrec.capture_mode, "output");
    assert_eq!(cleared.wl_screenrec.geometry, "");
}
