use wakatime_focusd::backend::hyprland::{parse_event_line, FocusState, HyprlandEvent};

#[test]
fn hyprland_test_parse_activewindow_simple() {
    let line = "activewindow>>firefox,Mozilla Firefox";
    match parse_event_line(line) {
        HyprlandEvent::ActiveWindow { class, title } => {
            assert_eq!(class, "firefox");
            assert_eq!(title, "Mozilla Firefox");
        }
        _ => panic!("Expected ActiveWindow event"),
    }
}

#[test]
fn hyprland_test_parse_activewindow_comma_in_title() {
    let line = "activewindow>>code,main.rs - wakatime-focusd, Pair Programming";
    match parse_event_line(line) {
        HyprlandEvent::ActiveWindow { class, title } => {
            assert_eq!(class, "code");
            assert_eq!(title, "main.rs - wakatime-focusd, Pair Programming");
        }
        _ => panic!("Expected ActiveWindow event"),
    }
}

#[test]
fn hyprland_test_parse_activewindow_no_title() {
    let line = "activewindow>>kitty,";
    match parse_event_line(line) {
        HyprlandEvent::ActiveWindow { class, title } => {
            assert_eq!(class, "kitty");
            assert_eq!(title, "");
        }
        _ => panic!("Expected ActiveWindow event"),
    }
}

#[test]
fn hyprland_test_parse_activewindow_no_comma() {
    let line = "activewindow>>dmenu";
    match parse_event_line(line) {
        HyprlandEvent::ActiveWindow { class, title } => {
            assert_eq!(class, "dmenu");
            assert_eq!(title, "");
        }
        _ => panic!("Expected ActiveWindow event"),
    }
}

#[test]
fn hyprland_test_parse_activewindow_empty() {
    let line = "activewindow>>,";
    match parse_event_line(line) {
        HyprlandEvent::ActiveWindow { class, title } => {
            assert_eq!(class, "");
            assert_eq!(title, "");
        }
        _ => panic!("Expected ActiveWindow event"),
    }
}

#[test]
fn hyprland_test_parse_activewindowv2() {
    let line = "activewindowv2>>0x55a1b2c3d4e5";
    match parse_event_line(line) {
        HyprlandEvent::ActiveWindowV2 { address } => {
            assert_eq!(address, "0x55a1b2c3d4e5");
        }
        _ => panic!("Expected ActiveWindowV2 event"),
    }
}

#[test]
fn hyprland_test_parse_activewindowv2_empty() {
    let line = "activewindowv2>>";
    match parse_event_line(line) {
        HyprlandEvent::ActiveWindowV2 { address } => {
            assert_eq!(address, "");
        }
        _ => panic!("Expected ActiveWindowV2 event"),
    }
}

#[test]
fn hyprland_test_parse_other_events() {
    assert!(matches!(parse_event_line("workspace>>1"), HyprlandEvent::Other));
    assert!(matches!(
        parse_event_line("openwindow>>0x123,1,kitty,kitty"),
        HyprlandEvent::Other
    ));
    assert!(matches!(parse_event_line("closewindow>>0x123"), HyprlandEvent::Other));
}

#[test]
fn hyprland_test_parse_malformed_line() {
    assert!(matches!(parse_event_line("no separator"), HyprlandEvent::Other));
    assert!(matches!(parse_event_line(""), HyprlandEvent::Other));
}

#[test]
fn hyprland_test_parse_with_trailing_newline() {
    let line = "activewindow>>firefox,Title\n";
    match parse_event_line(line) {
        HyprlandEvent::ActiveWindow { class, title } => {
            assert_eq!(class, "firefox");
            assert_eq!(title, "Title");
        }
        _ => panic!("Expected ActiveWindow event"),
    }
}

#[test]
fn hyprland_test_focus_state_activewindow() {
    let mut state = FocusState::default();

    let event = HyprlandEvent::ActiveWindow {
        class: "firefox".to_string(),
        title: "Mozilla Firefox".to_string(),
    };

    let focus = state.update(event).expect("Should produce focus event");
    assert_eq!(focus.app_class, "firefox");
    assert_eq!(focus.title, Some("Mozilla Firefox".to_string()));
}

#[test]
fn hyprland_test_focus_state_empty_class() {
    let mut state = FocusState::default();

    let event = HyprlandEvent::ActiveWindow {
        class: "".to_string(),
        title: "".to_string(),
    };

    assert!(
        state.update(event).is_none(),
        "Empty class should not produce event"
    );
}

#[test]
fn hyprland_test_focus_state_v2_updates_address() {
    let mut state = FocusState::default();

    let v2_event = HyprlandEvent::ActiveWindowV2 {
        address: "0xabc123".to_string(),
    };
    assert!(state.update(v2_event).is_none());

    let event = HyprlandEvent::ActiveWindow {
        class: "code".to_string(),
        title: "main.rs".to_string(),
    };
    let focus = state.update(event).expect("Should produce focus event");
    assert_eq!(focus.window_id, Some("0xabc123".to_string()));
}
