use framer::label::{
    control_window_label, is_control_label, labels_equal, main_window_label,
};
use framer::policy::{close_propagation, Action, WindowEventKind};
use framer::registry::{on_window_event, WindowRegistry};

fn registry_with(labels: &[&str]) -> WindowRegistry {
    let mut r = WindowRegistry::new();
    for l in labels {
        assert!(r.open_window(l));
    }
    r
}

#[test]
fn control_close_closes_main_when_both_open() {
    let mut r = registry_with(&["main", "control"]);
    let a = on_window_event(&mut r, "control", WindowEventKind::CloseRequested);
    assert_eq!(a, Action::CloseMain);
    assert!(!r.contains("main"));
    // the control window's own close is left to default handling
    assert!(r.contains("control"));
}

#[test]
fn control_close_with_main_already_closed_does_nothing() {
    let mut r = registry_with(&["control"]);
    let a = on_window_event(&mut r, "control", WindowEventKind::CloseRequested);
    assert_eq!(a, Action::Pass);
    assert!(r.contains("control"));
    assert!(!r.contains("main"));
}

#[test]
fn close_of_unrelated_window_takes_no_action() {
    let mut r = registry_with(&["main", "control", "settings"]);
    let a = on_window_event(&mut r, "settings", WindowEventKind::CloseRequested);
    assert_eq!(a, Action::Pass);
    assert!(r.contains("main"));
    assert!(r.contains("control"));
    assert!(r.contains("settings"));
}

#[test]
fn events_on_main_window_take_no_action() {
    let mut r = registry_with(&["main", "control"]);
    for e in [
        WindowEventKind::CloseRequested,
        WindowEventKind::Destroyed,
        WindowEventKind::Focused,
        WindowEventKind::Moved,
        WindowEventKind::Resized,
        WindowEventKind::Other,
    ] {
        assert_eq!(on_window_event(&mut r, "main", e), Action::Pass);
    }
    assert!(r.contains("main"));
    assert!(r.contains("control"));
}

#[test]
fn other_events_on_control_window_take_no_action() {
    let mut r = registry_with(&["main", "control"]);
    for e in [
        WindowEventKind::Destroyed,
        WindowEventKind::Focused,
        WindowEventKind::Moved,
        WindowEventKind::Resized,
        WindowEventKind::Other,
    ] {
        assert_eq!(on_window_event(&mut r, "control", e), Action::Pass);
    }
    assert!(r.contains("main"));
}

#[test]
fn second_close_request_on_control_is_a_no_op() {
    let mut r = registry_with(&["main", "control"]);
    let first = on_window_event(&mut r, "control", WindowEventKind::CloseRequested);
    let second = on_window_event(&mut r, "control", WindowEventKind::CloseRequested);
    assert_eq!(first, Action::CloseMain);
    assert_eq!(second, Action::Pass);
    assert!(!r.contains("main"));
    assert!(r.contains("control"));
}

#[test]
fn callback_never_fails_on_empty_registry() {
    let mut r = WindowRegistry::new();
    let a = on_window_event(&mut r, "control", WindowEventKind::CloseRequested);
    assert_eq!(a, Action::Pass);
    let b = on_window_event(&mut r, "", WindowEventKind::Other);
    assert_eq!(b, Action::Pass);
}

#[test]
fn policy_decides_from_label_event_and_presence() {
    assert_eq!(close_propagation("control", WindowEventKind::CloseRequested, true), Action::CloseMain);
    assert_eq!(close_propagation("control", WindowEventKind::CloseRequested, false), Action::Pass);
    assert_eq!(close_propagation("control", WindowEventKind::Moved, true), Action::Pass);
    assert_eq!(close_propagation("settings", WindowEventKind::CloseRequested, true), Action::Pass);
    assert_eq!(close_propagation("Control", WindowEventKind::CloseRequested, true), Action::Pass);
    assert_eq!(close_propagation("controls", WindowEventKind::CloseRequested, true), Action::Pass);
    assert_eq!(close_propagation("contro", WindowEventKind::CloseRequested, true), Action::Pass);
}

#[test]
fn labels_compare_by_characters() {
    assert!(labels_equal("main", "main"));
    assert!(!labels_equal("main", "mains"));
    assert!(!labels_equal("main", "maim"));
    assert!(labels_equal("", ""));
    assert!(labels_equal("fenêtre", "fenêtre"));
    assert!(!labels_equal("fenêtre", "fenetre"));
    assert!(is_control_label("control"));
    assert!(!is_control_label("main"));
    assert_eq!(main_window_label(), "main");
    assert_eq!(control_window_label(), "control");
}

#[test]
fn registry_keeps_labels_unique() {
    let mut r = WindowRegistry::new();
    assert!(r.open_window("main"));
    assert!(!r.open_window("main"));
    assert!(r.request_close("main"));
    assert!(!r.contains("main"));
    assert!(!r.request_close("main"));
    assert!(r.open_window("main"));
    assert!(r.contains("main"));
}

#[test]
fn closing_one_window_keeps_the_others() {
    let mut r = registry_with(&["a", "main", "b"]);
    assert!(r.request_close("main"));
    assert!(r.contains("a"));
    assert!(r.contains("b"));
    assert!(!r.contains("main"));
    assert!(!r.request_close("c"));
    assert!(r.contains("a"));
    assert!(r.contains("b"));
}
