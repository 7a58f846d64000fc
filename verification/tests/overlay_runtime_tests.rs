use osuwapp::models::OverlaySettings;
use osuwapp::overlay::editor::IngameOverlay;
use osuwapp::overlay::geometry::{OsuWindowTarget, Rect};
use osuwapp::overlay::keys::{key_press_edge, virtual_key_from_binding, VK_INSERT};
use osuwapp::overlay::runtime::{
    after_web_sync, capture_window_placement, classify_runtime_message, runtime_message_of, RuntimeMessage, editor_window_placement, hotkey_key_to_poll,
    ingame_gate, ingame_retry_at, plan_legacy, plan_overlay_window, AfterWebSync, IngameGate,
    LegacyPlan, WebOverlayState, WebSyncStep, WindowPlan,
};

fn target(fullscreen: bool, foreground: bool, minimized: bool) -> OsuWindowTarget {
    OsuWindowTarget {
        pid: 42,
        rect: Rect { left: 100, top: 50, right: 900, bottom: 650 },
        monitor_rect: Rect { left: 0, top: 0, right: 1920, bottom: 1080 },
        is_minimized: minimized,
        is_foreground: foreground,
        is_fullscreen_surface: fullscreen,
    }
}

#[test]
fn key_bindings_are_read_case_insensitively() {
    assert_eq!(virtual_key_from_binding("Insert"), Some(VK_INSERT));
    assert_eq!(virtual_key_from_binding("  ins "), Some(0x2D));
    assert_eq!(virtual_key_from_binding("f12"), Some(0x7B));
    assert_eq!(virtual_key_from_binding("PgDn"), Some(0x22));
    assert_eq!(virtual_key_from_binding("page up"), Some(0x21));
    assert_eq!(virtual_key_from_binding("a"), Some(65));
    assert_eq!(virtual_key_from_binding("7"), Some(55));
    assert_eq!(virtual_key_from_binding(""), None);
    assert_eq!(virtual_key_from_binding("ab"), None);
    assert_eq!(virtual_key_from_binding("é"), None);
    assert_eq!(virtual_key_from_binding("F13"), None);
}

#[test]
fn key_presses_are_edges() {
    assert_eq!(key_press_edge(false, true), (true, true));
    assert_eq!(key_press_edge(true, true), (false, true));
    assert_eq!(key_press_edge(true, false), (false, false));
}

#[test]
fn web_overlay_starts_then_sends() {
    let mut w = WebOverlayState::new();
    assert!(!w.is_running());
    assert_eq!(w.begin_sync(0, 7, false, false, false), WebSyncStep::Spawn);
    w.spawn_finished(7, true, 1_000);
    assert!(w.is_running());
    assert_eq!(w.begin_sync(2_000, 7, false, false, false), WebSyncStep::Send);
}

#[test]
fn web_overlay_fails_over_and_retries_later() {
    let mut w = WebOverlayState::new();
    w.begin_sync(0, 7, false, false, false);
    w.spawn_finished(7, true, 1_000);
    assert!(!w.failed(9_000, false, false));
    assert!(w.failed(9_001, false, false));
    assert!(!w.failed(9_001, false, true));
    assert_eq!(w.begin_sync(10_000, 7, false, false, false), WebSyncStep::Skip { stop_process: true });
    assert!(!w.is_running());
    assert_eq!(w.failed_until_ms, Some(25_000));
    assert!(w.failed_or_in_cooldown(20_000, false, false));
    assert_eq!(w.begin_sync(20_000, 7, false, false, false), WebSyncStep::Skip { stop_process: false });
    assert_eq!(w.begin_sync(25_000, 7, false, false, false), WebSyncStep::Spawn);
}

#[test]
fn reported_failure_or_exit_stops_the_runtime() {
    let mut w = WebOverlayState::new();
    w.spawn_finished(7, true, 0);
    assert_eq!(w.begin_sync(1, 7, true, false, false), WebSyncStep::Skip { stop_process: true });
    let mut x = WebOverlayState::new();
    x.spawn_finished(7, true, 0);
    assert_eq!(x.begin_sync(1, 7, false, true, true), WebSyncStep::Skip { stop_process: true });
}

#[test]
fn failed_start_disables_the_web_overlay_for_that_process() {
    let mut w = WebOverlayState::new();
    w.spawn_finished(9, false, 0);
    assert_eq!(w.disabled_pid, Some(9));
    assert!(w.failed_or_in_cooldown(0, false, false));
    assert_eq!(w.begin_sync(100, 9, false, false, false), WebSyncStep::Skip { stop_process: false });
    assert_eq!(w.begin_sync(100, 10, false, false, false), WebSyncStep::Spawn);
    assert_eq!(w.disabled_pid, None);
}

#[test]
fn web_editor_toggles_and_reset_clears() {
    let mut w = WebOverlayState::new();
    assert!(w.toggle_editor());
    assert!(!w.toggle_editor());
    w.spawn_finished(3, false, 0);
    w.reset();
    assert_eq!(w, WebOverlayState::new());
}

#[test]
fn ingame_gate_decisions() {
    let mut s = OverlaySettings::default();
    let mut o = IngameOverlay::new();
    assert_eq!(ingame_gate(&s, Some(100), 50, &o, 42), IngameGate::Wait);
    assert_eq!(ingame_gate(&s, Some(100), 100, &o, 42), IngameGate::Attach);
    o.attached(42);
    assert_eq!(ingame_gate(&s, None, 0, &o, 42), IngameGate::Ready);
    s.enabled = false;
    assert_eq!(ingame_gate(&s, None, 0, &o, 42), IngameGate::Reset);
    assert_eq!(ingame_retry_at(100), 850);
    assert_eq!(ingame_retry_at(u64::MAX), u64::MAX);
}

#[test]
fn window_plans() {
    let t = target(false, true, false);
    assert_eq!(plan_overlay_window(false, false, Some(t), false, true, true), WindowPlan::StopAll);
    assert_eq!(plan_overlay_window(true, true, Some(t), false, true, true), WindowPlan::StopAll);
    assert_eq!(plan_overlay_window(true, false, None, true, true, true), WindowPlan::StopAllAndOpenSettings);
    assert_eq!(plan_overlay_window(true, false, None, false, true, true), WindowPlan::StopAll);
    assert_eq!(
        plan_overlay_window(true, false, Some(target(false, true, true)), false, true, true),
        WindowPlan::StopAll
    );
    assert_eq!(plan_overlay_window(true, false, Some(t), false, false, true), WindowPlan::HideOnly);
    assert_eq!(
        plan_overlay_window(true, false, Some(target(true, true, false)), false, true, true),
        WindowPlan::Legacy { stop_web: true }
    );
    assert_eq!(plan_overlay_window(true, false, Some(t), false, true, false), WindowPlan::Legacy { stop_web: false });
    assert_eq!(plan_overlay_window(true, false, Some(t), false, true, true), WindowPlan::Web);
}

#[test]
fn after_web_sync_and_legacy_plans() {
    assert_eq!(after_web_sync(true, true), AfterWebSync::Legacy);
    assert_eq!(after_web_sync(false, true), AfterWebSync::StopIngame);
    assert_eq!(after_web_sync(false, false), AfterWebSync::Nothing);
    assert_eq!(plan_legacy(&target(true, false, false), false), LegacyPlan::HideAndStopIngame);
    assert_eq!(plan_legacy(&target(true, true, false), true), LegacyPlan::Ingame);
    assert_eq!(plan_legacy(&target(false, true, false), true), LegacyPlan::Window { open_editor: true });
}

#[test]
fn window_placements() {
    let s = OverlaySettings::default();
    assert_eq!(capture_window_placement(&target(false, true, false), &s), (124, 74, 420, 248));
    assert_eq!(editor_window_placement(&target(false, true, false)), (100, 50, 800, 600, false));
    assert_eq!(editor_window_placement(&target(true, true, false)), (0, 0, 1920, 1080, true));
    let mut small = target(false, true, false);
    small.rect = Rect { left: 0, top: 0, right: 300, bottom: 200 };
    assert_eq!(editor_window_placement(&small), (0, 0, 640, 420, false));
}

#[test]
fn hotkey_is_polled_only_in_front() {
    let s = OverlaySettings::default();
    assert_eq!(hotkey_key_to_poll(Some(target(false, true, false)), &s), Some(VK_INSERT));
    assert_eq!(hotkey_key_to_poll(Some(target(false, false, false)), &s), None);
    assert_eq!(hotkey_key_to_poll(None, &s), None);
}

#[test]
fn runtime_messages_are_classified() {
    assert_eq!(classify_runtime_message(Some("added")), RuntimeMessage::Added);
    assert_eq!(classify_runtime_message(Some("paint")), RuntimeMessage::Paint);
    assert_eq!(classify_runtime_message(Some("settings")), RuntimeMessage::Settings);
    assert_eq!(classify_runtime_message(Some("other")), RuntimeMessage::Other);
    assert_eq!(classify_runtime_message(None), RuntimeMessage::Other);
    assert!(classify_runtime_message(Some("disconnected")).marks_failure());
    assert!(!classify_runtime_message(Some("disconnected")).is_logged());
    assert!(classify_runtime_message(Some("error")).marks_failure());
    assert!(classify_runtime_message(Some("error")).is_logged());
    assert!(classify_runtime_message(Some("ready")).is_logged());
    assert!(!classify_runtime_message(Some("ready")).marks_failure());
}

#[test]
fn runtime_lines_are_read_by_their_type() {
    assert_eq!(runtime_message_of(r#"{"type":"paint","frame":3}"#), RuntimeMessage::Paint);
    assert_eq!(runtime_message_of(r#"{"type":"settings","settings":{}}"#), RuntimeMessage::Settings);
    assert_eq!(runtime_message_of(r#"{"type":7}"#), RuntimeMessage::Other);
    assert_eq!(runtime_message_of("not json"), RuntimeMessage::Other);
    assert_eq!(runtime_message_of(r#"{"kind":"paint"}"#), RuntimeMessage::Other);
}
