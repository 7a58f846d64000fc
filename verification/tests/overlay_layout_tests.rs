use osuwapp::models::OverlaySettings;
use osuwapp::overlay::geometry::{
    in_rect, overlap_terms, rect_covers_monitor, saturating_add, saturating_sub, stepper_click, Rect,
};
use osuwapp::overlay::panels::{
    apply_editor_click, apply_overlay_drag, bounds_in_range, editor_panel_origin,
    editor_surface_layout, element_visible, hit_test_in_range, hit_test_overlay_element,
    origin_in_range, overlay_bounds, replace_element, surface_in_range,
    selected_element_label, selected_element_settings, set_overlay_element_position, DragMode,
    DragOrigin, EditorSurfaceLayout, OverlayElement, OverlayElementSettings, OverlayPanels,
};

fn panel(enabled: bool, x: i32, y: i32, width: u32, height: u32) -> OverlayElementSettings {
    OverlayElementSettings { enabled, show_background: true, x, y, width, height }
}

fn hidden_panels() -> OverlayPanels {
    OverlayPanels {
        pp_panel: panel(false, 0, 0, 10, 10),
        stats_panel: panel(false, 0, 0, 10, 10),
        hits_panel: panel(false, 0, 0, 10, 10),
        map_panel: panel(false, 0, 0, 10, 10),
    }
}

fn pp_above_hud() -> OverlayPanels {
    OverlayPanels { pp_panel: panel(true, 0, -40, 200, 30), ..hidden_panels() }
}

#[test]
fn rect_sizes_and_validity() {
    let r = Rect { left: 10, top: 20, right: 110, bottom: 70 };
    assert_eq!(r.width(), 100);
    assert_eq!(r.height(), 50);
    assert!(r.is_valid());
    assert!(!Rect { left: 5, top: 0, right: 5, bottom: 10 }.is_valid());
}

#[test]
fn fullscreen_detection_allows_a_small_tolerance() {
    let monitor = Rect { left: 0, top: 0, right: 1920, bottom: 1080 };
    assert!(rect_covers_monitor(&Rect { left: -1, top: 0, right: 1921, bottom: 1079 }, &monitor, 2));
    assert!(!rect_covers_monitor(&Rect { left: 0, top: 0, right: 1280, bottom: 720 }, &monitor, 2));
}

#[test]
fn saturating_arithmetic() {
    assert_eq!(saturating_add(i32::MAX, 1), i32::MAX);
    assert_eq!(saturating_sub(i32::MIN, 1), i32::MIN);
    assert_eq!(saturating_add(-5, 3), -2);
}

#[test]
fn overlap_terms_of_half_a_monitor() {
    let monitor = Rect { left: 0, top: 0, right: 1920, bottom: 1080 };
    let half = Rect { left: 960, top: 0, right: 2880, bottom: 1080 };
    assert_eq!(overlap_terms(&half, &monitor), (960, 1080, 1920, 1080));
    let outside = Rect { left: 3000, top: 0, right: 4000, bottom: 100 };
    assert_eq!(overlap_terms(&outside, &monitor), (0, 100, 1920, 1080));
}

#[test]
fn points_in_boxes_and_steppers() {
    assert!(in_rect(10, 10, 10, 10, 5, 5));
    assert!(!in_rect(15, 10, 10, 10, 5, 5));
    assert_eq!(stepper_click(15, 35, 10, 10), Some(-1));
    assert_eq!(stepper_click(140, 35, 10, 10), Some(1));
    assert_eq!(stepper_click(80, 35, 10, 10), None);
}

#[test]
fn element_visibility_follows_settings() {
    let mut s = OverlaySettings::default();
    assert!(element_visible(&s, OverlayElement::Stats));
    s.show_if_fc = false;
    s.show_accuracy = false;
    s.show_combo = false;
    assert!(element_visible(&s, OverlayElement::Stats));
    s.show_mods = false;
    assert!(!element_visible(&s, OverlayElement::Stats));
    s.show_map = false;
    assert!(!element_visible(&s, OverlayElement::Beatmap));
    assert!(element_visible(&s, OverlayElement::Whole));
}

#[test]
fn element_settings_and_labels() {
    let mut p = pp_above_hud();
    assert_eq!(selected_element_settings(&p, OverlayElement::Whole), p.pp_panel);
    assert_eq!(selected_element_label(OverlayElement::Beatmap), "Map");
    assert_eq!(selected_element_label(OverlayElement::Whole), "Overlay");
    replace_element(&mut p, OverlayElement::Hits, panel(true, 1, 2, 3, 4));
    assert_eq!(p.hits_panel, panel(true, 1, 2, 3, 4));
}

#[test]
fn bounds_grow_to_drawn_panels() {
    let s = OverlaySettings::default();
    assert_eq!(overlay_bounds(&s, &hidden_panels()), (24, 24, 420, 248));
    assert_eq!(overlay_bounds(&s, &pp_above_hud()), (24, -16, 420, 288));
    let mut off = s.clone();
    off.show_pp = false;
    assert_eq!(overlay_bounds(&off, &pp_above_hud()), (24, 24, 420, 248));
}

#[test]
fn hit_test_finds_panels_then_the_hud() {
    let s = OverlaySettings::default();
    let p = pp_above_hud();
    assert_eq!(
        hit_test_overlay_element(&s, &p, 30, -10),
        Some((OverlayElement::Pp, DragMode::Move, 0, -40, 200, 30))
    );
    assert_eq!(
        hit_test_overlay_element(&s, &p, 220, -10),
        Some((OverlayElement::Pp, DragMode::Resize, 0, -40, 200, 30))
    );
    assert_eq!(
        hit_test_overlay_element(&s, &p, 100, 100),
        Some((OverlayElement::Whole, DragMode::Move, 24, 24, 420, 248))
    );
    assert_eq!(hit_test_overlay_element(&s, &p, 0, 0), None);
}

#[test]
fn moving_and_resizing_elements() {
    let mut s = OverlaySettings::default();
    let mut p = pp_above_hud();
    set_overlay_element_position(&mut s, &mut p, OverlayElement::Whole, 50, 60);
    assert_eq!((s.offset_x, s.offset_y), (50, 60));
    set_overlay_element_position(&mut s, &mut p, OverlayElement::Pp, 5, 6);
    assert_eq!((p.pp_panel.x, p.pp_panel.y), (5, 6));
    assert_eq!((s.offset_x, s.offset_y), (50, 60));

    let drag = DragOrigin {
        element: OverlayElement::Pp,
        mode: DragMode::Resize,
        cursor_x: 0,
        cursor_y: 0,
        offset_x: 5,
        offset_y: 6,
        width: 200,
        height: 30,
    };
    apply_overlay_drag(&mut s, &mut p, drag, 10, 5, 0, 0);
    assert_eq!((p.pp_panel.width, p.pp_panel.height), (210, 35));
    apply_overlay_drag(&mut s, &mut p, drag, -190, -25, 0, 0);
    assert_eq!((p.pp_panel.width, p.pp_panel.height), (24, 14));
    assert_eq!((p.pp_panel.x, p.pp_panel.y), (5, 6));
}

#[test]
fn editor_bar_clicks() {
    let mut s = OverlaySettings::default();
    let mut p = OverlayPanels {
        stats_panel: panel(true, 0, 0, 100, 100),
        ..hidden_panels()
    };
    let mut selected = OverlayElement::Pp;
    assert!(apply_editor_click(&mut s, &mut p, &mut selected, 220, 20));
    assert_eq!(selected, OverlayElement::Stats);
    assert!(p.stats_panel.enabled && s.show_accuracy);
    assert!(apply_editor_click(&mut s, &mut p, &mut selected, 220, 20));
    assert!(!p.stats_panel.enabled);
    assert!(!s.show_if_fc && !s.show_accuracy && !s.show_combo && !s.show_mods);
    assert!(apply_editor_click(&mut s, &mut p, &mut selected, 470, 20));
    assert!(!p.stats_panel.show_background);
    assert!(apply_editor_click(&mut s, &mut p, &mut selected, 520, 20));
    assert!(!s.enabled);
    assert!(!apply_editor_click(&mut s, &mut p, &mut selected, 0, 0));
    assert!(!s.enabled);
}

#[test]
fn clicking_a_selected_tab_twice_restores_it() {
    let mut s = OverlaySettings::default();
    let original = s.clone();
    let mut p = OverlayPanels { hits_panel: panel(true, 0, 0, 10, 10), ..hidden_panels() };
    let mut selected = OverlayElement::Hits;
    apply_editor_click(&mut s, &mut p, &mut selected, 300, 20);
    assert!(!s.show_hits && !p.hits_panel.enabled);
    apply_editor_click(&mut s, &mut p, &mut selected, 300, 20);
    assert!(s.show_hits && p.hits_panel.enabled);
    assert_eq!(s.show_pp, original.show_pp);
}

#[test]
fn editor_bar_is_centred_near_the_bottom() {
    assert_eq!(editor_panel_origin(None), (300, 620));
    assert_eq!(editor_panel_origin(Some((1920, 1080))), (620, 980));
    assert_eq!(editor_panel_origin(Some((600, 50))), (0, 0));
}

#[test]
fn editor_surface_holds_hud_and_bar() {
    let s = OverlaySettings::default();
    assert_eq!(
        editor_surface_layout(&s, &hidden_panels(), Some((1280, 720))),
        EditorSurfaceLayout { x: 8, y: 8, width: 988, height: 704 }
    );
}

#[test]
fn range_checks_guard_the_layout_arithmetic() {
    let s = OverlaySettings::default();
    assert!(bounds_in_range(&s, &pp_above_hud()));
    assert!(surface_in_range(&s, &pp_above_hud(), Some((1280, 720))));
    assert!(hit_test_in_range(&s, &pp_above_hud(), 30, -10));
    assert!(origin_in_range(None));
    let mut far = s.clone();
    far.offset_x = i32::MAX;
    assert!(!bounds_in_range(&far, &hidden_panels()));
    assert!(!surface_in_range(&far, &hidden_panels(), None));
    assert!(!hit_test_in_range(&far, &hidden_panels(), 0, 0));
    let wide_panel = OverlayPanels { pp_panel: panel(true, i32::MAX - 24, 0, 10, 10), ..hidden_panels() };
    assert!(!bounds_in_range(&s, &wide_panel));
}
