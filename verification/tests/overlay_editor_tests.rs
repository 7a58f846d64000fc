use osuwapp::models::OverlaySettings;
use osuwapp::overlay::editor::{
    coalesce_inputs, editing_field_key, mode_in_range, EditedSettings, editor_value_field_at, editor_value_text, CursorEvent,
    EditorField, EditorInput, IngameOverlay, SurfaceMode, KEY_BACKSPACE, KEY_ESCAPE, KEY_RETURN,
};
use osuwapp::overlay::panels::{OverlayElement, OverlayElementSettings, OverlayPanels};

fn panel(enabled: bool) -> OverlayElementSettings {
    OverlayElementSettings { enabled, show_background: true, x: 0, y: 0, width: 10, height: 10 }
}

fn hidden_panels() -> OverlayPanels {
    OverlayPanels { pp_panel: panel(false), stats_panel: panel(false), hits_panel: panel(false), map_panel: panel(false) }
}

fn key(code: u8) -> EditorInput {
    EditorInput::Key { code, pressed: true }
}

fn cursor(x: i32, y: i32, local_x: i32, local_y: i32, event: CursorEvent) -> EditorInput {
    EditorInput::Cursor { x, y, local_x, local_y, event }
}

fn open_editor() -> IngameOverlay {
    let settings = OverlaySettings::default();
    let panels = hidden_panels();
    let mut o = IngameOverlay::new();
    o.attached(42);
    o.toggle_editor(&settings, &panels);
    o.window_resized(1, 1280, 720, &settings, &panels);
    o
}

#[test]
fn attach_and_reset() {
    let mut o = IngameOverlay::new();
    assert!(o.needs_attach(7));
    o.attached(7);
    assert!(!o.needs_attach(7));
    assert!(o.needs_attach(8));
    o.reset();
    assert_eq!(o.pid, None);
}

#[test]
fn opening_the_editor_blocks_input_once() {
    let settings = OverlaySettings::default();
    let mut o = IngameOverlay::new();
    o.toggle_editor(&settings, &hidden_panels());
    assert!(o.editor_active);
    assert_eq!(o.selected_element, OverlayElement::Pp);
    assert_eq!(o.input_blocking_change(), Some(true));
    assert_eq!(o.input_blocking_change(), None);
    o.handle_editor_input(key(KEY_ESCAPE));
    assert!(!o.editor_active);
    assert!(o.editor_settings.is_none());
    assert_eq!(o.input_blocking_change(), Some(false));
}

#[test]
fn resized_window_places_the_editor_surface() {
    let o = open_editor();
    assert_eq!(o.window_id, Some(1));
    assert_eq!(o.surface_mode, SurfaceMode::Editor { x: 8, y: 8 });
    assert_eq!(o.editor_surface_origin, (8, 8));
}

#[test]
fn hud_surface_follows_the_bounds() {
    let settings = OverlaySettings::default();
    let mut o = IngameOverlay::new();
    let mode = o.window_resized(3, 1280, 720, &settings, &hidden_panels());
    assert_eq!(mode, SurfaceMode::Hud { x: 24, y: 24 });
    assert_eq!(o.update_surface_mode(&settings, &hidden_panels()), None);
    let mut moved = settings.clone();
    moved.offset_x = 40;
    assert_eq!(o.update_surface_mode(&moved, &hidden_panels()), Some(SurfaceMode::Hud { x: 40, y: 24 }));
}

#[test]
fn typing_a_value_commits_with_a_decimal_point() {
    let mut o = open_editor();
    o.editing_field = Some(EditorField::X);
    for c in ['1', ',', '5', 'a'] {
        assert!(o.handle_editor_input(EditorInput::Char(c)).is_none());
    }
    assert_eq!(o.edit_buffer, "1,5");
    o.handle_editor_input(key(KEY_BACKSPACE));
    o.handle_editor_input(EditorInput::Char('2'));
    let commit = o.handle_editor_input(key(KEY_RETURN)).expect("commit");
    assert_eq!(commit.field, EditorField::X);
    assert_eq!(commit.text, "1.2");
    assert_eq!(o.editing_field, None);
    assert_eq!(o.edit_buffer, "");
    assert!(o.editor_active);
}

#[test]
fn typed_text_is_limited_to_twelve_characters() {
    let mut o = open_editor();
    o.editing_field = Some(EditorField::Width);
    for _ in 0..20 {
        o.handle_editor_input(EditorInput::Char('9'));
    }
    assert_eq!(o.edit_buffer.len(), 12);
}

#[test]
fn escape_while_typing_only_cancels_the_value() {
    let mut o = open_editor();
    o.editing_field = Some(EditorField::Y);
    o.handle_editor_input(EditorInput::Char('3'));
    o.handle_editor_input(key(KEY_ESCAPE));
    assert_eq!(o.editing_field, None);
    assert_eq!(o.edit_buffer, "");
    assert!(o.editor_active);
}

#[test]
fn dragging_the_hud_moves_its_offset() {
    let mut o = open_editor();
    o.handle_editor_input(cursor(92, 92, 0, 0, CursorEvent::LeftPressed));
    assert_eq!(o.selected_element, OverlayElement::Whole);
    assert!(o.drag_origin.is_some());
    o.handle_editor_input(cursor(102, 112, 0, 0, CursorEvent::Move));
    let edited = o.editor_settings.as_ref().expect("editing");
    assert_eq!((edited.settings.offset_x, edited.settings.offset_y), (34, 44));
    o.handle_editor_input(cursor(102, 112, 0, 0, CursorEvent::LeftReleased));
    assert!(o.drag_origin.is_none());
    let pending = o.take_pending_settings().expect("saved");
    assert_eq!((pending.settings.offset_x, pending.settings.offset_y), (34, 44));
    assert!(o.take_pending_settings().is_none());
}

#[test]
fn done_button_closes_the_editor() {
    let mut o = open_editor();
    o.handle_editor_input(cursor(0, 0, 620, 20, CursorEvent::LeftReleased));
    assert!(!o.editor_active);
    assert!(o.editor_settings.is_none());
    assert_eq!(o.surface_mode, SurfaceMode::Unknown);
}

#[test]
fn bar_click_on_release_is_saved() {
    let mut o = open_editor();
    o.handle_editor_input(cursor(0, 0, 530, 20, CursorEvent::LeftReleased));
    let pending = o.take_pending_settings().expect("saved");
    assert!(!pending.settings.enabled);
    assert!(o.editor_active);
}

#[test]
fn input_is_ignored_while_the_editor_is_closed() {
    let mut o = IngameOverlay::new();
    o.editing_field = Some(EditorField::X);
    assert!(o.handle_editor_input(EditorInput::Char('1')).is_none());
    assert_eq!(o.edit_buffer, "");
}

#[test]
fn frames_are_drawn_only_when_they_change() {
    let mut o = IngameOverlay::new();
    assert!(o.take_new_frame("a".to_string()));
    assert!(!o.take_new_frame("a".to_string()));
    assert!(o.take_new_frame("b".to_string()));
}

#[test]
fn window_events() {
    let mut o = open_editor();
    o.window_destroyed(2);
    assert_eq!(o.window_id, Some(1));
    o.input_blocking_ended(1);
    assert!(!o.editor_active && !o.input_blocking);
    o.window_destroyed(1);
    assert_eq!(o.window_id, None);
}

#[test]
fn saved_edits_are_normalized() {
    let mut o = open_editor();
    o.editor_settings.as_mut().unwrap().settings.width = 0;
    o.save_edit();
    assert_eq!(o.editor_settings.as_ref().unwrap().settings.width, 1);
    assert_eq!(o.take_pending_settings().unwrap().settings.width, 1);
}

#[test]
fn typed_sizes_are_at_least_one() {
    let mut o = open_editor();
    o.set_typed_value(EditorField::Width, 0, 0);
    o.set_typed_value(EditorField::X, -7, 0);
    let p = o.editor_settings.as_ref().unwrap().panels.pp_panel;
    assert_eq!((p.width, p.x), (1, -7));
}

#[test]
fn drag_moves_are_coalesced() {
    let a = cursor(1, 1, 0, 0, CursorEvent::Move);
    let b = cursor(2, 2, 0, 0, CursorEvent::Move);
    let k = key(KEY_RETURN);
    let c = EditorInput::Char('x');
    assert_eq!(coalesce_inputs(vec![a, k, b, c], true), vec![k, c, b]);
    assert_eq!(coalesce_inputs(vec![a, k, b, c], false), vec![a, k, b, c]);
    assert_eq!(coalesce_inputs(vec![k], true), vec![k]);
}

#[test]
fn value_boxes_show_the_typed_text() {
    assert_eq!(editing_field_key(Some(EditorField::FontScale)), "font");
    assert_eq!(editing_field_key(None), "none");
    assert_eq!(editor_value_text(Some(EditorField::X), "12", EditorField::X, "5"), "12|");
    assert_eq!(editor_value_text(Some(EditorField::X), "12", EditorField::Y, "5"), "5");
    assert_eq!(editor_value_field_at(10, 10), None);
}

#[test]
fn input_range_check_catches_far_drags() {
    let mut o = open_editor();
    let press = cursor(92, 92, 0, 0, CursorEvent::LeftPressed);
    assert!(o.input_in_range(&press));
    o.handle_editor_input(press);
    assert!(o.input_in_range(&cursor(500, 500, 0, 0, CursorEvent::Move)));
    assert!(!o.input_in_range(&cursor(i32::MIN, 0, 0, 0, CursorEvent::Move)));
    assert!(o.input_in_range(&key(KEY_RETURN)));
    let s = OverlaySettings::default();
    assert!(mode_in_range(true, &s, &hidden_panels(), Some((1280, 720))));
    assert!(mode_in_range(false, &s, &hidden_panels(), None));
}

#[test]
fn pointer_positions_map_into_the_editor_bar() {
    let o = open_editor();
    assert_eq!(o.editor_bar_point(300, 620), Some((8, 8)));
    assert_eq!(o.editor_bar_point(292, 612), Some((0, 0)));
    assert_eq!(o.editor_bar_point(i32::MIN, 0), None);
}

#[test]
fn saved_drags_are_normalized() {
    let mut o = open_editor();
    o.handle_editor_input(cursor(92, 92, 0, 0, CursorEvent::LeftPressed));
    o.handle_editor_input(cursor(5000, 92, 0, 0, CursorEvent::LeftReleased));
    let pending = o.take_pending_settings().expect("saved");
    assert_eq!((pending.settings.offset_x, pending.settings.offset_y), (3000, 24));
}

#[test]
fn pending_settings_are_handed_out_normalized() {
    let mut o = IngameOverlay::new();
    let mut settings = OverlaySettings::default();
    settings.width = 0;
    settings.offset_x = -9000;
    o.pending_settings = Some(EditedSettings { settings, panels: hidden_panels() });
    let taken = o.take_pending_settings().expect("pending");
    assert_eq!((taken.settings.width, taken.settings.offset_x), (1, -3000));
    assert!(o.take_pending_settings().is_none());
}
