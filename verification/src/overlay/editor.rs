//! State of the in-game HUD and its editor between frames: which window it
//! is attached to, how the surface is placed, and how editor input changes
//! the settings being edited.

use vstd::prelude::*;

use crate::models::{
    is_normalized, lemma_normalized_is_normalized, spec_normalized, OverlaySettings,
    OverlaySettingsView,
};
use crate::overlay::geometry::{in_rect, sat_add, sat_sub, saturating_add, saturating_sub, spec_in_rect};
use crate::overlay::panels::{
    apply_editor_click, apply_overlay_drag, editor_surface_layout, fits_i32, hit_test_fits,
    hit_test_overlay_element, overlay_bounds, spec_drag, spec_editor_click,
    spec_editor_surface_layout, spec_hit_test, spec_overlay_bounds, surface_fits, bounds_fit,
    DragMode, DragOrigin, OverlayElement, OverlayPanels,
};
use crate::text::push_char;

verus! {

/// A value of the selected panel that can be typed in.
#[derive(Clone, Copy, Debug, PartialEq, Eq, Structural)]
pub enum EditorField {
    Opacity,
    Scale,
    FontScale,
    X,
    Y,
    Width,
    Height,
}

/// How the drawing surface is anchored in the game window.
#[derive(Clone, Copy, Debug, PartialEq, Eq, Structural)]
pub enum SurfaceMode {
    Unknown,
    Hud { x: i32, y: i32 },
    Editor { x: i32, y: i32 },
}

/// Pointer events the editor reacts to.
#[derive(Clone, Copy, Debug, PartialEq, Eq, Structural)]
pub enum CursorEvent {
    LeftPressed,
    LeftReleased,
    Move,
    Other,
}

/// Input forwarded from the game window while the editor blocks input.
/// Pointer positions come as client coordinates, and as coordinates in the
/// editor bar's unscaled layout (`local_x`, `local_y`).
#[derive(Clone, Copy, Debug, PartialEq, Eq, Structural)]
pub enum EditorInput {
    Key { code: u8, pressed: bool },
    Char(char),
    Cursor { x: i32, y: i32, local_x: i32, local_y: i32, event: CursorEvent },
    Other,
}

/// Virtual-key codes the editor handles.
pub const KEY_BACKSPACE: u8 = 0x08;
pub const KEY_RETURN: u8 = 0x0D;
pub const KEY_ESCAPE: u8 = 0x1B;
pub const KEY_END: u8 = 0x23;

/// Settings being edited, with the panels.
pub struct EditedSettings {
    pub settings: OverlaySettings,
    pub panels: OverlayPanels,
}

/// What the shell must apply for a typed-in value: the field and its text,
/// with `,` read as a decimal point.
pub struct EditorCommit {
    pub field: EditorField,
    pub text: String,
}

/// The in-game overlay between frames.
pub struct IngameOverlay {
    pub pid: Option<u32>,
    pub window_id: Option<u32>,
    pub window_size: Option<(u32, u32)>,
    pub input_blocking: bool,
    pub surface_mode: SurfaceMode,
    pub editor_surface_origin: (i32, i32),
    pub last_frame_key: Option<String>,
    pub editor_active: bool,
    pub editor_settings: Option<EditedSettings>,
    pub selected_element: OverlayElement,
    pub editing_field: Option<EditorField>,
    pub edit_buffer: String,
    pub drag_origin: Option<DragOrigin>,
    pub pending_settings: Option<EditedSettings>,
}

/// Model of the edited settings.
pub open spec fn edited_view(e: Option<EditedSettings>) -> Option<(OverlaySettingsView, OverlayPanels)> {
    match e {
        Some(x) => Some((x.settings@, x.panels)),
        None => None,
    }
}

pub open spec fn key_view(k: Option<String>) -> Option<Seq<char>> {
    match k {
        Some(s) => Some(s@),
        None => None,
    }
}

/// Model of the overlay state.
pub struct IngameView {
    pub pid: Option<u32>,
    pub window_id: Option<u32>,
    pub window_size: Option<(u32, u32)>,
    pub input_blocking: bool,
    pub surface_mode: SurfaceMode,
    pub origin: (i32, i32),
    pub frame_key: Option<Seq<char>>,
    pub editor_active: bool,
    pub settings: Option<(OverlaySettingsView, OverlayPanels)>,
    pub selected: OverlayElement,
    pub editing_field: Option<EditorField>,
    pub edit_buffer: Seq<char>,
    pub drag: Option<DragOrigin>,
    pub pending: Option<(OverlaySettingsView, OverlayPanels)>,
}

impl View for IngameOverlay {
    type V = IngameView;

    open spec fn view(&self) -> IngameView {
        IngameView {
            pid: self.pid,
            window_id: self.window_id,
            window_size: self.window_size,
            input_blocking: self.input_blocking,
            surface_mode: self.surface_mode,
            origin: self.editor_surface_origin,
            frame_key: key_view(self.last_frame_key),
            editor_active: self.editor_active,
            settings: edited_view(self.editor_settings),
            selected: self.selected_element,
            editing_field: self.editing_field,
            edit_buffer: self.edit_buffer@,
            drag: self.drag_origin,
            pending: edited_view(self.pending_settings),
        }
    }
}

/// Whether the settings handed out as pending are in range (or there are none).
/// A new overlay has it, every method of [`IngameOverlay`] keeps it, and
/// [`IngameOverlay::take_pending_settings`] hands out normalized settings in any case.
pub open spec fn pending_normalized(v: IngameView) -> bool {
    v.pending matches Some(e) ==> is_normalized(e.0)
}

/// The state of a detached overlay with a closed editor.
pub open spec fn detached() -> IngameView {
    IngameView {
        pid: None,
        window_id: None,
        window_size: None,
        input_blocking: false,
        surface_mode: SurfaceMode::Unknown,
        origin: (0, 0),
        frame_key: None,
        editor_active: false,
        settings: None,
        selected: OverlayElement::Pp,
        editing_field: None,
        edit_buffer: seq![],
        drag: None,
        pending: None,
    }
}

/// The state after the editor is switched on or off.
pub open spec fn spec_toggle_editor(
    v: IngameView,
    settings: OverlaySettingsView,
    panels: OverlayPanels,
) -> IngameView {
    if v.editor_active {
        IngameView {
            editor_active: false,
            settings: None,
            drag: None,
            surface_mode: SurfaceMode::Unknown,
            frame_key: None,
            ..v
        }
    } else {
        IngameView {
            editor_active: true,
            settings: Some((settings, panels)),
            selected: OverlayElement::Pp,
            editing_field: None,
            edit_buffer: seq![],
            drag: None,
            surface_mode: SurfaceMode::Unknown,
            frame_key: None,
            ..v
        }
    }
}

fn copy_settings(s: &OverlaySettings) -> (r: OverlaySettings)
    ensures
        r@ == s@,
{
    OverlaySettings {
        enabled: s.enabled,
        show_pp: s.show_pp,
        show_if_fc: s.show_if_fc,
        show_accuracy: s.show_accuracy,
        show_combo: s.show_combo,
        show_mods: s.show_mods,
        show_map: s.show_map,
        show_hits: s.show_hits,
        width: s.width,
        height: s.height,
        offset_x: s.offset_x,
        offset_y: s.offset_y,
        padding: s.padding,
        corner_radius: s.corner_radius,
        show_background: s.show_background,
        toggle_key: crate::text::owned(s.toggle_key.as_str()),
    }
}

impl IngameOverlay {
    /// A detached overlay.
    pub fn new() -> (r: Self)
        ensures
            pending_normalized(r@),
            r@ == detached(),
    {
        IngameOverlay {
            pid: None,
            window_id: None,
            window_size: None,
            input_blocking: false,
            surface_mode: SurfaceMode::Unknown,
            editor_surface_origin: (0, 0),
            last_frame_key: None,
            editor_active: false,
            editor_settings: None,
            selected_element: OverlayElement::Pp,
            editing_field: None,
            edit_buffer: String::new(),
            drag_origin: None,
            pending_settings: None,
        }
    }

    /// Forgets the attached game and everything edited.
    pub fn reset(&mut self)
        ensures
            pending_normalized(old(self)@) ==> pending_normalized(final(self)@),
            final(self)@ == detached(),
    {
        *self = IngameOverlay::new();
    }

    /// Records a successful attach to the game process `pid`.
    pub fn attached(&mut self, pid: u32)
        ensures
            pending_normalized(old(self)@) ==> pending_normalized(final(self)@),
            final(self)@ == (IngameView { pid: Some(pid), ..detached() }),
    {
        self.reset();
        self.pid = Some(pid);
    }

    /// Whether the overlay must attach to `pid` before drawing.
    pub fn needs_attach(&self, pid: u32) -> (r: bool)
        ensures
            r == (self.pid != Some(pid)),
    {
        match self.pid {
            Some(current) => current != pid,
            None => true,
        }
    }

    /// Switches the editor on (editing a copy of `settings`) or off.
    pub fn toggle_editor(&mut self, settings: &OverlaySettings, panels: &OverlayPanels)
        ensures
            pending_normalized(old(self)@) ==> pending_normalized(final(self)@),
            final(self)@ == spec_toggle_editor(old(self)@, settings@, *panels),
    {
        if self.editor_active {
            self.editor_active = false;
            self.editor_settings = None;
            self.drag_origin = None;
        } else {
            self.editor_active = true;
            self.editor_settings = Some(EditedSettings { settings: copy_settings(settings), panels: *panels });
            self.selected_element = OverlayElement::Pp;
            self.editing_field = None;
            self.edit_buffer = String::new();
            self.drag_origin = None;
        }
        self.surface_mode = SurfaceMode::Unknown;
        self.last_frame_key = None;
    }

    /// Whether the game's input must now be blocked (`Some(true)`) or released
    /// (`Some(false)`) because the editor opened or closed.
    pub fn input_blocking_change(&mut self) -> (r: Option<bool>)
        ensures
            pending_normalized(old(self)@) ==> pending_normalized(final(self)@),
            old(self)@.editor_active && !old(self)@.input_blocking ==> r == Some(true)
                && final(self)@ == (IngameView { input_blocking: true, frame_key: None, ..old(self)@ }),
            !old(self)@.editor_active && old(self)@.input_blocking ==> r == Some(false)
                && final(self)@ == (IngameView { input_blocking: false, frame_key: None, ..old(self)@ }),
            old(self)@.editor_active == old(self)@.input_blocking ==> r is None && final(self)@ == old(
                self,
            )@,
    {
        if self.editor_active && !self.input_blocking {
            self.input_blocking = true;
            self.last_frame_key = None;
            Some(true)
        } else if !self.editor_active && self.input_blocking {
            self.input_blocking = false;
            self.last_frame_key = None;
            Some(false)
        } else {
            None
        }
    }

    /// Takes a frame key: whether the frame differs from the last one drawn
    /// (and must be drawn), remembering it.
    pub fn take_new_frame(&mut self, key: String) -> (r: bool)
        ensures
            pending_normalized(old(self)@) ==> pending_normalized(final(self)@),
            r == (old(self)@.frame_key != Some(key@)),
            final(self)@ == (IngameView { frame_key: Some(key@), ..old(self)@ }),
    {
        let same = match &self.last_frame_key {
            Some(last) => crate::text::str_eq(last.as_str(), key.as_str()),
            None => false,
        };
        self.last_frame_key = Some(key);
        !same
    }

    /// Hands out, normalized, the settings the editor saved since the last
    /// call (they are normalized already when the editor saved them).
    pub fn take_pending_settings(&mut self) -> (r: Option<EditedSettings>)
        ensures
            r matches Some(e) ==> is_normalized(e.settings@),
            pending_normalized(old(self)@) ==> pending_normalized(final(self)@),
            edited_view(r) == (match old(self)@.pending {
                Some((s, p)) => Some((spec_normalized(s), p)),
                None => None,
            }),
            pending_normalized(old(self)@) ==> edited_view(r) == old(self)@.pending,
            final(self)@ == (IngameView { pending: None, ..old(self)@ }),
    {
        match self.pending_settings.take() {
            Some(e) => {
                proof {
                    if is_normalized(e.settings@) {
                        crate::models::lemma_normalized_fixes_normalized(e.settings@);
                    }
                }
                Some(EditedSettings { settings: e.settings.normalized(), panels: e.panels })
            },
            None => None,
        }
    }

    /// The game window was destroyed.
    pub fn window_destroyed(&mut self, id: u32)
        ensures
            pending_normalized(old(self)@) ==> pending_normalized(final(self)@),
            old(self)@.window_id == Some(id) ==> final(self)@ == (IngameView { window_id: None, ..old(self)@ }),
            old(self)@.window_id != Some(id) ==> final(self)@ == old(self)@,
    {
        if self.window_id == Some(id) {
            self.window_id = None;
        }
    }

    /// The game ended input blocking on its own: the editor closes.
    pub fn input_blocking_ended(&mut self, id: u32)
        ensures
            pending_normalized(old(self)@) ==> pending_normalized(final(self)@),
            old(self)@.window_id == Some(id) ==> final(self)@ == (IngameView {
                input_blocking: false,
                editor_active: false,
                settings: None,
                surface_mode: SurfaceMode::Unknown,
                frame_key: None,
                ..old(self)@
            }),
            old(self)@.window_id != Some(id) ==> final(self)@ == old(self)@,
    {
        if self.window_id == Some(id) {
            self.input_blocking = false;
            self.editor_active = false;
            self.editor_settings = None;
            self.surface_mode = SurfaceMode::Unknown;
            self.last_frame_key = None;
        }
    }
}

/// The surface placement wanted for the current state: the editor surface
/// while editing, else the HUD box; with the origin of pointer coordinates.
pub open spec fn spec_desired_mode(
    editor_active: bool,
    s: OverlaySettingsView,
    p: OverlayPanels,
    window_size: Option<(u32, u32)>,
) -> (SurfaceMode, (i32, i32)) {
    if editor_active {
        let l = spec_editor_surface_layout(s, p, window_size);
        (SurfaceMode::Editor { x: l.x, y: l.y }, (l.x, l.y))
    } else {
        let b = spec_overlay_bounds(s, p);
        (SurfaceMode::Hud { x: b.0, y: b.1 }, (0, 0))
    }
}

pub open spec fn mode_fits(
    editor_active: bool,
    s: OverlaySettingsView,
    p: OverlayPanels,
    window_size: Option<(u32, u32)>,
) -> bool {
    if editor_active {
        surface_fits(s, p, window_size)
    } else {
        bounds_fit(s, p)
    }
}

/// Whether the surface placement for these settings stays within `i32`, so
/// that [`IngameOverlay::window_resized`] and
/// [`IngameOverlay::update_surface_mode`] may be called.
pub fn mode_in_range(
    editor_active: bool,
    s: &OverlaySettings,
    p: &OverlayPanels,
    window_size: Option<(u32, u32)>,
) -> (r: bool)
    ensures
        r == mode_fits(editor_active, s@, *p, window_size),
{
    if editor_active {
        crate::overlay::panels::surface_in_range(s, p, window_size)
    } else {
        crate::overlay::panels::bounds_in_range(s, p)
    }
}

fn desired_mode(
    editor_active: bool,
    s: &OverlaySettings,
    p: &OverlayPanels,
    window_size: Option<(u32, u32)>,
) -> (r: (SurfaceMode, (i32, i32)))
    requires
        mode_fits(editor_active, s@, *p, window_size),
    ensures
        r == spec_desired_mode(editor_active, s@, *p, window_size),
{
    if editor_active {
        let l = editor_surface_layout(s, p, window_size);
        (SurfaceMode::Editor { x: l.x, y: l.y }, (l.x, l.y))
    } else {
        let b = overlay_bounds(s, p);
        (SurfaceMode::Hud { x: b.0, y: b.1 }, (0, 0))
    }
}

impl IngameOverlay {
    /// The game window appeared or changed size: remembers it and returns the
    /// surface placement to apply, computed from `settings`.
    pub fn window_resized(
        &mut self,
        id: u32,
        width: u32,
        height: u32,
        settings: &OverlaySettings,
        panels: &OverlayPanels,
    ) -> (r: SurfaceMode)
        requires
            mode_fits(old(self)@.editor_active, settings@, *panels, Some((width, height))),
        ensures
            pending_normalized(old(self)@) ==> pending_normalized(final(self)@),
            ({
                let (mode, origin) = spec_desired_mode(
                    old(self)@.editor_active,
                    settings@,
                    *panels,
                    Some((width, height)),
                );
                r == mode && final(self)@ == (IngameView {
                    window_id: Some(id),
                    window_size: Some((width, height)),
                    surface_mode: mode,
                    origin,
                    ..old(self)@
                })
            }),
    {
        self.window_id = Some(id);
        self.window_size = Some((width, height));
        let (mode, origin) = desired_mode(self.editor_active, settings, panels, self.window_size);
        self.editor_surface_origin = origin;
        self.surface_mode = mode;
        mode
    }

    /// Places the surface for this frame from the settings in use (the
    /// edited ones while editing); returns the placement when it changed.
    pub fn update_surface_mode(&mut self, settings: &OverlaySettings, panels: &OverlayPanels) -> (r:
        Option<SurfaceMode>)
        requires
            ({
                let (s, p) = match old(self)@.settings {
                    Some(e) => e,
                    None => (settings@, *panels),
                };
                mode_fits(old(self)@.editor_active, s, p, old(self)@.window_size)
            }),
        ensures
            pending_normalized(old(self)@) ==> pending_normalized(final(self)@),
            ({
                let (s, p) = match old(self)@.settings {
                    Some(e) => e,
                    None => (settings@, *panels),
                };
                let (mode, origin) = spec_desired_mode(old(self)@.editor_active, s, p, old(self)@.window_size);
                &&& final(self)@ == (IngameView { surface_mode: mode, origin, ..old(self)@ })
                &&& r == (if old(self)@.surface_mode != mode {
                    Some(mode)
                } else {
                    None
                })
            }),
    {
        let (mode, origin) = match &self.editor_settings {
            Some(e) => desired_mode(self.editor_active, &e.settings, &e.panels, self.window_size),
            None => desired_mode(self.editor_active, settings, panels, self.window_size),
        };
        self.editor_surface_origin = origin;
        if self.surface_mode != mode {
            self.surface_mode = mode;
            Some(mode)
        } else {
            None
        }
    }
}

} // verus!

verus! {

/// Characters accepted while typing a value.
pub open spec fn accepts_char(c: char) -> bool {
    ('0' <= c && c <= '9') || c == '-' || c == '.' || c == ','
}

/// The pointer in game-window coordinates.
pub open spec fn screen_point(v: IngameView, x: i32, y: i32) -> (i32, i32) {
    (sat_add(x, v.origin.0), sat_add(y, v.origin.1))
}

/// Settings after dragging `d` to the screen point `(sx, sy)`, normalized.
pub open spec fn drag_to(
    s: OverlaySettingsView,
    p: OverlayPanels,
    d: DragOrigin,
    sx: i32,
    sy: i32,
) -> (OverlaySettingsView, OverlayPanels) {
    let nx = sat_add(d.offset_x, sat_sub(sx, d.cursor_x));
    let ny = sat_add(d.offset_y, sat_sub(sy, d.cursor_y));
    let (s2, p2) = spec_drag(s, p, d, (sx - d.cursor_x) as i32, (sy - d.cursor_y) as i32, nx, ny);
    (spec_normalized(s2), p2)
}

pub open spec fn drag_fits(d: DragOrigin, sx: i32, sy: i32) -> bool {
    &&& fits_i32(sx - d.cursor_x)
    &&& fits_i32(sy - d.cursor_y)
    &&& d.mode == DragMode::Resize ==> fits_i32((d.width as i32) + (sx - d.cursor_x)) && fits_i32(
        (d.height as i32) + (sy - d.cursor_y),
    )
}

fn fits_wide(v: i64) -> (r: bool)
    ensures
        r == fits_i32(v as int),
{
    i32::MIN as i64 <= v && v <= i32::MAX as i64
}

fn drag_in_range(d: DragOrigin, sx: i32, sy: i32) -> (r: bool)
    ensures
        r == drag_fits(d, sx, sy),
{
    let dx = sx as i64 - d.cursor_x as i64;
    let dy = sy as i64 - d.cursor_y as i64;
    let resize_fits = match d.mode {
        DragMode::Resize => fits_wide((d.width as i32) as i64 + dx) && fits_wide((d.height as i32) as i64 + dy),
        DragMode::Move => true,
    };
    fits_wide(dx) && fits_wide(dy) && resize_fits
}

/// Whether handling `input` keeps its arithmetic within `i32`.
pub open spec fn input_fits(v: IngameView, input: EditorInput) -> bool {
    match input {
        EditorInput::Cursor { x, y, event, .. } => (v.editor_active && v.settings is Some) ==> {
            let (s, p) = v.settings->0;
            let (sx, sy) = screen_point(v, x, y);
            match event {
                CursorEvent::LeftPressed => hit_test_fits(s, p, sx, sy),
                CursorEvent::Move | CursorEvent::LeftReleased => match v.drag {
                    Some(d) => drag_fits(d, sx, sy),
                    None => true,
                },
                CursorEvent::Other => true,
            }
        },
        _ => true,
    }
}

/// `s` with every `,` read as `.`.
pub open spec fn decimal_commas(s: Seq<char>) -> Seq<char> {
    s.map_values(|c: char| if c == ',' { '.' } else { c })
}

/// The editor state after a left click is released.
pub open spec fn spec_release(
    v: IngameView,
    s: OverlaySettingsView,
    p: OverlayPanels,
    sx: i32,
    sy: i32,
    lx: i32,
    ly: i32,
) -> IngameView {
    let v1 = match v.drag {
        Some(d) => {
            let e = drag_to(s, p, d, sx, sy);
            IngameView { settings: Some(e), pending: Some(e), frame_key: None, ..v }
        },
        None => v,
    };
    let v2 = IngameView { drag: None, ..v1 };
    if spec_in_rect(lx as int, ly as int, 612, 14, 52, 28) {
        IngameView {
            editor_active: false,
            settings: None,
            surface_mode: SurfaceMode::Unknown,
            frame_key: None,
            ..v2
        }
    } else {
        let (s2, p2) = v2.settings->0;
        let (s3, p3, sel, changed) = spec_editor_click(s2, p2, v2.selected, lx, ly);
        if changed {
            let e = (spec_normalized(s3), p3);
            IngameView { settings: Some(e), pending: Some(e), selected: sel, frame_key: None, ..v2 }
        } else {
            v2
        }
    }
}

/// The editor state after one input, and the typed value to apply, if any.
pub open spec fn spec_handle_input(v: IngameView, input: EditorInput) -> (
    IngameView,
    Option<(EditorField, Seq<char>)>,
) {
    if !v.editor_active {
        (v, None)
    } else {
        match input {
            EditorInput::Key { code, pressed } => {
                if !pressed {
                    (v, None)
                } else if v.editing_field is Some && code == KEY_RETURN {
                    match v.settings {
                        Some(_) => (
                            IngameView { editing_field: None, edit_buffer: seq![], frame_key: None, ..v },
                            Some((v.editing_field->0, decimal_commas(v.edit_buffer))),
                        ),
                        None => (IngameView { editing_field: None, edit_buffer: seq![], ..v }, None),
                    }
                } else if v.editing_field is Some && code == KEY_BACKSPACE {
                    (
                        IngameView {
                            edit_buffer: if v.edit_buffer.len() > 0 {
                                v.edit_buffer.drop_last()
                            } else {
                                v.edit_buffer
                            },
                            frame_key: None,
                            ..v
                        },
                        None,
                    )
                } else if code == KEY_END || code == KEY_ESCAPE {
                    if v.editing_field is Some {
                        (IngameView { editing_field: None, edit_buffer: seq![], frame_key: None, ..v }, None)
                    } else {
                        (
                            IngameView {
                                editor_active: false,
                                settings: None,
                                drag: None,
                                surface_mode: SurfaceMode::Unknown,
                                frame_key: None,
                                ..v
                            },
                            None,
                        )
                    }
                } else {
                    (v, None)
                }
            },
            EditorInput::Char(c) => {
                if v.editing_field is Some && accepts_char(c) && v.edit_buffer.len() < 12 {
                    (IngameView { edit_buffer: v.edit_buffer.push(c), frame_key: None, ..v }, None)
                } else {
                    (v, None)
                }
            },
            EditorInput::Cursor { x, y, local_x, local_y, event } => match v.settings {
                None => (v, None),
                Some((s, p)) => {
                    let (sx, sy) = screen_point(v, x, y);
                    match event {
                        CursorEvent::LeftPressed => match spec_hit_test(s, p, sx, sy) {
                            Some(g) => (
                                IngameView {
                                    drag: Some(
                                        DragOrigin {
                                            element: g.0,
                                            mode: g.1,
                                            cursor_x: sx,
                                            cursor_y: sy,
                                            offset_x: g.2,
                                            offset_y: g.3,
                                            width: g.4,
                                            height: g.5,
                                        },
                                    ),
                                    selected: g.0,
                                    frame_key: None,
                                    ..v
                                },
                                None,
                            ),
                            None => (v, None),
                        },
                        CursorEvent::Move => match v.drag {
                            Some(d) => (
                                IngameView { settings: Some(drag_to(s, p, d, sx, sy)), frame_key: None, ..v },
                                None,
                            ),
                            None => (v, None),
                        },
                        CursorEvent::LeftReleased => (spec_release(v, s, p, sx, sy, local_x, local_y), None),
                        CursorEvent::Other => (v, None),
                    }
                },
            },
            EditorInput::Other => (v, None),
        }
    }
}

/// While a field is being edited in the open editor, a typed character is
/// appended exactly when it is an ASCII digit, `-`, `.` or `,` and the text
/// is shorter than 12 characters; nothing else changes but the frame key.
/// Return then commits the field with that text, each `,` read as `.`, and
/// clears it.
pub proof fn lemma_typing_a_value(v: IngameView, c: char)
    requires
        v.editor_active,
        v.editing_field is Some,
    ensures
        ({
            let (next, commit) = spec_handle_input(v, EditorInput::Char(c));
            let accepted = ('0' <= c && c <= '9') || c == '-' || c == '.' || c == ',';
            &&& commit is None
            &&& next.edit_buffer == (if accepted && v.edit_buffer.len() < 12 {
                v.edit_buffer.push(c)
            } else {
                v.edit_buffer
            })
            &&& next.editing_field == v.editing_field
            &&& next.settings == v.settings
            &&& next.pending == v.pending
        }),
        v.settings is Some ==> ({
            let (next, commit) = spec_handle_input(v, EditorInput::Key { code: 0x0D, pressed: true });
            &&& commit matches Some((field, text)) && field == v.editing_field->0 && text.len()
                == v.edit_buffer.len() && forall|i: int|
                0 <= i < text.len() ==> #[trigger] text[i] == (if v.edit_buffer[i] == ',' {
                    '.'
                } else {
                    v.edit_buffer[i]
                })
            &&& next.editing_field is None
            &&& next.edit_buffer.len() == 0
            &&& next.editor_active
        }),
{
}

/// Settings the editor saves are always in range: whenever an input changes
/// the settings handed out as pending, the new ones are normalized.
pub proof fn lemma_saved_settings_are_normalized(v: IngameView, input: EditorInput)
    ensures
        ({
            let next = spec_handle_input(v, input).0;
            next.pending != v.pending ==> (next.pending matches Some(e) && is_normalized(e.0))
        }),
{
    assert forall|s: OverlaySettingsView| #[trigger] is_normalized(spec_normalized(s)) by {
        lemma_normalized_is_normalized(s);
    }
}

fn accepted_char(c: char) -> (r: bool)
    ensures
        r == accepts_char(c),
{
    ('0' <= c && c <= '9') || c == '-' || c == '.' || c == ','
}

fn with_decimal_point(s: &str) -> (r: String)
    ensures
        r@ == decimal_commas(s@),
{
    let n = s.unicode_len();
    let mut out = String::new();
    let mut i: usize = 0;
    while i < n
        invariant
            n == s@.len(),
            i <= n,
            out@ == decimal_commas(s@.take(i as int)),
        decreases n - i,
    {
        let c = s.get_char(i);
        push_char(&mut out, if c == ',' { '.' } else { c });
        proof {
            assert(decimal_commas(s@.take(i + 1)) =~= decimal_commas(s@.take(i as int)).push(
                if c == ',' { '.' } else { c },
            ));
        }
        i = i + 1;
    }
    proof {
        assert(s@.take(n as int) =~= s@);
    }
    out
}

fn drag_settings(e: &mut EditedSettings, d: DragOrigin, sx: i32, sy: i32)
    requires
        drag_fits(d, sx, sy),
    ensures
        (final(e).settings@, final(e).panels) == drag_to(old(e).settings@, old(e).panels, d, sx, sy),
{
    let next_x = saturating_add(d.offset_x, saturating_sub(sx, d.cursor_x));
    let next_y = saturating_add(d.offset_y, saturating_sub(sy, d.cursor_y));
    apply_overlay_drag(&mut e.settings, &mut e.panels, d, sx - d.cursor_x, sy - d.cursor_y, next_x, next_y);
    let s = copy_settings(&e.settings);
    e.settings = s.normalized();
}

fn copy_edited(e: &EditedSettings) -> (r: EditedSettings)
    ensures
        r.settings@ == e.settings@,
        r.panels == e.panels,
{
    EditedSettings { settings: copy_settings(&e.settings), panels: e.panels }
}

impl IngameOverlay {
    fn handle_release(&mut self, mut e: EditedSettings, sx: i32, sy: i32, lx: i32, ly: i32)
        requires
            old(self).editor_settings is None,
            old(self).drag_origin matches Some(d) ==> drag_fits(d, sx, sy),
        ensures
            final(self)@ == spec_release(
                IngameView { settings: Some((e.settings@, e.panels)), ..old(self)@ },
                e.settings@,
                e.panels,
                sx,
                sy,
                lx,
                ly,
            ),
    {
        if let Some(d) = self.drag_origin {
            drag_settings(&mut e, d, sx, sy);
            self.pending_settings = Some(copy_edited(&e));
            self.last_frame_key = None;
        }
        self.drag_origin = None;
        if in_rect(lx, ly, 612, 14, 52, 28) {
            self.editor_active = false;
            self.editor_settings = None;
            self.surface_mode = SurfaceMode::Unknown;
            self.last_frame_key = None;
            return;
        }
        let mut selected = self.selected_element;
        if apply_editor_click(&mut e.settings, &mut e.panels, &mut selected, lx, ly) {
            self.selected_element = selected;
            let s = copy_settings(&e.settings);
            e.settings = s.normalized();
            self.pending_settings = Some(copy_edited(&e));
            self.last_frame_key = None;
        }
        self.editor_settings = Some(e);
    }

    /// A pointer position in client coordinates as a point of the editor
    /// bar's layout: its offset from the bar's top-left corner in the game
    /// window. `None` where that offset leaves `i32`.
    pub fn editor_bar_point(&self, x: i32, y: i32) -> (r: Option<(i32, i32)>)
        ensures
            ({
                let (sx, sy) = screen_point(self@, x, y);
                let o = crate::overlay::panels::spec_editor_panel_origin(self@.window_size);
                if crate::overlay::panels::panel_origin_fits(self@.window_size) && fits_i32(
                    sx - o.0,
                ) && fits_i32(sy - o.1) {
                    r == Some(((sx - o.0) as i32, (sy - o.1) as i32))
                } else {
                    r is None
                }
            }),
    {
        if !crate::overlay::panels::origin_in_range(self.window_size) {
            return None;
        }
        let sx = saturating_add(x, self.editor_surface_origin.0);
        let sy = saturating_add(y, self.editor_surface_origin.1);
        let (px, py) = crate::overlay::panels::editor_panel_origin(self.window_size);
        let dx = sx as i64 - px as i64;
        let dy = sy as i64 - py as i64;
        if fits_wide(dx) && fits_wide(dy) {
            Some((dx as i32, dy as i32))
        } else {
            None
        }
    }

    /// Whether handling `input` stays within `i32`, so that
    /// [`IngameOverlay::handle_editor_input`] may be called with it.
    pub fn input_in_range(&self, input: &EditorInput) -> (r: bool)
        ensures
            r == input_fits(self@, *input),
    {
        match *input {
            EditorInput::Cursor { x, y, event, .. } => {
                if !self.editor_active {
                    return true;
                }
                let e = match &self.editor_settings {
                    Some(e) => e,
                    None => return true,
                };
                let sx = saturating_add(x, self.editor_surface_origin.0);
                let sy = saturating_add(y, self.editor_surface_origin.1);
                match event {
                    CursorEvent::LeftPressed => crate::overlay::panels::hit_test_in_range(
                        &e.settings,
                        &e.panels,
                        sx,
                        sy,
                    ),
                    CursorEvent::Move | CursorEvent::LeftReleased => match self.drag_origin {
                        Some(d) => drag_in_range(d, sx, sy),
                        None => true,
                    },
                    CursorEvent::Other => true,
                }
            },
            _ => true,
        }
    }

    /// Applies one input to the editor. Returns the field and text of a
    /// typed value when Return confirms it; the shell parses and applies it.
    pub fn handle_editor_input(&mut self, input: EditorInput) -> (r: Option<EditorCommit>)
        requires
            input_fits(old(self)@, input),
        ensures
            pending_normalized(old(self)@) ==> pending_normalized(final(self)@),
            ({
                let (next, commit) = spec_handle_input(old(self)@, input);
                &&& final(self)@ == next
                &&& match r {
                    Some(c) => commit == Some((c.field, c.text@)),
                    None => commit is None,
                }
            }),
    {
        proof {
            lemma_saved_settings_are_normalized(old(self)@, input);
        }
        if !self.editor_active {
            return None;
        }
        match input {
            EditorInput::Key { code, pressed } => {
                if !pressed {
                    return None;
                }
                if self.editing_field.is_some() {
                    if code == KEY_RETURN {
                        let field = self.editing_field.unwrap();
                        self.editing_field = None;
                        if self.editor_settings.is_none() {
                            self.edit_buffer = String::new();
                            return None;
                        }
                        let text = with_decimal_point(self.edit_buffer.as_str());
                        self.edit_buffer = String::new();
                        self.last_frame_key = None;
                        return Some(EditorCommit { field, text });
                    }
                    if code == KEY_BACKSPACE {
                        let n = self.edit_buffer.as_str().unicode_len();
                        if n > 0 {
                            self.edit_buffer = crate::text::owned(
                                self.edit_buffer.as_str().substring_char(0, n - 1),
                            );
                        }
                        self.last_frame_key = None;
                        return None;
                    }
                }
                if code == KEY_END || code == KEY_ESCAPE {
                    if self.editing_field.is_some() {
                        self.editing_field = None;
                        self.edit_buffer = String::new();
                        self.last_frame_key = None;
                        return None;
                    }
                    self.editor_active = false;
                    self.editor_settings = None;
                    self.drag_origin = None;
                    self.surface_mode = SurfaceMode::Unknown;
                    self.last_frame_key = None;
                }
                None
            },
            EditorInput::Char(c) => {
                if self.editing_field.is_some() && accepted_char(c)
                    && self.edit_buffer.as_str().unicode_len() < 12 {
                    push_char(&mut self.edit_buffer, c);
                    self.last_frame_key = None;
                }
                None
            },
            EditorInput::Cursor { x, y, local_x, local_y, event } => {
                let mut e = match self.editor_settings.take() {
                    Some(e) => e,
                    None => return None,
                };
                let sx = saturating_add(x, self.editor_surface_origin.0);
                let sy = saturating_add(y, self.editor_surface_origin.1);
                match event {
                    CursorEvent::LeftPressed => {
                        if let Some(g) = hit_test_overlay_element(&e.settings, &e.panels, sx, sy) {
                            self.drag_origin = Some(
                                DragOrigin {
                                    element: g.0,
                                    mode: g.1,
                                    cursor_x: sx,
                                    cursor_y: sy,
                                    offset_x: g.2,
                                    offset_y: g.3,
                                    width: g.4,
                                    height: g.5,
                                },
                            );
                            self.selected_element = g.0;
                            self.last_frame_key = None;
                        }
                        self.editor_settings = Some(e);
                    },
                    CursorEvent::Move => {
                        if let Some(d) = self.drag_origin {
                            drag_settings(&mut e, d, sx, sy);
                            self.last_frame_key = None;
                        }
                        self.editor_settings = Some(e);
                    },
                    CursorEvent::LeftReleased => {
                        self.handle_release(e, sx, sy, local_x, local_y);
                    },
                    CursorEvent::Other => {
                        self.editor_settings = Some(e);
                    },
                }
                None
            },
            EditorInput::Other => None,
        }
    }
}

} // verus!

verus! {

pub open spec fn is_cursor_move(i: EditorInput) -> bool {
    i matches EditorInput::Cursor { event: CursorEvent::Move, .. }
}

/// The inputs other than pointer moves, in order.
pub open spec fn without_moves(s: Seq<EditorInput>) -> Seq<EditorInput>
    decreases s.len(),
{
    if s.len() == 0 {
        seq![]
    } else if is_cursor_move(s.last()) {
        without_moves(s.drop_last())
    } else {
        without_moves(s.drop_last()).push(s.last())
    }
}

/// The last pointer move, if any.
pub open spec fn last_move(s: Seq<EditorInput>) -> Option<EditorInput>
    decreases s.len(),
{
    if s.len() == 0 {
        None
    } else if is_cursor_move(s.last()) {
        Some(s.last())
    } else {
        last_move(s.drop_last())
    }
}

/// The inputs of one frame as handled: during a drag only the latest
/// pointer move counts, and it comes after the other inputs.
pub open spec fn spec_coalesce(s: Seq<EditorInput>, dragging: bool) -> Seq<EditorInput> {
    if !dragging {
        s
    } else {
        match last_move(s) {
            Some(m) => without_moves(s).push(m),
            None => without_moves(s),
        }
    }
}

fn cursor_move(i: &EditorInput) -> (r: bool)
    ensures
        r == is_cursor_move(*i),
{
    match i {
        EditorInput::Cursor { event: CursorEvent::Move, .. } => true,
        _ => false,
    }
}

/// Orders the inputs gathered in one frame for handling.
pub fn coalesce_inputs(inputs: Vec<EditorInput>, dragging: bool) -> (r: Vec<EditorInput>)
    ensures
        r@ == spec_coalesce(inputs@, dragging),
{
    if !dragging {
        return inputs;
    }
    let mut out: Vec<EditorInput> = Vec::new();
    let mut latest: Option<EditorInput> = None;
    let n = inputs.len();
    let mut i: usize = 0;
    while i < n
        invariant
            n == inputs@.len(),
            i <= n,
            out@ == without_moves(inputs@.take(i as int)),
            latest == last_move(inputs@.take(i as int)),
        decreases n - i,
    {
        let input = inputs[i];
        proof {
            assert(inputs@.take(i + 1).drop_last() =~= inputs@.take(i as int));
            assert(inputs@.take(i + 1).last() == input);
        }
        if cursor_move(&input) {
            latest = Some(input);
        } else {
            out.push(input);
        }
        i = i + 1;
    }
    proof {
        assert(inputs@.take(n as int) =~= inputs@);
    }
    if let Some(m) = latest {
        out.push(m);
    }
    out
}

/// Without a drag, no input is dropped or reordered; during a drag, at most
/// one pointer move is kept.
pub proof fn lemma_coalesce_keeps_other_inputs(s: Seq<EditorInput>)
    ensures
        spec_coalesce(s, false) == s,
        forall|i: int| 0 <= i < without_moves(s).len() ==> !is_cursor_move(#[trigger] without_moves(s)[i]),
        spec_coalesce(s, true).len() <= without_moves(s).len() + 1,
    decreases s.len(),
{
    if s.len() > 0 {
        lemma_coalesce_keeps_other_inputs(s.drop_last());
    }
}

impl IngameOverlay {
    /// Saves the edited settings after the shell changed a typed-in value:
    /// they are normalized and handed out as pending.
    pub fn save_edit(&mut self)
        ensures
            pending_normalized(old(self)@) ==> pending_normalized(final(self)@),
            old(self)@.settings matches Some((s, p)) ==> final(self)@ == (IngameView {
                settings: Some((spec_normalized(s), p)),
                pending: Some((spec_normalized(s), p)),
                ..old(self)@
            }),
            old(self)@.settings is None ==> final(self)@ == old(self)@,
    {
        if let Some(mut e) = self.editor_settings.take() {
            let s = copy_settings(&e.settings);
            e.settings = s.normalized();
            self.pending_settings = Some(copy_edited(&e));
            self.editor_settings = Some(e);
        }
    }

    /// Sets a typed-in position (`X`, `Y`) or size (`Width`, `Height`, at
    /// least one) of the selected panel; other fields are the shell's.
    pub fn set_typed_value(&mut self, field: EditorField, position: i32, size: u32)
        ensures
            pending_normalized(old(self)@) ==> pending_normalized(final(self)@),
            old(self)@.settings is None ==> final(self)@ == old(self)@,
            old(self)@.settings matches Some((s, p)) ==> {
                let item = crate::overlay::panels::spec_element_settings(p, old(self)@.selected);
                let item2 = match field {
                    EditorField::X => crate::overlay::panels::OverlayElementSettings { x: position, ..item },
                    EditorField::Y => crate::overlay::panels::OverlayElementSettings { y: position, ..item },
                    EditorField::Width => crate::overlay::panels::OverlayElementSettings {
                        width: if size > 1 { size } else { 1 },
                        ..item
                    },
                    EditorField::Height => crate::overlay::panels::OverlayElementSettings {
                        height: if size > 1 { size } else { 1 },
                        ..item
                    },
                    _ => item,
                };
                final(self)@ == (IngameView {
                    settings: Some(
                        (s, crate::overlay::panels::with_element(p, old(self)@.selected, item2)),
                    ),
                    ..old(self)@
                })
            },
    {
        if let Some(mut e) = self.editor_settings.take() {
            let mut item = crate::overlay::panels::selected_element_settings(
                &e.panels,
                self.selected_element,
            );
            match field {
                EditorField::X => item.x = position,
                EditorField::Y => item.y = position,
                EditorField::Width => item.width = if size > 1 { size } else { 1 },
                EditorField::Height => item.height = if size > 1 { size } else { 1 },
                _ => {},
            }
            crate::overlay::panels::replace_element(&mut e.panels, self.selected_element, item);
            self.editor_settings = Some(e);
        }
    }
}

/// Name of the field being typed in, for frame keys.
pub open spec fn field_key(field: Option<EditorField>) -> Seq<char> {
    match field {
        Some(EditorField::Opacity) => "opacity"@,
        Some(EditorField::Scale) => "scale"@,
        Some(EditorField::FontScale) => "font"@,
        Some(EditorField::X) => "x"@,
        Some(EditorField::Y) => "y"@,
        Some(EditorField::Width) => "width"@,
        Some(EditorField::Height) => "height"@,
        None => "none"@,
    }
}

pub fn editing_field_key(field: Option<EditorField>) -> (r: &'static str)
    ensures
        r@ == field_key(field),
{
    match field {
        Some(EditorField::Opacity) => "opacity",
        Some(EditorField::Scale) => "scale",
        Some(EditorField::FontScale) => "font",
        Some(EditorField::X) => "x",
        Some(EditorField::Y) => "y",
        Some(EditorField::Width) => "width",
        Some(EditorField::Height) => "height",
        None => "none",
    }
}

/// The text shown in a value box: the typed text with a caret while that
/// field is being edited, else the current value.
pub open spec fn spec_editor_value_text(
    editing: Option<EditorField>,
    buffer: Seq<char>,
    field: EditorField,
    fallback: Seq<char>,
) -> Seq<char> {
    if editing == Some(field) {
        buffer.push('|')
    } else {
        fallback
    }
}

pub fn editor_value_text(
    editing_field: Option<EditorField>,
    edit_buffer: &str,
    field: EditorField,
    fallback: &str,
) -> (r: String)
    ensures
        r@ == spec_editor_value_text(editing_field, edit_buffer@, field, fallback@),
{
    if editing_field == Some(field) {
        let mut s = crate::text::owned(edit_buffer);
        push_char(&mut s, '|');
        s
    } else {
        crate::text::owned(fallback)
    }
}

/// The value box under a point of the editor bar. The compact bar has none.
pub fn editor_value_field_at(x: i32, y: i32) -> (r: Option<EditorField>)
    ensures
        r is None,
{
    let _ = (x, y);
    None
}

} // verus!
