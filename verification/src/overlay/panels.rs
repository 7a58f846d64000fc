//! The HUD's panels: which are shown, where they sit, what the editor's
//! pointer hits, and how clicks and drags change them.

use vstd::prelude::*;

use crate::models::{OverlaySettings, OverlaySettingsView};
use crate::overlay::geometry::{in_rect, sat_add, saturating_add, saturating_sub, sat_sub, spec_in_rect, max_int, min_int};

verus! {

/// A part of the HUD the editor can select.
#[derive(Clone, Copy, Debug, PartialEq, Eq, Structural)]
pub enum OverlayElement {
    Whole,
    Pp,
    Stats,
    Hits,
    Beatmap,
}

/// Place, size and visibility of one HUD panel, relative to the HUD offset.
/// Its fractional scale and font scale travel beside it in the desktop shell.
#[derive(Clone, Copy, Debug, PartialEq, Eq, Structural)]
pub struct OverlayElementSettings {
    pub enabled: bool,
    pub show_background: bool,
    pub x: i32,
    pub y: i32,
    pub width: u32,
    pub height: u32,
}

/// The four separately placed HUD panels.
#[derive(Clone, Copy, Debug, PartialEq, Eq, Structural)]
pub struct OverlayPanels {
    pub pp_panel: OverlayElementSettings,
    pub stats_panel: OverlayElementSettings,
    pub hits_panel: OverlayElementSettings,
    pub map_panel: OverlayElementSettings,
}

/// Whether the settings ask for the stats panel (any of its metrics).
pub open spec fn shows_stats(s: OverlaySettingsView) -> bool {
    s.show_if_fc || s.show_accuracy || s.show_combo || s.show_mods
}

/// Whether the settings ask for an element.
pub open spec fn spec_element_visible(s: OverlaySettingsView, e: OverlayElement) -> bool {
    match e {
        OverlayElement::Pp => s.show_pp,
        OverlayElement::Stats => shows_stats(s),
        OverlayElement::Hits => s.show_hits,
        OverlayElement::Beatmap => s.show_map,
        OverlayElement::Whole => true,
    }
}

pub fn element_visible(s: &OverlaySettings, e: OverlayElement) -> (r: bool)
    ensures
        r == spec_element_visible(s@, e),
{
    match e {
        OverlayElement::Pp => s.show_pp,
        OverlayElement::Stats => s.show_if_fc || s.show_accuracy || s.show_combo || s.show_mods,
        OverlayElement::Hits => s.show_hits,
        OverlayElement::Beatmap => s.show_map,
        OverlayElement::Whole => true,
    }
}

/// The panel an element edits; the whole HUD edits the PP panel.
pub open spec fn spec_element_settings(p: OverlayPanels, e: OverlayElement) -> OverlayElementSettings {
    match e {
        OverlayElement::Whole | OverlayElement::Pp => p.pp_panel,
        OverlayElement::Stats => p.stats_panel,
        OverlayElement::Hits => p.hits_panel,
        OverlayElement::Beatmap => p.map_panel,
    }
}

pub fn selected_element_settings(p: &OverlayPanels, e: OverlayElement) -> (r: OverlayElementSettings)
    ensures
        r == spec_element_settings(*p, e),
{
    match e {
        OverlayElement::Whole | OverlayElement::Pp => p.pp_panel,
        OverlayElement::Stats => p.stats_panel,
        OverlayElement::Hits => p.hits_panel,
        OverlayElement::Beatmap => p.map_panel,
    }
}

/// `p` with the panel of `e` replaced by `item`.
pub open spec fn with_element(p: OverlayPanels, e: OverlayElement, item: OverlayElementSettings) -> OverlayPanels {
    match e {
        OverlayElement::Whole | OverlayElement::Pp => OverlayPanels { pp_panel: item, ..p },
        OverlayElement::Stats => OverlayPanels { stats_panel: item, ..p },
        OverlayElement::Hits => OverlayPanels { hits_panel: item, ..p },
        OverlayElement::Beatmap => OverlayPanels { map_panel: item, ..p },
    }
}

pub fn replace_element(p: &mut OverlayPanels, e: OverlayElement, item: OverlayElementSettings)
    ensures
        *final(p) == with_element(*old(p), e, item),
{
    match e {
        OverlayElement::Whole | OverlayElement::Pp => p.pp_panel = item,
        OverlayElement::Stats => p.stats_panel = item,
        OverlayElement::Hits => p.hits_panel = item,
        OverlayElement::Beatmap => p.map_panel = item,
    }
}

/// Name of an element in the editor bar.
pub open spec fn element_label(e: OverlayElement) -> Seq<char> {
    match e {
        OverlayElement::Whole => "Overlay"@,
        OverlayElement::Pp => "PP"@,
        OverlayElement::Stats => "Stats"@,
        OverlayElement::Hits => "Hits"@,
        OverlayElement::Beatmap => "Map"@,
    }
}

pub fn selected_element_label(e: OverlayElement) -> (r: &'static str)
    ensures
        r@ == element_label(e),
{
    match e {
        OverlayElement::Whole => "Overlay",
        OverlayElement::Pp => "PP",
        OverlayElement::Stats => "Stats",
        OverlayElement::Hits => "Hits",
        OverlayElement::Beatmap => "Map",
    }
}

/// Whether an element is drawn: asked for by the settings and enabled as a panel.
pub open spec fn is_active(s: OverlaySettingsView, p: OverlayPanels, e: OverlayElement) -> bool {
    spec_element_visible(s, e) && spec_element_settings(p, e).enabled
}

/// Screen position of a panel: the HUD offset plus the panel's, saturating.
pub open spec fn panel_left(s: OverlaySettingsView, item: OverlayElementSettings) -> i32 {
    sat_add(s.offset_x, item.x)
}

pub open spec fn panel_top(s: OverlaySettingsView, item: OverlayElementSettings) -> i32 {
    sat_add(s.offset_y, item.y)
}

/// Right and bottom edges of a panel, as the overlay computes them (widths as `i32`).
pub open spec fn panel_right(s: OverlaySettingsView, item: OverlayElementSettings) -> int {
    panel_left(s, item) + (item.width as i32)
}

pub open spec fn panel_bottom(s: OverlaySettingsView, item: OverlayElementSettings) -> int {
    panel_top(s, item) + (item.height as i32)
}

pub open spec fn base_right(s: OverlaySettingsView) -> int {
    s.offset_x + (s.width as i32)
}

pub open spec fn base_bottom(s: OverlaySettingsView) -> int {
    s.offset_y + (s.height as i32)
}

pub open spec fn fits_i32(v: int) -> bool {
    i32::MIN <= v <= i32::MAX
}

/// Whether a panel's far edges fit in `i32`.
pub open spec fn panel_fits(s: OverlaySettingsView, item: OverlayElementSettings) -> bool {
    fits_i32(panel_right(s, item)) && fits_i32(panel_bottom(s, item))
}

/// Left, top, right, bottom of the HUD and its active panels together.
pub open spec fn span_step(
    acc: (int, int, int, int),
    active: bool,
    s: OverlaySettingsView,
    item: OverlayElementSettings,
) -> (int, int, int, int) {
    if active {
        (
            min_int(acc.0, panel_left(s, item) as int),
            min_int(acc.1, panel_top(s, item) as int),
            max_int(acc.2, panel_right(s, item)),
            max_int(acc.3, panel_bottom(s, item)),
        )
    } else {
        acc
    }
}

pub open spec fn hud_span(s: OverlaySettingsView, p: OverlayPanels) -> (int, int, int, int) {
    let a0 = (s.offset_x as int, s.offset_y as int, base_right(s), base_bottom(s));
    let a1 = span_step(a0, is_active(s, p, OverlayElement::Pp), s, p.pp_panel);
    let a2 = span_step(a1, is_active(s, p, OverlayElement::Stats), s, p.stats_panel);
    let a3 = span_step(a2, is_active(s, p, OverlayElement::Hits), s, p.hits_panel);
    span_step(a3, is_active(s, p, OverlayElement::Beatmap), s, p.map_panel)
}

/// Whether the arithmetic of the HUD bounds stays within `i32`.
pub open spec fn bounds_fit(s: OverlaySettingsView, p: OverlayPanels) -> bool {
    &&& fits_i32(base_right(s))
    &&& fits_i32(base_bottom(s))
    &&& is_active(s, p, OverlayElement::Pp) ==> panel_fits(s, p.pp_panel)
    &&& is_active(s, p, OverlayElement::Stats) ==> panel_fits(s, p.stats_panel)
    &&& is_active(s, p, OverlayElement::Hits) ==> panel_fits(s, p.hits_panel)
    &&& is_active(s, p, OverlayElement::Beatmap) ==> panel_fits(s, p.map_panel)
    &&& fits_i32(hud_span(s, p).2 - hud_span(s, p).0)
    &&& fits_i32(hud_span(s, p).3 - hud_span(s, p).1)
}

/// The HUD's bounding box: `(left, top, width, height)`, each size at least one.
pub open spec fn spec_overlay_bounds(s: OverlaySettingsView, p: OverlayPanels) -> (i32, i32, u32, u32) {
    let sp = hud_span(s, p);
    (
        sp.0 as i32,
        sp.1 as i32,
        max_int(sp.2 - sp.0, 1) as u32,
        max_int(sp.3 - sp.1, 1) as u32,
    )
}

fn extend_span(
    acc: (i32, i32, i32, i32),
    active: bool,
    s: &OverlaySettings,
    item: &OverlayElementSettings,
) -> (r: (i32, i32, i32, i32))
    requires
        active ==> panel_fits(s@, *item),
    ensures
        (r.0 as int, r.1 as int, r.2 as int, r.3 as int) == span_step(
            (acc.0 as int, acc.1 as int, acc.2 as int, acc.3 as int),
            active,
            s@,
            *item,
        ),
{
    if !active {
        return acc;
    }
    let left = saturating_add(s.offset_x, item.x);
    let top = saturating_add(s.offset_y, item.y);
    let right = left + item.width as i32;
    let bottom = top + item.height as i32;
    (
        if left < acc.0 { left } else { acc.0 },
        if top < acc.1 { top } else { acc.1 },
        if right > acc.2 { right } else { acc.2 },
        if bottom > acc.3 { bottom } else { acc.3 },
    )
}

/// The box drawn in game: the HUD rectangle grown to every shown panel.
pub fn overlay_bounds(s: &OverlaySettings, p: &OverlayPanels) -> (r: (i32, i32, u32, u32))
    requires
        bounds_fit(s@, *p),
    ensures
        r == spec_overlay_bounds(s@, *p),
{
    let a0 = (s.offset_x, s.offset_y, s.offset_x + s.width as i32, s.offset_y + s.height as i32);
    let pp = element_visible(s, OverlayElement::Pp) && p.pp_panel.enabled;
    let stats = element_visible(s, OverlayElement::Stats) && p.stats_panel.enabled;
    let hits = element_visible(s, OverlayElement::Hits) && p.hits_panel.enabled;
    let map = element_visible(s, OverlayElement::Beatmap) && p.map_panel.enabled;
    let a1 = extend_span(a0, pp, s, &p.pp_panel);
    let a2 = extend_span(a1, stats, s, &p.stats_panel);
    let a3 = extend_span(a2, hits, s, &p.hits_panel);
    let a4 = extend_span(a3, map, s, &p.map_panel);
    let w = a4.2 - a4.0;
    let h = a4.3 - a4.1;
    (a4.0, a4.1, if w > 1 { w as u32 } else { 1 }, if h > 1 { h as u32 } else { 1 })
}

/// Values that two `i32` terms can reach.
pub open spec fn wide(v: int) -> bool {
    -0x1_0000_0000 <= v <= 0x1_0000_0000
}

fn fits_wide(v: i64) -> (r: bool)
    ensures
        r == fits_i32(v as int),
{
    i32::MIN as i64 <= v && v <= i32::MAX as i64
}

/// Left, top, right and bottom edge of a panel, as wide integers.
fn panel_edges(s: &OverlaySettings, item: &OverlayElementSettings) -> (r: (i64, i64, i64, i64))
    ensures
        r.0 == panel_left(s@, *item) as int,
        r.1 == panel_top(s@, *item) as int,
        r.2 == panel_right(s@, *item),
        r.3 == panel_bottom(s@, *item),
        wide(r.0 as int) && wide(r.1 as int) && wide(r.2 as int) && wide(r.3 as int),
{
    let left = saturating_add(s.offset_x, item.x);
    let top = saturating_add(s.offset_y, item.y);
    let w = item.width as i32;
    let h = item.height as i32;
    (left as i64, top as i64, left as i64 + w as i64, top as i64 + h as i64)
}

fn wide_span_step(
    acc: (i64, i64, i64, i64),
    active: bool,
    s: &OverlaySettings,
    item: &OverlayElementSettings,
) -> (r: (i64, i64, i64, i64))
    requires
        wide(acc.0 as int) && wide(acc.1 as int) && wide(acc.2 as int) && wide(acc.3 as int),
    ensures
        (r.0 as int, r.1 as int, r.2 as int, r.3 as int) == span_step(
            (acc.0 as int, acc.1 as int, acc.2 as int, acc.3 as int),
            active,
            s@,
            *item,
        ),
        wide(r.0 as int) && wide(r.1 as int) && wide(r.2 as int) && wide(r.3 as int),
{
    if !active {
        return acc;
    }
    let e = panel_edges(s, item);
    (
        if e.0 < acc.0 { e.0 } else { acc.0 },
        if e.1 < acc.1 { e.1 } else { acc.1 },
        if e.2 > acc.2 { e.2 } else { acc.2 },
        if e.3 > acc.3 { e.3 } else { acc.3 },
    )
}

/// Whether the HUD bounds of these settings and panels stay within `i32`,
/// so that [`overlay_bounds`] may be called.
pub fn bounds_in_range(s: &OverlaySettings, p: &OverlayPanels) -> (r: bool)
    ensures
        r == bounds_fit(s@, *p),
{
    let base_right = s.offset_x as i64 + (s.width as i32) as i64;
    let base_bottom = s.offset_y as i64 + (s.height as i32) as i64;
    let pp = element_visible(s, OverlayElement::Pp) && p.pp_panel.enabled;
    let stats = element_visible(s, OverlayElement::Stats) && p.stats_panel.enabled;
    let hits = element_visible(s, OverlayElement::Hits) && p.hits_panel.enabled;
    let map = element_visible(s, OverlayElement::Beatmap) && p.map_panel.enabled;
    let e_pp = panel_edges(s, &p.pp_panel);
    let e_stats = panel_edges(s, &p.stats_panel);
    let e_hits = panel_edges(s, &p.hits_panel);
    let e_map = panel_edges(s, &p.map_panel);
    let a0 = (s.offset_x as i64, s.offset_y as i64, base_right, base_bottom);
    let a1 = wide_span_step(a0, pp, s, &p.pp_panel);
    let a2 = wide_span_step(a1, stats, s, &p.stats_panel);
    let a3 = wide_span_step(a2, hits, s, &p.hits_panel);
    let a4 = wide_span_step(a3, map, s, &p.map_panel);
    fits_wide(base_right) && fits_wide(base_bottom) && (!pp || (fits_wide(e_pp.2) && fits_wide(
        e_pp.3,
    ))) && (!stats || (fits_wide(e_stats.2) && fits_wide(e_stats.3))) && (!hits || (fits_wide(
        e_hits.2,
    ) && fits_wide(e_hits.3))) && (!map || (fits_wide(e_map.2) && fits_wide(e_map.3)))
        && fits_wide(a4.2 - a4.0) && fits_wide(a4.3 - a4.1)
}

proof fn lemma_span_step_grows(
    acc: (int, int, int, int),
    active: bool,
    s: OverlaySettingsView,
    item: OverlayElementSettings,
)
    ensures
        ({
            let n = span_step(acc, active, s, item);
            &&& n.0 <= acc.0 && n.1 <= acc.1 && acc.2 <= n.2 && acc.3 <= n.3
            &&& active ==> n.0 <= panel_left(s, item) && n.1 <= panel_top(s, item) && panel_right(
                s,
                item,
            ) <= n.2 && panel_bottom(s, item) <= n.3
        }),
{
}

/// Whether the box at `(x, y)` of size `w` x `h` lies inside the box `outer`.
pub open spec fn box_within(x: int, y: int, w: int, h: int, outer: (i32, i32, u32, u32)) -> bool {
    outer.0 <= x && outer.1 <= y && x + w <= outer.0 + outer.2 && y + h <= outer.1 + outer.3
}

/// The bounds hold the HUD rectangle and every panel that is drawn.
pub proof fn lemma_bounds_contain_hud_and_panels(s: OverlaySettingsView, p: OverlayPanels, e: OverlayElement)
    requires
        bounds_fit(s, p),
        e != OverlayElement::Whole,
        is_active(s, p, e),
    ensures
        box_within(
            s.offset_x as int,
            s.offset_y as int,
            (s.width as i32) as int,
            (s.height as i32) as int,
            spec_overlay_bounds(s, p),
        ),
        box_within(
            panel_left(s, spec_element_settings(p, e)) as int,
            panel_top(s, spec_element_settings(p, e)) as int,
            (spec_element_settings(p, e).width as i32) as int,
            (spec_element_settings(p, e).height as i32) as int,
            spec_overlay_bounds(s, p),
        ),
{
    let a0 = (s.offset_x as int, s.offset_y as int, base_right(s), base_bottom(s));
    let a1 = span_step(a0, is_active(s, p, OverlayElement::Pp), s, p.pp_panel);
    let a2 = span_step(a1, is_active(s, p, OverlayElement::Stats), s, p.stats_panel);
    let a3 = span_step(a2, is_active(s, p, OverlayElement::Hits), s, p.hits_panel);
    lemma_span_step_grows(a0, is_active(s, p, OverlayElement::Pp), s, p.pp_panel);
    lemma_span_step_grows(a1, is_active(s, p, OverlayElement::Stats), s, p.stats_panel);
    lemma_span_step_grows(a2, is_active(s, p, OverlayElement::Hits), s, p.hits_panel);
    lemma_span_step_grows(a3, is_active(s, p, OverlayElement::Beatmap), s, p.map_panel);
}

} // verus!

verus! {

/// What a drag in the editor does to the grabbed element.
#[derive(Clone, Copy, Debug, PartialEq, Eq, Structural)]
pub enum DragMode {
    Move,
    Resize,
}

/// Whether the pointer is over a drawn panel.
pub open spec fn panel_hit(s: OverlaySettingsView, p: OverlayPanels, e: OverlayElement, x: i32, y: i32) -> bool {
    let item = spec_element_settings(p, e);
    is_active(s, p, e) && spec_in_rect(
        x as int,
        y as int,
        panel_left(s, item) as int,
        panel_top(s, item) as int,
        (item.width as i32) as int,
        (item.height as i32) as int,
    )
}

/// The grab of a hit panel: near its right or bottom edge it resizes, else it moves.
pub open spec fn panel_grab(s: OverlaySettingsView, p: OverlayPanels, e: OverlayElement, x: i32, y: i32) -> (
    OverlayElement,
    DragMode,
    i32,
    i32,
    u32,
    u32,
) {
    let item = spec_element_settings(p, e);
    let mode = if x >= panel_right(s, item) - 18 || y >= panel_bottom(s, item) - 18 {
        DragMode::Resize
    } else {
        DragMode::Move
    };
    (e, mode, item.x, item.y, item.width, item.height)
}

/// The element under the pointer, topmost first (map, hits, stats, PP), else
/// the HUD rectangle itself.
pub open spec fn spec_hit_test(s: OverlaySettingsView, p: OverlayPanels, x: i32, y: i32) -> Option<
    (OverlayElement, DragMode, i32, i32, u32, u32),
> {
    if panel_hit(s, p, OverlayElement::Beatmap, x, y) {
        Some(panel_grab(s, p, OverlayElement::Beatmap, x, y))
    } else if panel_hit(s, p, OverlayElement::Hits, x, y) {
        Some(panel_grab(s, p, OverlayElement::Hits, x, y))
    } else if panel_hit(s, p, OverlayElement::Stats, x, y) {
        Some(panel_grab(s, p, OverlayElement::Stats, x, y))
    } else if panel_hit(s, p, OverlayElement::Pp, x, y) {
        Some(panel_grab(s, p, OverlayElement::Pp, x, y))
    } else if spec_in_rect(
        x as int,
        y as int,
        s.offset_x as int,
        s.offset_y as int,
        (s.width as i32) as int,
        (s.height as i32) as int,
    ) {
        Some((OverlayElement::Whole, DragMode::Move, s.offset_x, s.offset_y, s.width, s.height))
    } else {
        None
    }
}

/// Whether the arithmetic of a hit test on a panel stays within `i32`.
pub open spec fn grab_fits(s: OverlaySettingsView, p: OverlayPanels, e: OverlayElement) -> bool {
    let item = spec_element_settings(p, e);
    is_active(s, p, e) ==> panel_fits(s, item) && fits_i32(panel_right(s, item) - 18) && fits_i32(
        panel_bottom(s, item) - 18,
    )
}

pub open spec fn hit_test_fits(s: OverlaySettingsView, p: OverlayPanels, x: i32, y: i32) -> bool {
    &&& grab_fits(s, p, OverlayElement::Beatmap)
    &&& grab_fits(s, p, OverlayElement::Hits)
    &&& grab_fits(s, p, OverlayElement::Stats)
    &&& grab_fits(s, p, OverlayElement::Pp)
    &&& (!panel_hit(s, p, OverlayElement::Beatmap, x, y) && !panel_hit(s, p, OverlayElement::Hits, x, y)
        && !panel_hit(s, p, OverlayElement::Stats, x, y) && !panel_hit(s, p, OverlayElement::Pp, x, y))
        ==> fits_i32(base_right(s)) && fits_i32(base_bottom(s))
}

fn try_grab(
    s: &OverlaySettings,
    p: &OverlayPanels,
    e: OverlayElement,
    x: i32,
    y: i32,
) -> (r: Option<(OverlayElement, DragMode, i32, i32, u32, u32)>)
    requires
        e != OverlayElement::Whole,
        grab_fits(s@, *p, e),
    ensures
        r == (if panel_hit(s@, *p, e, x, y) {
            Some(panel_grab(s@, *p, e, x, y))
        } else {
            None
        }),
{
    let item = selected_element_settings(p, e);
    if !(element_visible(s, e) && item.enabled) {
        return None;
    }
    let element_x = saturating_add(s.offset_x, item.x);
    let element_y = saturating_add(s.offset_y, item.y);
    if !in_rect(x, y, element_x, element_y, item.width as i32, item.height as i32) {
        return None;
    }
    let edge: i32 = 18;
    let near_right = x >= element_x + item.width as i32 - edge;
    let near_bottom = y >= element_y + item.height as i32 - edge;
    let mode = if near_right || near_bottom {
        DragMode::Resize
    } else {
        DragMode::Move
    };
    Some((e, mode, item.x, item.y, item.width, item.height))
}

/// Finds what the editor's pointer grabs at screen point `(x, y)`.
pub fn hit_test_overlay_element(s: &OverlaySettings, p: &OverlayPanels, x: i32, y: i32) -> (r: Option<
    (OverlayElement, DragMode, i32, i32, u32, u32),
>)
    requires
        hit_test_fits(s@, *p, x, y),
    ensures
        r == spec_hit_test(s@, *p, x, y),
{
    let hit = try_grab(s, p, OverlayElement::Beatmap, x, y);
    if hit.is_some() {
        return hit;
    }
    let hit = try_grab(s, p, OverlayElement::Hits, x, y);
    if hit.is_some() {
        return hit;
    }
    let hit = try_grab(s, p, OverlayElement::Stats, x, y);
    if hit.is_some() {
        return hit;
    }
    let hit = try_grab(s, p, OverlayElement::Pp, x, y);
    if hit.is_some() {
        return hit;
    }
    if in_rect(x, y, s.offset_x, s.offset_y, s.width as i32, s.height as i32) {
        return Some((OverlayElement::Whole, DragMode::Move, s.offset_x, s.offset_y, s.width, s.height));
    }
    None
}

fn grab_in_range(s: &OverlaySettings, p: &OverlayPanels, e: OverlayElement) -> (r: bool)
    ensures
        r == grab_fits(s@, *p, e),
{
    let item = selected_element_settings(p, e);
    if !(element_visible(s, e) && item.enabled) {
        return true;
    }
    let edges = panel_edges(s, &item);
    fits_wide(edges.2) && fits_wide(edges.3) && fits_wide(edges.2 - 18) && fits_wide(edges.3 - 18)
}

fn hit_wide(s: &OverlaySettings, p: &OverlayPanels, e: OverlayElement, x: i32, y: i32) -> (r: bool)
    ensures
        r == panel_hit(s@, *p, e, x, y),
{
    let item = selected_element_settings(p, e);
    if !(element_visible(s, e) && item.enabled) {
        return false;
    }
    let edges = panel_edges(s, &item);
    let (x, y) = (x as i64, y as i64);
    x >= edges.0 && x < edges.2 && y >= edges.1 && y < edges.3
}

/// Whether a hit test at `(x, y)` stays within `i32`, so that
/// [`hit_test_overlay_element`] may be called.
pub fn hit_test_in_range(s: &OverlaySettings, p: &OverlayPanels, x: i32, y: i32) -> (r: bool)
    ensures
        r == hit_test_fits(s@, *p, x, y),
{
    let panels_fit = grab_in_range(s, p, OverlayElement::Beatmap) && grab_in_range(
        s,
        p,
        OverlayElement::Hits,
    ) && grab_in_range(s, p, OverlayElement::Stats) && grab_in_range(s, p, OverlayElement::Pp);
    let on_panel = hit_wide(s, p, OverlayElement::Beatmap, x, y) || hit_wide(
        s,
        p,
        OverlayElement::Hits,
        x,
        y,
    ) || hit_wide(s, p, OverlayElement::Stats, x, y) || hit_wide(s, p, OverlayElement::Pp, x, y);
    let base_fits = fits_wide(s.offset_x as i64 + (s.width as i32) as i64) && fits_wide(
        s.offset_y as i64 + (s.height as i32) as i64,
    );
    panels_fit && (on_panel || base_fits)
}

/// A grab of a drawn panel resizes it exactly when the pointer lies within
/// 18 pixels of the panel's right or bottom edge (on screen, at the HUD
/// offset plus the panel's position), and moves it otherwise; the grab
/// starts from the panel's own position and size. A grab of the HUD
/// rectangle itself always moves it.
pub proof fn lemma_grab_mode_follows_edges(s: OverlaySettingsView, p: OverlayPanels, x: i32, y: i32)
    ensures
        spec_hit_test(s, p, x, y) matches Some(g) ==> {
            let item = spec_element_settings(p, g.0);
            let left = sat_add(s.offset_x, item.x) as int;
            let top = sat_add(s.offset_y, item.y) as int;
            if g.0 == OverlayElement::Whole {
                g.1 == DragMode::Move && g.2 == s.offset_x && g.3 == s.offset_y && g.4 == s.width
                    && g.5 == s.height
            } else {
                &&& (g.1 == DragMode::Resize) == (x >= left + (item.width as i32) - 18 || y >= top
                    + (item.height as i32) - 18)
                &&& g.2 == item.x && g.3 == item.y && g.4 == item.width && g.5 == item.height
            }
        },
{
}

/// A grabbed panel always lies under the pointer, and a grab of the whole HUD
/// happens only where no drawn panel is.
pub proof fn lemma_hit_is_under_pointer(s: OverlaySettingsView, p: OverlayPanels, x: i32, y: i32)
    ensures
        spec_hit_test(s, p, x, y) matches Some(g) ==> (if g.0 == OverlayElement::Whole {
            spec_in_rect(
                x as int,
                y as int,
                s.offset_x as int,
                s.offset_y as int,
                (s.width as i32) as int,
                (s.height as i32) as int,
            ) && !panel_hit(s, p, OverlayElement::Pp, x, y) && !panel_hit(s, p, OverlayElement::Stats, x, y)
                && !panel_hit(s, p, OverlayElement::Hits, x, y) && !panel_hit(s, p, OverlayElement::Beatmap, x, y)
        } else {
            panel_hit(s, p, g.0, x, y)
        }),
{
}

} // verus!

verus! {

/// Where a drag started and what it grabbed.
#[derive(Clone, Copy, Debug, PartialEq, Eq, Structural)]
pub struct DragOrigin {
    pub element: OverlayElement,
    pub mode: DragMode,
    pub cursor_x: i32,
    pub cursor_y: i32,
    pub offset_x: i32,
    pub offset_y: i32,
    pub width: u32,
    pub height: u32,
}

/// Moves an element: the whole HUD by its offset, a panel by its own position.
pub fn set_overlay_element_position(
    s: &mut OverlaySettings,
    p: &mut OverlayPanels,
    element: OverlayElement,
    x: i32,
    y: i32,
)
    ensures
        element == OverlayElement::Whole ==> final(s)@ == (crate::models::OverlaySettingsView {
            offset_x: x,
            offset_y: y,
            ..old(s)@
        }) && *final(p) == *old(p),
        element != OverlayElement::Whole ==> final(s)@ == old(s)@ && *final(p) == with_element(
            *old(p),
            element,
            OverlayElementSettings { x, y, ..spec_element_settings(*old(p), element) },
        ),
{
    match element {
        OverlayElement::Whole => {
            s.offset_x = x;
            s.offset_y = y;
        },
        _ => {
            let mut item = selected_element_settings(p, element);
            item.x = x;
            item.y = y;
            replace_element(p, element, item);
        },
    }
}

/// The settings and panels after a drag step.
pub open spec fn spec_drag(
    s: OverlaySettingsView,
    p: OverlayPanels,
    drag: DragOrigin,
    delta_x: i32,
    delta_y: i32,
    next_x: i32,
    next_y: i32,
) -> (OverlaySettingsView, OverlayPanels) {
    match drag.mode {
        DragMode::Move => if drag.element == OverlayElement::Whole {
            (OverlaySettingsView { offset_x: next_x, offset_y: next_y, ..s }, p)
        } else {
            (
                s,
                with_element(
                    p,
                    drag.element,
                    OverlayElementSettings { x: next_x, y: next_y, ..spec_element_settings(p, drag.element) },
                ),
            )
        },
        DragMode::Resize => (
            s,
            with_element(
                p,
                drag.element,
                OverlayElementSettings {
                    width: max_int((drag.width as i32) + delta_x, 24) as u32,
                    height: max_int((drag.height as i32) + delta_y, 14) as u32,
                    ..spec_element_settings(p, drag.element)
                },
            ),
        ),
    }
}

/// Applies a drag step: a move places the element at `(next_x, next_y)`; a
/// resize grows the grabbed size by the pointer delta, to at least 24 x 14.
pub fn apply_overlay_drag(
    s: &mut OverlaySettings,
    p: &mut OverlayPanels,
    drag: DragOrigin,
    delta_x: i32,
    delta_y: i32,
    next_x: i32,
    next_y: i32,
)
    requires
        drag.mode == DragMode::Resize ==> fits_i32((drag.width as i32) + delta_x) && fits_i32(
            (drag.height as i32) + delta_y,
        ),
    ensures
        (final(s)@, *final(p)) == spec_drag(old(s)@, *old(p), drag, delta_x, delta_y, next_x, next_y),
{
    match drag.mode {
        DragMode::Move => set_overlay_element_position(s, p, drag.element, next_x, next_y),
        DragMode::Resize => {
            let w = drag.width as i32 + delta_x;
            let h = drag.height as i32 + delta_y;
            let mut item = selected_element_settings(p, drag.element);
            item.width = if w > 24 { w as u32 } else { 24 };
            item.height = if h > 14 { h as u32 } else { 14 };
            replace_element(p, drag.element, item);
        },
    }
}

/// Left edge of an element's tab in the editor bar.
pub open spec fn tab_x(e: OverlayElement) -> int {
    match e {
        OverlayElement::Pp => 148,
        OverlayElement::Stats => 216,
        OverlayElement::Hits => 296,
        OverlayElement::Beatmap => 372,
        OverlayElement::Whole => 0,
    }
}

pub open spec fn on_tab(e: OverlayElement, x: i32, y: i32) -> bool {
    spec_in_rect(x as int, y as int, tab_x(e), 14, 62, 34)
}

/// The settings and panels after switching an element's panel on or off.
pub open spec fn spec_toggle_element(s: OverlaySettingsView, p: OverlayPanels, e: OverlayElement) -> (
    OverlaySettingsView,
    OverlayPanels,
) {
    match e {
        OverlayElement::Pp => {
            let next = !(s.show_pp && p.pp_panel.enabled);
            (
                OverlaySettingsView { show_pp: next, ..s },
                OverlayPanels { pp_panel: OverlayElementSettings { enabled: next, ..p.pp_panel }, ..p },
            )
        },
        OverlayElement::Stats => {
            let next = !(p.stats_panel.enabled && shows_stats(s));
            (
                OverlaySettingsView {
                    show_if_fc: next,
                    show_accuracy: next,
                    show_combo: next,
                    show_mods: next,
                    ..s
                },
                OverlayPanels {
                    stats_panel: OverlayElementSettings { enabled: next, ..p.stats_panel },
                    ..p
                },
            )
        },
        OverlayElement::Hits => {
            let next = !(s.show_hits && p.hits_panel.enabled);
            (
                OverlaySettingsView { show_hits: next, ..s },
                OverlayPanels {
                    hits_panel: OverlayElementSettings { enabled: next, ..p.hits_panel },
                    ..p
                },
            )
        },
        OverlayElement::Beatmap => {
            let next = !(s.show_map && p.map_panel.enabled);
            (
                OverlaySettingsView { show_map: next, ..s },
                OverlayPanels { map_panel: OverlayElementSettings { enabled: next, ..p.map_panel }, ..p },
            )
        },
        OverlayElement::Whole => (s, p),
    }
}

/// The effect of a click in the editor bar at bar coordinates `(x, y)`:
/// new settings, panels and selection, and whether anything happened.
pub open spec fn spec_editor_click(
    s: OverlaySettingsView,
    p: OverlayPanels,
    selected: OverlayElement,
    x: i32,
    y: i32,
) -> (OverlaySettingsView, OverlayPanels, OverlayElement, bool) {
    let tab = if on_tab(OverlayElement::Pp, x, y) {
        Some(OverlayElement::Pp)
    } else if on_tab(OverlayElement::Stats, x, y) {
        Some(OverlayElement::Stats)
    } else if on_tab(OverlayElement::Hits, x, y) {
        Some(OverlayElement::Hits)
    } else if on_tab(OverlayElement::Beatmap, x, y) {
        Some(OverlayElement::Beatmap)
    } else {
        None
    };
    match tab {
        Some(e) => if selected == e {
            let (s2, p2) = spec_toggle_element(s, p, e);
            (s2, p2, selected, true)
        } else {
            (s, p, e, true)
        },
        None => if spec_in_rect(x as int, y as int, 462, 14, 44, 28) {
            let item = spec_element_settings(p, selected);
            (
                s,
                with_element(p, selected, OverlayElementSettings { show_background: !item.show_background, ..item }),
                selected,
                true,
            )
        } else if spec_in_rect(x as int, y as int, 518, 14, 44, 28) {
            (OverlaySettingsView { enabled: !s.enabled, ..s }, p, selected, true)
        } else {
            (s, p, selected, false)
        },
    }
}

fn toggle_element(s: &mut OverlaySettings, p: &mut OverlayPanels, e: OverlayElement)
    ensures
        (final(s)@, *final(p)) == spec_toggle_element(old(s)@, *old(p), e),
{
    match e {
        OverlayElement::Pp => {
            let next = !(s.show_pp && p.pp_panel.enabled);
            s.show_pp = next;
            p.pp_panel.enabled = next;
        },
        OverlayElement::Stats => {
            let next = !(p.stats_panel.enabled && (s.show_if_fc || s.show_accuracy || s.show_combo
                || s.show_mods));
            p.stats_panel.enabled = next;
            s.show_if_fc = next;
            s.show_accuracy = next;
            s.show_combo = next;
            s.show_mods = next;
        },
        OverlayElement::Hits => {
            let next = !(s.show_hits && p.hits_panel.enabled);
            s.show_hits = next;
            p.hits_panel.enabled = next;
        },
        OverlayElement::Beatmap => {
            let next = !(s.show_map && p.map_panel.enabled);
            s.show_map = next;
            p.map_panel.enabled = next;
        },
        OverlayElement::Whole => {},
    }
}

/// Applies a click in the editor bar: tabs select an element, or switch the
/// selected one on or off; `BG` switches the selected panel's background and
/// `HUD` the whole overlay. Returns whether the click landed on a control.
pub fn apply_editor_click(
    s: &mut OverlaySettings,
    p: &mut OverlayPanels,
    selected: &mut OverlayElement,
    x: i32,
    y: i32,
) -> (r: bool)
    ensures
        (final(s)@, *final(p), *final(selected), r) == spec_editor_click(
            old(s)@,
            *old(p),
            *old(selected),
            x,
            y,
        ),
{
    let tabs = [
        (OverlayElement::Pp, 148i32),
        (OverlayElement::Stats, 216i32),
        (OverlayElement::Hits, 296i32),
        (OverlayElement::Beatmap, 372i32),
    ];
    let mut i: usize = 0;
    while i < 4
        invariant
            i <= 4,
            tabs@ == seq![
                (OverlayElement::Pp, 148i32),
                (OverlayElement::Stats, 216i32),
                (OverlayElement::Hits, 296i32),
                (OverlayElement::Beatmap, 372i32),
            ],
            s@ == old(s)@,
            *p == *old(p),
            *selected == *old(selected),
            forall|j: int| 0 <= j < i ==> !on_tab(#[trigger] tabs@[j].0, x, y),
        decreases 4 - i,
    {
        let (element, bx) = tabs[i];
        if in_rect(x, y, bx, 14, 62, 34) {
            if *selected == element {
                toggle_element(s, p, element);
            } else {
                *selected = element;
            }
            proof {
                assert(tabs@[0].0 == OverlayElement::Pp);
                assert(tabs@[1].0 == OverlayElement::Stats);
                assert(tabs@[2].0 == OverlayElement::Hits);
            }
            return true;
        }
        i = i + 1;
    }
    proof {
        assert(!on_tab(tabs@[0].0, x, y));
        assert(!on_tab(tabs@[1].0, x, y));
        assert(!on_tab(tabs@[2].0, x, y));
        assert(!on_tab(tabs@[3].0, x, y));
    }
    if in_rect(x, y, 462, 14, 44, 28) {
        let mut item = selected_element_settings(p, *selected);
        item.show_background = !item.show_background;
        replace_element(p, *selected, item);
        return true;
    }
    if in_rect(x, y, 518, 14, 44, 28) {
        s.enabled = !s.enabled;
        return true;
    }
    false
}

/// Clicking the tab of the selected panel flips whether that panel is drawn.
pub proof fn lemma_tab_click_flips_panel(s: OverlaySettingsView, p: OverlayPanels, e: OverlayElement)
    requires
        e != OverlayElement::Whole,
    ensures
        ({
            let (s2, p2) = spec_toggle_element(s, p, e);
            is_active(s2, p2, e) == !is_active(s, p, e)
        }),
{
}

/// Switching a panel twice leaves it drawn exactly as before.
pub proof fn lemma_tab_click_twice_restores_activity(
    s: OverlaySettingsView,
    p: OverlayPanels,
    e: OverlayElement,
)
    requires
        e != OverlayElement::Whole,
    ensures
        ({
            let (s2, p2) = spec_toggle_element(s, p, e);
            let (s3, p3) = spec_toggle_element(s2, p2, e);
            is_active(s3, p3, e) == is_active(s, p, e)
        }),
{
}

} // verus!

verus! {

/// Size of the compact editor bar.
pub const COMPACT_EDITOR_PANEL_WIDTH: u32 = 680;
pub const COMPACT_EDITOR_PANEL_HEIGHT: u32 = 76;

/// The game window size used when it is not known yet.
pub open spec fn window_or_default(window_size: Option<(u32, u32)>) -> (u32, u32) {
    match window_size {
        Some(size) => size,
        None => (1280, 720),
    }
}

/// Whether the editor bar's placement arithmetic stays within `i32`.
pub open spec fn panel_origin_fits(window_size: Option<(u32, u32)>) -> bool {
    let (w, h) = window_or_default(window_size);
    (w as i32) - 680 >= i32::MIN && (h as i32) - 100 >= i32::MIN
}

/// The editor bar's top-left corner: centred horizontally, 24 pixels above
/// the bottom of the game window, never off the top-left edge.
pub open spec fn spec_editor_panel_origin(window_size: Option<(u32, u32)>) -> (i32, i32) {
    let (w, h) = window_or_default(window_size);
    (
        (if (w as i32) - 680 > 0 { ((w as i32) - 680) / 2 } else { 0 }) as i32,
        (if (h as i32) - 100 > 0 { (h as i32) - 100 } else { 0 }) as i32,
    )
}

pub fn editor_panel_origin(window_size: Option<(u32, u32)>) -> (r: (i32, i32))
    requires
        panel_origin_fits(window_size),
    ensures
        r == spec_editor_panel_origin(window_size),
        r.0 >= 0 && r.1 >= 0,
        2 * r.0 <= i32::MAX - 680,
{
    let (width, height) = match window_size {
        Some(size) => size,
        None => (1280u32, 720u32),
    };
    let dx = width as i32 - COMPACT_EDITOR_PANEL_WIDTH as i32;
    let dy = height as i32 - COMPACT_EDITOR_PANEL_HEIGHT as i32 - 24;
    (if dx > 0 { dx / 2 } else { 0 }, if dy > 0 { dy } else { 0 })
}

/// The surface drawn while editing: position and size in the game window.
#[derive(Clone, Copy, Debug, PartialEq, Eq, Structural)]
pub struct EditorSurfaceLayout {
    pub x: i32,
    pub y: i32,
    pub width: u32,
    pub height: u32,
}

/// Whether the editor surface arithmetic stays within `i32`.
pub open spec fn surface_fits(s: OverlaySettingsView, p: OverlayPanels, window_size: Option<(u32, u32)>) -> bool {
    let b = spec_overlay_bounds(s, p);
    let o = spec_editor_panel_origin(window_size);
    &&& panel_origin_fits(window_size)
    &&& bounds_fit(s, p)
    &&& fits_i32(b.0 + (b.2 as i32))
    &&& fits_i32(b.1 + (b.3 as i32))
    &&& fits_i32(o.1 + 76)
}

/// The editor surface: the HUD box and the editor bar together, with a
/// 16-pixel margin, clipped at the window's top-left corner.
pub open spec fn spec_editor_surface_layout(
    s: OverlaySettingsView,
    p: OverlayPanels,
    window_size: Option<(u32, u32)>,
) -> EditorSurfaceLayout {
    let b = spec_overlay_bounds(s, p);
    let o = spec_editor_panel_origin(window_size);
    let left = max_int(sat_sub(min_int(b.0 as int, o.0 as int) as i32, 16) as int, 0);
    let top = max_int(sat_sub(min_int(b.1 as int, o.1 as int) as i32, 16) as int, 0);
    let right = sat_add(max_int(b.0 + (b.2 as i32), o.0 + 680) as i32, 16);
    let bottom = sat_add(max_int(b.1 + (b.3 as i32), o.1 + 76) as i32, 16);
    EditorSurfaceLayout {
        x: left as i32,
        y: top as i32,
        width: max_int(sat_sub(right, left as i32) as int, 1) as u32,
        height: max_int(sat_sub(bottom, top as i32) as int, 1) as u32,
    }
}

pub fn editor_surface_layout(
    s: &OverlaySettings,
    p: &OverlayPanels,
    window_size: Option<(u32, u32)>,
) -> (r: EditorSurfaceLayout)
    requires
        surface_fits(s@, *p, window_size),
    ensures
        r == spec_editor_surface_layout(s@, *p, window_size),
{
    let (panel_x, panel_y) = editor_panel_origin(window_size);
    let (hud_x, hud_y, hud_width, hud_height) = overlay_bounds(s, p);
    let padding: i32 = 16;
    let min_x = if hud_x < panel_x { hud_x } else { panel_x };
    let min_y = if hud_y < panel_y { hud_y } else { panel_y };
    let left0 = saturating_sub(min_x, padding);
    let top0 = saturating_sub(min_y, padding);
    let left = if left0 > 0 { left0 } else { 0 };
    let top = if top0 > 0 { top0 } else { 0 };
    let hud_right = hud_x + hud_width as i32;
    let hud_bottom = hud_y + hud_height as i32;
    let bar_right = panel_x + COMPACT_EDITOR_PANEL_WIDTH as i32;
    let bar_bottom = panel_y + COMPACT_EDITOR_PANEL_HEIGHT as i32;
    let right = saturating_add(if hud_right > bar_right { hud_right } else { bar_right }, padding);
    let bottom = saturating_add(if hud_bottom > bar_bottom { hud_bottom } else { bar_bottom }, padding);
    let w = saturating_sub(right, left);
    let h = saturating_sub(bottom, top);
    EditorSurfaceLayout {
        x: left,
        y: top,
        width: if w > 1 { w as u32 } else { 1 },
        height: if h > 1 { h as u32 } else { 1 },
    }
}

/// Whether the editor bar can be placed in this window size, so that
/// [`editor_panel_origin`] may be called.
pub fn origin_in_range(window_size: Option<(u32, u32)>) -> (r: bool)
    ensures
        r == panel_origin_fits(window_size),
{
    let (width, height) = match window_size {
        Some(size) => size,
        None => (1280u32, 720u32),
    };
    (width as i32) as i64 - 680 >= i32::MIN as i64 && (height as i32) as i64 - 100 >= i32::MIN as i64
}

/// Whether the editor surface of these settings, panels and window size
/// stays within `i32`, so that [`editor_surface_layout`] may be called.
pub fn surface_in_range(s: &OverlaySettings, p: &OverlayPanels, window_size: Option<(u32, u32)>) -> (r:
    bool)
    ensures
        r == surface_fits(s@, *p, window_size),
{
    if !origin_in_range(window_size) || !bounds_in_range(s, p) {
        return false;
    }
    let b = overlay_bounds(s, p);
    let o = editor_panel_origin(window_size);
    fits_wide(b.0 as i64 + (b.2 as i32) as i64) && fits_wide(b.1 as i64 + (b.3 as i32) as i64)
        && fits_wide(o.1 as i64 + 76)
}

/// The editor surface holds the HUD's bounding box with a 16-pixel margin
/// on its right and bottom, and starts 16 pixels before it on the left and
/// top (clipped at the window's top-left corner), whenever those edges do
/// not reach the end of the `i32` range.
pub proof fn lemma_surface_holds_hud(s: OverlaySettingsView, p: OverlayPanels, window_size: Option<(u32, u32)>)
    requires
        surface_fits(s, p, window_size),
        spec_overlay_bounds(s, p).0 + (spec_overlay_bounds(s, p).2 as i32) + 16 <= i32::MAX,
        spec_overlay_bounds(s, p).1 + (spec_overlay_bounds(s, p).3 as i32) + 16 <= i32::MAX,
        spec_editor_panel_origin(window_size).0 + 680 + 16 <= i32::MAX,
        spec_editor_panel_origin(window_size).1 + 76 + 16 <= i32::MAX,
    ensures
        ({
            let b = spec_overlay_bounds(s, p);
            let l = spec_editor_surface_layout(s, p, window_size);
            &&& b.0 + (b.2 as i32) + 16 <= l.x + l.width
            &&& b.1 + (b.3 as i32) + 16 <= l.y + l.height
            &&& l.x <= max_int(b.0 - 16, 0)
            &&& l.y <= max_int(b.1 - 16, 0)
        }),
{
}

/// The editor surface always holds the whole editor bar.
pub proof fn lemma_surface_holds_editor_bar(
    s: OverlaySettingsView,
    p: OverlayPanels,
    window_size: Option<(u32, u32)>,
)
    requires
        surface_fits(s, p, window_size),
    ensures
        ({
            let l = spec_editor_surface_layout(s, p, window_size);
            let o = spec_editor_panel_origin(window_size);
            l.x <= o.0 && l.y <= o.1 && o.0 + 680 <= l.x + l.width && o.1 + 76 <= l.y + l.height
        }),
{
}

} // verus!
