//! Rectangles of the osu! window, its monitor, the HUD and the editor bar.

use vstd::prelude::*;

verus! {

/// A window rectangle in screen pixels.
#[derive(Clone, Copy, Debug, PartialEq, Eq, Structural)]
pub struct Rect {
    pub left: i32,
    pub top: i32,
    pub right: i32,
    pub bottom: i32,
}

impl Rect {
    pub fn width(&self) -> (r: i32)
        requires
            i32::MIN <= self.right - self.left <= i32::MAX,
        ensures
            r == self.right - self.left,
    {
        self.right - self.left
    }

    pub fn height(&self) -> (r: i32)
        requires
            i32::MIN <= self.bottom - self.top <= i32::MAX,
        ensures
            r == self.bottom - self.top,
    {
        self.bottom - self.top
    }

    /// Whether the rectangle has a positive area.
    pub fn is_valid(&self) -> (r: bool)
        requires
            i32::MIN <= self.right - self.left <= i32::MAX,
            i32::MIN <= self.bottom - self.top <= i32::MAX,
        ensures
            r == (self.left < self.right && self.top < self.bottom),
    {
        self.width() > 0 && self.height() > 0
    }
}

/// The osu! window as found on screen.
#[derive(Clone, Copy, Debug, PartialEq, Eq, Structural)]
pub struct OsuWindowTarget {
    pub pid: u32,
    pub rect: Rect,
    pub monitor_rect: Rect,
    pub is_minimized: bool,
    pub is_foreground: bool,
    pub is_fullscreen_surface: bool,
}

pub open spec fn abs_int(v: int) -> int {
    if v < 0 {
        -v
    } else {
        v
    }
}

/// Whether every edge of `rect` lies within `tolerance` of the monitor's edge.
pub open spec fn spec_rect_covers_monitor(rect: Rect, monitor: Rect, tolerance: i32) -> bool {
    &&& abs_int(rect.left - monitor.left) <= tolerance
    &&& abs_int(rect.top - monitor.top) <= tolerance
    &&& abs_int(rect.right - monitor.right) <= tolerance
    &&& abs_int(rect.bottom - monitor.bottom) <= tolerance
}

/// Whether the edge differences fit in `i32`, which the check relies on.
pub open spec fn edge_differences_fit(rect: Rect, monitor: Rect) -> bool {
    &&& i32::MIN < rect.left - monitor.left <= i32::MAX
    &&& i32::MIN < rect.top - monitor.top <= i32::MAX
    &&& i32::MIN < rect.right - monitor.right <= i32::MAX
    &&& i32::MIN < rect.bottom - monitor.bottom <= i32::MAX
}

fn abs_diff_within(a: i32, b: i32, tolerance: i32) -> (r: bool)
    requires
        i32::MIN < a - b <= i32::MAX,
    ensures
        r == (abs_int(a - b) <= tolerance),
{
    let d = a - b;
    let m = if d < 0 { -d } else { d };
    m <= tolerance
}

/// Whether a window rectangle sits on the monitor's edges, up to `tolerance` pixels.
pub fn rect_covers_monitor(rect: &Rect, monitor: &Rect, tolerance: i32) -> (r: bool)
    requires
        edge_differences_fit(*rect, *monitor),
    ensures
        r == spec_rect_covers_monitor(*rect, *monitor, tolerance),
{
    abs_diff_within(rect.left, monitor.left, tolerance) && abs_diff_within(
        rect.top,
        monitor.top,
        tolerance,
    ) && abs_diff_within(rect.right, monitor.right, tolerance) && abs_diff_within(
        rect.bottom,
        monitor.bottom,
        tolerance,
    )
}

/// `a - b` saturated to the `i32` range, as `i32::saturating_sub`.
pub open spec fn sat_sub(a: i32, b: i32) -> i32 {
    if a - b > i32::MAX {
        i32::MAX
    } else if a - b < i32::MIN {
        i32::MIN
    } else {
        (a - b) as i32
    }
}

/// `a + b` saturated to the `i32` range, as `i32::saturating_add`.
pub open spec fn sat_add(a: i32, b: i32) -> i32 {
    if a + b > i32::MAX {
        i32::MAX
    } else if a + b < i32::MIN {
        i32::MIN
    } else {
        (a + b) as i32
    }
}

pub fn saturating_sub(a: i32, b: i32) -> (r: i32)
    ensures
        r == sat_sub(a, b),
{
    let d = a as i64 - b as i64;
    if d > i32::MAX as i64 {
        i32::MAX
    } else if d < i32::MIN as i64 {
        i32::MIN
    } else {
        d as i32
    }
}

pub fn saturating_add(a: i32, b: i32) -> (r: i32)
    ensures
        r == sat_add(a, b),
{
    let d = a as i64 + b as i64;
    if d > i32::MAX as i64 {
        i32::MAX
    } else if d < i32::MIN as i64 {
        i32::MIN
    } else {
        d as i32
    }
}

pub open spec fn max_int(a: int, b: int) -> int {
    if a > b {
        a
    } else {
        b
    }
}

pub open spec fn min_int(a: int, b: int) -> int {
    if a < b {
        a
    } else {
        b
    }
}

/// The integer terms of how much of the monitor a window covers:
/// intersection width and height (at least zero) and monitor width and
/// height (at least one). The covered fraction is their products' ratio.
pub open spec fn spec_overlap_terms(rect: Rect, monitor: Rect) -> (i32, i32, i32, i32) {
    let left = max_int(rect.left as int, monitor.left as int) as i32;
    let top = max_int(rect.top as int, monitor.top as int) as i32;
    let right = min_int(rect.right as int, monitor.right as int) as i32;
    let bottom = min_int(rect.bottom as int, monitor.bottom as int) as i32;
    (
        max_int(sat_sub(right, left) as int, 0) as i32,
        max_int(sat_sub(bottom, top) as int, 0) as i32,
        max_int(sat_sub(monitor.right, monitor.left) as int, 1) as i32,
        max_int(sat_sub(monitor.bottom, monitor.top) as int, 1) as i32,
    )
}

pub fn overlap_terms(rect: &Rect, monitor: &Rect) -> (r: (i32, i32, i32, i32))
    ensures
        r == spec_overlap_terms(*rect, *monitor),
        r.0 >= 0 && r.1 >= 0 && r.2 >= 1 && r.3 >= 1,
{
    let left = if rect.left > monitor.left { rect.left } else { monitor.left };
    let top = if rect.top > monitor.top { rect.top } else { monitor.top };
    let right = if rect.right < monitor.right { rect.right } else { monitor.right };
    let bottom = if rect.bottom < monitor.bottom { rect.bottom } else { monitor.bottom };
    let iw = saturating_sub(right, left);
    let ih = saturating_sub(bottom, top);
    let mw = saturating_sub(monitor.right, monitor.left);
    let mh = saturating_sub(monitor.bottom, monitor.top);
    (
        if iw > 0 { iw } else { 0 },
        if ih > 0 { ih } else { 0 },
        if mw > 1 { mw } else { 1 },
        if mh > 1 { mh } else { 1 },
    )
}

/// Whether a point lies in the half-open box at `(rx, ry)` of size `rw` x `rh`.
pub open spec fn spec_in_rect(x: int, y: int, rx: int, ry: int, rw: int, rh: int) -> bool {
    x >= rx && x < rx + rw && y >= ry && y < ry + rh
}

pub fn in_rect(x: i32, y: i32, rx: i32, ry: i32, rw: i32, rh: i32) -> (r: bool)
    requires
        rx + rw <= i32::MAX,
        rx + rw >= i32::MIN,
        ry + rh <= i32::MAX,
        ry + rh >= i32::MIN,
    ensures
        r == spec_in_rect(x as int, y as int, rx as int, ry as int, rw as int, rh as int),
{
    x >= rx && x < rx + rw && y >= ry && y < ry + rh
}

/// Which half of a `-`/`+` stepper at `(sx, sy)` a click hits.
pub fn stepper_click(x: i32, y: i32, sx: i32, sy: i32) -> (r: Option<i32>)
    requires
        sx + 160 <= i32::MAX,
        sy + 50 <= i32::MAX,
    ensures
        r == (if spec_in_rect(x as int, y as int, sx as int, sy + 20, 34, 30) {
            Some(-1i32)
        } else if spec_in_rect(x as int, y as int, sx + 126, sy + 20, 34, 30) {
            Some(1i32)
        } else {
            None
        }),
{
    if in_rect(x, y, sx, sy + 20, 34, 30) {
        Some(-1)
    } else if in_rect(x, y, sx + 126, sy + 20, 34, 30) {
        Some(1)
    } else {
        None
    }
}

} // verus!
