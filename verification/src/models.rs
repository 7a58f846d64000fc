//! Snapshot and settings models shared by the reader, the overlay and the shell.

use vstd::prelude::*;

use crate::text::{owned, spec_trim, trim, lemma_trim_idempotent};

verus! {

/// How far the reader got in finding osu!.
#[derive(Clone, Copy, Debug, PartialEq, Eq, Structural)]
pub enum ConnectionStatus {
    Searching,
    Connected,
    Error,
}

/// Connection state shown at the top of the window.
#[derive(Clone, Debug)]
pub struct ConnectionSnapshot {
    pub status: ConnectionStatus,
    pub detail: String,
    pub updated_at_ms: u64,
}

/// Which screen the current session comes from.
#[derive(Clone, Copy, Debug, PartialEq, Eq, Structural)]
pub enum SessionPhase {
    Preview,
    Playing,
    Result,
}

/// Hit judgement counts of the current play, with tracked slider breaks.
#[derive(Clone, Copy, Debug, PartialEq, Eq, Structural)]
pub struct HitSnapshot {
    pub n_geki: u32,
    pub n_katu: u32,
    pub n300: u32,
    pub n100: u32,
    pub n50: u32,
    pub misses: u32,
    pub slider_breaks: u32,
}

/// The hit snapshot of a session with nothing hit yet.
pub fn empty_hits() -> (r: HitSnapshot)
    ensures
        r == (HitSnapshot {
            n_geki: 0,
            n_katu: 0,
            n300: 0,
            n100: 0,
            n50: 0,
            misses: 0,
            slider_breaks: 0,
        }),
{
    HitSnapshot { n_geki: 0, n_katu: 0, n300: 0, n100: 0, n50: 0, misses: 0, slider_breaks: 0 }
}

/// Overlay settings: what the HUD shows, where and how large it is, and the
/// key that opens its editor. The fractional scale, font scale and opacity
/// travel beside this value in the desktop shell.
#[derive(Clone, Debug)]
pub struct OverlaySettings {
    pub enabled: bool,
    pub show_pp: bool,
    pub show_if_fc: bool,
    pub show_accuracy: bool,
    pub show_combo: bool,
    pub show_mods: bool,
    pub show_map: bool,
    pub show_hits: bool,
    pub width: u32,
    pub height: u32,
    pub offset_x: i32,
    pub offset_y: i32,
    pub padding: u32,
    pub corner_radius: u32,
    pub show_background: bool,
    pub toggle_key: String,
}

/// Mathematical model of [`OverlaySettings`]: the key is taken by its characters.
pub struct OverlaySettingsView {
    pub enabled: bool,
    pub show_pp: bool,
    pub show_if_fc: bool,
    pub show_accuracy: bool,
    pub show_combo: bool,
    pub show_mods: bool,
    pub show_map: bool,
    pub show_hits: bool,
    pub width: u32,
    pub height: u32,
    pub offset_x: i32,
    pub offset_y: i32,
    pub padding: u32,
    pub corner_radius: u32,
    pub show_background: bool,
    pub toggle_key: Seq<char>,
}

impl View for OverlaySettings {
    type V = OverlaySettingsView;

    open spec fn view(&self) -> OverlaySettingsView {
        OverlaySettingsView {
            enabled: self.enabled,
            show_pp: self.show_pp,
            show_if_fc: self.show_if_fc,
            show_accuracy: self.show_accuracy,
            show_combo: self.show_combo,
            show_mods: self.show_mods,
            show_map: self.show_map,
            show_hits: self.show_hits,
            width: self.width,
            height: self.height,
            offset_x: self.offset_x,
            offset_y: self.offset_y,
            padding: self.padding,
            corner_radius: self.corner_radius,
            show_background: self.show_background,
            toggle_key: self.toggle_key@,
        }
    }
}

/// The key used when none is configured.
pub open spec fn default_toggle_key() -> Seq<char> {
    seq!['I', 'n', 's', 'e', 'r', 't']
}

/// Settings of a fresh install.
pub open spec fn default_settings_view() -> OverlaySettingsView {
    OverlaySettingsView {
        enabled: true,
        show_pp: true,
        show_if_fc: true,
        show_accuracy: true,
        show_combo: true,
        show_mods: true,
        show_map: true,
        show_hits: true,
        width: 420,
        height: 248,
        offset_x: 24,
        offset_y: 24,
        padding: 8,
        corner_radius: 12,
        show_background: true,
        toggle_key: default_toggle_key(),
    }
}

pub open spec fn clamp_i32(v: i32, lo: i32, hi: i32) -> i32 {
    if v < lo {
        lo
    } else if v > hi {
        hi
    } else {
        v
    }
}

pub open spec fn min_u32(a: u32, b: u32) -> u32 {
    if a < b {
        a
    } else {
        b
    }
}

pub open spec fn max_u32(a: u32, b: u32) -> u32 {
    if a > b {
        a
    } else {
        b
    }
}

/// The configured key, trimmed; the default key where nothing is left.
pub open spec fn spec_normalize_toggle_key(key: Seq<char>) -> Seq<char> {
    if spec_trim(key).len() == 0 {
        default_toggle_key()
    } else {
        spec_trim(key)
    }
}

/// Settings brought into the ranges the overlay can draw.
pub open spec fn spec_normalized(s: OverlaySettingsView) -> OverlaySettingsView {
    OverlaySettingsView {
        width: max_u32(s.width, 1),
        height: max_u32(s.height, 1),
        offset_x: clamp_i32(s.offset_x, -3000i32, 3000i32),
        offset_y: clamp_i32(s.offset_y, -3000i32, 3000i32),
        padding: min_u32(s.padding, 32),
        corner_radius: min_u32(s.corner_radius, 32),
        toggle_key: spec_normalize_toggle_key(s.toggle_key),
        ..s
    }
}

/// Whether settings already lie in the ranges that normalizing enforces.
pub open spec fn is_normalized(s: OverlaySettingsView) -> bool {
    &&& s.width >= 1
    &&& s.height >= 1
    &&& -3000 <= s.offset_x <= 3000
    &&& -3000 <= s.offset_y <= 3000
    &&& s.padding <= 32
    &&& s.corner_radius <= 32
    &&& s.toggle_key.len() > 0
    &&& spec_trim(s.toggle_key) == s.toggle_key
}

fn clamp_offset(v: i32) -> (r: i32)
    ensures
        r == clamp_i32(v, -3000i32, 3000i32),
{
    if v < -3000 {
        -3000
    } else if v > 3000 {
        3000
    } else {
        v
    }
}

/// Trims the toggle key binding, falling back to `Insert` when it is blank.
pub fn normalize_toggle_key(value: &str) -> (r: String)
    ensures
        r@ == spec_normalize_toggle_key(value@),
{
    let trimmed = trim(value);
    if trimmed.is_empty() {
        let r = owned("Insert");
        proof {
            reveal_strlit("Insert");
            assert(r@ =~= default_toggle_key());
        }
        return r;
    }
    owned(trimmed)
}

impl Default for OverlaySettings {
    fn default() -> (r: Self)
        ensures
            r@ == default_settings_view(),
    {
        let key = owned("Insert");
        proof {
            reveal_strlit("Insert");
            assert(key@ =~= default_toggle_key());
        }
        OverlaySettings {
            enabled: true,
            show_pp: true,
            show_if_fc: true,
            show_accuracy: true,
            show_combo: true,
            show_mods: true,
            show_map: true,
            show_hits: true,
            width: 420,
            height: 248,
            offset_x: 24,
            offset_y: 24,
            padding: 8,
            corner_radius: 12,
            show_background: true,
            toggle_key: key,
        }
    }
}

impl OverlaySettings {
    /// Clamps sizes, offsets, padding and radius and cleans the toggle key.
    pub fn normalized(self) -> (r: Self)
        ensures
            r@ == spec_normalized(self@),
            is_normalized(r@),
    {
        let mut s = self;
        if s.width < 1 {
            s.width = 1;
        }
        if s.height < 1 {
            s.height = 1;
        }
        s.offset_x = clamp_offset(s.offset_x);
        s.offset_y = clamp_offset(s.offset_y);
        if s.padding > 32 {
            s.padding = 32;
        }
        if s.corner_radius > 32 {
            s.corner_radius = 32;
        }
        s.toggle_key = normalize_toggle_key(s.toggle_key.as_str());
        proof {
            lemma_normalized_is_normalized(self@);
        }
        s
    }
}

/// Whatever settings come in, normalizing yields settings in range.
pub proof fn lemma_normalized_is_normalized(s: OverlaySettingsView)
    ensures
        is_normalized(spec_normalized(s)),
{
    reveal_strlit("Insert");
    lemma_trim_idempotent(s.toggle_key);
    let d = default_toggle_key();
    assert(spec_trim(d) == d) by {
        assert(!crate::text::spec_is_whitespace(d[0]));
        assert(crate::text::trim_start(d) == d);
        assert(!crate::text::spec_is_whitespace(d.last()));
        assert(crate::text::trim_end(d) == d);
    }
}

/// Normalized settings are left as they are by normalizing again.
pub proof fn lemma_normalized_fixes_normalized(s: OverlaySettingsView)
    requires
        is_normalized(s),
    ensures
        spec_normalized(s) == s,
{
}

/// Normalizing twice is normalizing once.
pub proof fn lemma_normalized_idempotent(s: OverlaySettingsView)
    ensures
        spec_normalized(spec_normalized(s)) == spec_normalized(s),
{
    lemma_normalized_is_normalized(s);
    lemma_normalized_fixes_normalized(spec_normalized(s));
}

/// The default settings are already normalized.
pub proof fn lemma_default_is_normalized()
    ensures
        is_normalized(default_settings_view()),
        spec_normalized(default_settings_view()) == default_settings_view(),
{
    lemma_normalized_is_normalized(default_settings_view());
}

} // verus!
