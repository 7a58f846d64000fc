//! The integer core of a live session: judgement counts read from the game
//! turned into a score, its passed objects and slider breaks.

use vstd::prelude::*;

use crate::game::{
    count_from_raw, spec_total_passed, spec_track, total_passed_objects,
    GameMode, GameplayTracker, ScoreState,
};

verus! {

/// Values read from the game for one play (gameplay or result screen).
#[derive(Clone, Copy, Debug, PartialEq, Eq, Structural)]
pub struct PlayReading {
    pub max_combo: i32,
    pub n_geki: i32,
    pub n_katu: i32,
    pub n300: i32,
    pub n100: i32,
    pub n50: i32,
    pub misses: i32,
    pub combo: i32,
    pub retries: i32,
    pub score: i32,
}

pub open spec fn clamp_count(v: i32) -> u32 {
    if v < 0 {
        0
    } else {
        v as u32
    }
}

/// The score of a reading, negatives read as zero.
pub open spec fn spec_score_state(r: PlayReading) -> ScoreState {
    ScoreState {
        max_combo: clamp_count(r.max_combo),
        n_geki: clamp_count(r.n_geki),
        n_katu: clamp_count(r.n_katu),
        n300: clamp_count(r.n300),
        n100: clamp_count(r.n100),
        n50: clamp_count(r.n50),
        misses: clamp_count(r.misses),
    }
}

pub fn score_state_from_reading(r: &PlayReading) -> (s: ScoreState)
    ensures
        s == spec_score_state(*r),
{
    ScoreState {
        max_combo: count_from_raw(r.max_combo),
        n_geki: count_from_raw(r.n_geki),
        n_katu: count_from_raw(r.n_katu),
        n300: count_from_raw(r.n300),
        n100: count_from_raw(r.n100),
        n50: count_from_raw(r.n50),
        misses: count_from_raw(r.misses),
    }
}

/// Counts of a running play.
#[derive(Clone, Copy, Debug, PartialEq, Eq, Structural)]
pub struct PlayingCounts {
    pub score_state: ScoreState,
    pub passed_objects: u32,
    pub combo: u32,
    pub retries: u32,
    pub score: u32,
    pub map_max_combo: u32,
    pub slider_breaks: u32,
}

/// Whether a reading's judgement counts can be summed in 32 bits.
pub open spec fn reading_fits(mode: GameMode, r: PlayReading) -> bool {
    spec_total_passed(mode, spec_score_state(r)) <= u32::MAX
}

/// Whether a reading's judgement counts can be summed in 32 bits, so that
/// [`playing_counts`] may be called with it.
pub fn reading_in_range(mode: GameMode, r: &PlayReading) -> (b: bool)
    ensures
        b == reading_fits(mode, *r),
{
    let s = score_state_from_reading(r);
    let (geki, katu, n300, n100, n50, miss) = (
        s.n_geki as u64,
        s.n_katu as u64,
        s.n300 as u64,
        s.n100 as u64,
        s.n50 as u64,
        s.misses as u64,
    );
    let total: u64 = match mode {
        GameMode::Osu => n300 + n100 + n50 + miss,
        GameMode::Taiko => n300 + n100 + miss,
        GameMode::Catch => n300 + n100 + n50 + katu + miss,
        GameMode::Mania => geki + n300 + katu + n100 + n50 + miss,
        GameMode::Unknown => 0,
    };
    total <= u32::MAX as u64
}

/// Turns one poll of the gameplay screen into the counts shown, feeding the
/// slider-break tracker with the combo, misses and passed objects. The map's
/// maximum combo comes from its difficulty attributes (read by the shell);
/// a combo lost below it counts as a slider break.
pub fn playing_counts(
    tracker: &mut GameplayTracker,
    mode: GameMode,
    beatmap_path: &str,
    reading: &PlayReading,
    map_max_combo: u32,
) -> (c: PlayingCounts)
    requires
        reading_fits(mode, *reading),
    ensures
        c.score_state == spec_score_state(*reading),
        c.passed_objects == spec_total_passed(mode, c.score_state),
        c.combo == clamp_count(reading.combo),
        c.retries == clamp_count(reading.retries),
        c.score == clamp_count(reading.score),
        c.map_max_combo == map_max_combo,
        final(tracker)@ == spec_track(
            old(tracker)@,
            mode,
            beatmap_path@,
            c.retries,
            c.combo,
            c.score_state.misses,
            c.passed_objects,
            c.map_max_combo,
        ),
        c.slider_breaks == final(tracker).slider_breaks,
{
    let score_state = score_state_from_reading(reading);
    let passed_objects = total_passed_objects(mode, &score_state);
    let combo = count_from_raw(reading.combo);
    let retries = count_from_raw(reading.retries);
    let slider_breaks = tracker.update(
        mode,
        beatmap_path,
        retries,
        combo,
        score_state.misses,
        passed_objects,
        map_max_combo,
    );
    PlayingCounts {
        score_state,
        passed_objects,
        combo,
        retries,
        score: count_from_raw(reading.score),
        map_max_combo,
        slider_breaks,
    }
}

/// The objects a partial-map calculation covers: at least one.
pub fn calculation_objects(passed: u32) -> (r: u32)
    ensures
        r == (if passed > 1 { passed } else { 1 }),
{
    if passed > 1 {
        passed
    } else {
        1
    }
}

} // verus!
