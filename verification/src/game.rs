//! What the live reader decides from the values it reads out of osu!:
//! game-state labels and phases, hit counts and accuracy, slider-break
//! tracking, mod text, result bookkeeping and the choice of snapshot.

use vstd::prelude::*;

use crate::models::{ConnectionSnapshot, ConnectionStatus, HitSnapshot, SessionPhase};
use crate::text::{joined, owned, push_char, push_decimal, decimal};

verus! {

/// Ruleset of a beatmap or play.
#[derive(Clone, Copy, Debug, PartialEq, Eq, Structural)]
pub enum GameMode {
    Osu,
    Taiko,
    Catch,
    Mania,
    Unknown,
}

/// Screen the osu! client is on.
#[derive(Clone, Copy, Debug, PartialEq, Eq, Structural)]
pub enum GameState {
    MainMenu,
    Editor,
    Playing,
    Exit,
    EditorSongSelect,
    SongSelect,
    SelectDrawing,
    ResultScreen,
    Update,
    Busy,
    MultiplayerLobbySelect,
    MultiplayerLobby,
    MultiplayerSongSelect,
    MultiplayerResultScreen,
    OffsetWizard,
    MultiplayerResultScreenTagCoop,
    MultiplayerResultScreenTeamVs,
    SongImport,
    Unknown,
}

/// Human-readable name of a game state.
pub open spec fn game_state_label(state: GameState) -> Seq<char> {
    match state {
        GameState::MainMenu => "Main menu"@,
        GameState::Editor => "Editor"@,
        GameState::Playing => "Playing"@,
        GameState::Exit => "Exit"@,
        GameState::EditorSongSelect => "Editor song select"@,
        GameState::SongSelect => "Song select"@,
        GameState::SelectDrawing => "Select drawing"@,
        GameState::ResultScreen => "Result screen"@,
        GameState::Update => "Update"@,
        GameState::Busy => "Busy"@,
        GameState::MultiplayerLobbySelect => "Multiplayer lobby select"@,
        GameState::MultiplayerLobby => "Multiplayer lobby"@,
        GameState::MultiplayerSongSelect => "Multiplayer song select"@,
        GameState::MultiplayerResultScreen => "Multiplayer result"@,
        GameState::OffsetWizard => "Offset wizard"@,
        GameState::MultiplayerResultScreenTagCoop => "Tag coop result"@,
        GameState::MultiplayerResultScreenTeamVs => "Team VS result"@,
        GameState::SongImport => "Song import"@,
        GameState::Unknown => "Unknown"@,
    }
}

fn game_state_str(state: GameState) -> (r: &'static str)
    ensures
        r@ == game_state_label(state),
{
    match state {
        GameState::MainMenu => "Main menu",
        GameState::Editor => "Editor",
        GameState::Playing => "Playing",
        GameState::Exit => "Exit",
        GameState::EditorSongSelect => "Editor song select",
        GameState::SongSelect => "Song select",
        GameState::SelectDrawing => "Select drawing",
        GameState::ResultScreen => "Result screen",
        GameState::Update => "Update",
        GameState::Busy => "Busy",
        GameState::MultiplayerLobbySelect => "Multiplayer lobby select",
        GameState::MultiplayerLobby => "Multiplayer lobby",
        GameState::MultiplayerSongSelect => "Multiplayer song select",
        GameState::MultiplayerResultScreen => "Multiplayer result",
        GameState::OffsetWizard => "Offset wizard",
        GameState::MultiplayerResultScreenTagCoop => "Tag coop result",
        GameState::MultiplayerResultScreenTeamVs => "Team VS result",
        GameState::SongImport => "Song import",
        GameState::Unknown => "Unknown",
    }
}

/// Names a game state for the connection detail and the live panel.
pub fn format_game_state(state: GameState) -> (r: String)
    ensures
        r@ == game_state_label(state),
{
    owned(game_state_str(state))
}

/// The session phase a game state belongs to, if any.
pub open spec fn spec_phase_for_game_state(state: GameState) -> Option<SessionPhase> {
    match state {
        GameState::MainMenu | GameState::Editor | GameState::SongSelect
        | GameState::EditorSongSelect | GameState::MultiplayerSongSelect => Some(
            SessionPhase::Preview,
        ),
        GameState::Playing => Some(SessionPhase::Playing),
        GameState::ResultScreen | GameState::MultiplayerResultScreen
        | GameState::MultiplayerResultScreenTagCoop
        | GameState::MultiplayerResultScreenTeamVs => Some(SessionPhase::Result),
        _ => None,
    }
}

/// Maps the client screen to the session phase shown for it.
pub fn phase_for_game_state(state: GameState) -> (r: Option<SessionPhase>)
    ensures
        r == spec_phase_for_game_state(state),
{
    match state {
        GameState::MainMenu | GameState::Editor | GameState::SongSelect
        | GameState::EditorSongSelect | GameState::MultiplayerSongSelect => Some(
            SessionPhase::Preview,
        ),
        GameState::Playing => Some(SessionPhase::Playing),
        GameState::ResultScreen | GameState::MultiplayerResultScreen
        | GameState::MultiplayerResultScreenTagCoop
        | GameState::MultiplayerResultScreenTeamVs => Some(SessionPhase::Result),
        _ => None,
    }
}

/// Short label of a phase, as used in overlay frame keys.
pub open spec fn phase_label(phase: SessionPhase) -> Seq<char> {
    match phase {
        SessionPhase::Preview => "preview"@,
        SessionPhase::Playing => "playing"@,
        SessionPhase::Result => "result"@,
    }
}

pub fn session_phase_label(phase: SessionPhase) -> (r: &'static str)
    ensures
        r@ == phase_label(phase),
{
    match phase {
        SessionPhase::Preview => "preview",
        SessionPhase::Playing => "playing",
        SessionPhase::Result => "result",
    }
}

} // verus!

verus! {

/// Judgement counts and combo of a score, as handed to the performance calculator.
#[derive(Clone, Copy, Debug, PartialEq, Eq, Structural)]
pub struct ScoreState {
    pub max_combo: u32,
    pub n_geki: u32,
    pub n_katu: u32,
    pub n300: u32,
    pub n100: u32,
    pub n50: u32,
    pub misses: u32,
}

/// Objects judged so far in `mode`.
pub open spec fn spec_total_passed(mode: GameMode, s: ScoreState) -> int {
    match mode {
        GameMode::Osu => s.n300 + s.n100 + s.n50 + s.misses,
        GameMode::Taiko => s.n300 + s.n100 + s.misses,
        GameMode::Catch => s.n300 + s.n100 + s.n50 + s.n_katu + s.misses,
        GameMode::Mania => s.n_geki + s.n300 + s.n_katu + s.n100 + s.n50 + s.misses,
        GameMode::Unknown => 0,
    }
}

/// Counts the objects a score has judged.
pub fn total_passed_objects(mode: GameMode, s: &ScoreState) -> (r: u32)
    requires
        spec_total_passed(mode, *s) <= u32::MAX,
    ensures
        r == spec_total_passed(mode, *s),
{
    match mode {
        GameMode::Osu => s.n300 + s.n100 + s.n50 + s.misses,
        GameMode::Taiko => s.n300 + s.n100 + s.misses,
        GameMode::Catch => s.n300 + s.n100 + s.n50 + s.n_katu + s.misses,
        GameMode::Mania => s.n_geki + s.n300 + s.n_katu + s.n100 + s.n50 + s.misses,
        GameMode::Unknown => 0,
    }
}

/// Weighted judgements: accuracy is `numerator / denominator`.
pub open spec fn accuracy_numerator(mode: GameMode, s: ScoreState) -> int {
    match mode {
        GameMode::Osu => 6 * s.n300 + 2 * s.n100 + s.n50,
        GameMode::Taiko => 2 * s.n300 + s.n100,
        GameMode::Catch => s.n300 + s.n100 + s.n50,
        GameMode::Mania => 6 * s.n_geki + 6 * s.n300 + 4 * s.n_katu + 2 * s.n100 + s.n50,
        GameMode::Unknown => 0,
    }
}

pub open spec fn accuracy_denominator(mode: GameMode, s: ScoreState) -> int {
    match mode {
        GameMode::Osu | GameMode::Mania => 6 * spec_total_passed(mode, s),
        GameMode::Taiko => 2 * spec_total_passed(mode, s),
        GameMode::Catch => spec_total_passed(mode, s),
        GameMode::Unknown => 0,
    }
}

/// The accuracy of a score as the fraction `(numerator, denominator)`; `None`
/// where it counts as zero (nothing judged yet, or unknown mode). The
/// percentage is `numerator / denominator * 100`.
pub open spec fn spec_accuracy_fraction(mode: GameMode, s: ScoreState) -> Option<(u64, u64)> {
    if mode == GameMode::Unknown || spec_total_passed(mode, s) == 0 {
        None
    } else {
        Some((accuracy_numerator(mode, s) as u64, accuracy_denominator(mode, s) as u64))
    }
}

/// Computes the judgement weights behind a score's accuracy.
pub fn accuracy_fraction(mode: GameMode, s: &ScoreState) -> (r: Option<(u64, u64)>)
    ensures
        r == spec_accuracy_fraction(mode, *s),
        r matches Some((n, d)) ==> n as int == accuracy_numerator(mode, *s) && d as int
            == accuracy_denominator(mode, *s) && 0 < d && n <= d,
{
    let geki = s.n_geki as u64;
    let katu = s.n_katu as u64;
    let n300 = s.n300 as u64;
    let n100 = s.n100 as u64;
    let n50 = s.n50 as u64;
    let miss = s.misses as u64;
    match mode {
        GameMode::Osu => {
            let total = n300 + n100 + n50 + miss;
            if total == 0 {
                None
            } else {
                Some((6 * n300 + 2 * n100 + n50, 6 * total))
            }
        },
        GameMode::Taiko => {
            let total = n300 + n100 + miss;
            if total == 0 {
                None
            } else {
                Some((2 * n300 + n100, 2 * total))
            }
        },
        GameMode::Catch => {
            let total = n300 + n100 + n50 + katu + miss;
            if total == 0 {
                None
            } else {
                Some((n300 + n100 + n50, total))
            }
        },
        GameMode::Mania => {
            let total = geki + n300 + katu + n100 + n50 + miss;
            if total == 0 {
                None
            } else {
                Some((6 * geki + 6 * n300 + 4 * katu + 2 * n100 + n50, 6 * total))
            }
        },
        GameMode::Unknown => None,
    }
}

/// The score had the play been a full combo: misses become 300s.
pub open spec fn spec_if_fc_state(s: ScoreState, max_combo: u32) -> ScoreState {
    ScoreState { max_combo, n300: (s.n300 + s.misses) as u32, misses: 0, ..s }
}

/// Builds the full-combo variant of a score for the "if FC" estimate.
pub fn if_fc_state(s: &ScoreState, max_combo: u32) -> (r: ScoreState)
    requires
        s.n300 + s.misses <= u32::MAX,
    ensures
        r == spec_if_fc_state(*s, max_combo),
{
    ScoreState { max_combo, n300: s.n300 + s.misses, misses: 0, ..*s }
}

/// Turning a score into its full-combo variant keeps the number of judged
/// objects and never lowers its accuracy (both fractions share the denominator).
pub proof fn lemma_if_fc_keeps_total_and_raises_accuracy(
    mode: GameMode,
    s: ScoreState,
    max_combo: u32,
)
    requires
        s.n300 + s.misses <= u32::MAX,
    ensures
        spec_total_passed(mode, spec_if_fc_state(s, max_combo)) == spec_total_passed(mode, s),
        accuracy_denominator(mode, spec_if_fc_state(s, max_combo)) == accuracy_denominator(mode, s),
        accuracy_numerator(mode, spec_if_fc_state(s, max_combo)) >= accuracy_numerator(mode, s),
        spec_if_fc_state(s, max_combo).misses == 0,
{
}

/// Accuracy never exceeds 100%: the weighted judgements are at most the denominator.
pub proof fn lemma_accuracy_at_most_one(mode: GameMode, s: ScoreState)
    ensures
        0 <= accuracy_numerator(mode, s) <= accuracy_denominator(mode, s),
{
}

/// A judgement count read from memory: negatives count as zero.
pub fn count_from_raw(v: i32) -> (r: u32)
    ensures
        r == (if v < 0 { 0 } else { v as int }),
{
    if v < 0 {
        0
    } else {
        v as u32
    }
}

/// The hit snapshot shown for a score, with the tracked slider breaks.
pub fn hit_snapshot(s: &ScoreState, slider_breaks: u32) -> (r: HitSnapshot)
    ensures
        r == (HitSnapshot {
            n_geki: s.n_geki,
            n_katu: s.n_katu,
            n300: s.n300,
            n100: s.n100,
            n50: s.n50,
            misses: s.misses,
            slider_breaks,
        }),
{
    HitSnapshot {
        n_geki: s.n_geki,
        n_katu: s.n_katu,
        n300: s.n300,
        n100: s.n100,
        n50: s.n50,
        misses: s.misses,
        slider_breaks,
    }
}

} // verus!

verus! {

/// Follows one play across polls to count slider breaks: a combo drop
/// without a new miss, while the combo was still short of the map's maximum.
#[derive(Debug)]
pub struct GameplayTracker {
    pub beatmap_path: Option<String>,
    pub retries: u32,
    pub previous_combo: u32,
    pub previous_misses: u32,
    pub previous_passed_objects: u32,
    pub slider_breaks: u32,
}

/// Model of the tracker: the beatmap path by its characters.
pub struct TrackerView {
    pub beatmap_path: Option<Seq<char>>,
    pub retries: u32,
    pub previous_combo: u32,
    pub previous_misses: u32,
    pub previous_passed_objects: u32,
    pub slider_breaks: u32,
}

impl View for GameplayTracker {
    type V = TrackerView;

    open spec fn view(&self) -> TrackerView {
        TrackerView {
            beatmap_path: match self.beatmap_path {
                Some(p) => Some(p@),
                None => None,
            },
            retries: self.retries,
            previous_combo: self.previous_combo,
            previous_misses: self.previous_misses,
            previous_passed_objects: self.previous_passed_objects,
            slider_breaks: self.slider_breaks,
        }
    }
}

/// A tracker that has seen nothing.
pub open spec fn fresh_tracker() -> TrackerView {
    TrackerView {
        beatmap_path: None,
        retries: 0,
        previous_combo: 0,
        previous_misses: 0,
        previous_passed_objects: 0,
        slider_breaks: 0,
    }
}

/// Whether a poll starts a new play: another map, fewer retries than
/// before, or fewer judged objects than before.
pub open spec fn is_restart(t: TrackerView, path: Seq<char>, retries: u32, passed: u32) -> bool {
    ||| t.beatmap_path != Some(path)
    ||| retries < t.retries
    ||| passed < t.previous_passed_objects
}

/// Whether a poll shows a slider break on top of the last one.
pub open spec fn is_slider_break(
    t: TrackerView,
    mode: GameMode,
    combo: u32,
    misses: u32,
    map_max_combo: u32,
) -> bool {
    &&& mode == GameMode::Osu
    &&& misses == t.previous_misses
    &&& t.previous_combo > 0
    &&& combo < t.previous_combo
    &&& t.previous_combo < map_max_combo
}

/// The tracker after one poll.
pub open spec fn spec_track(
    t: TrackerView,
    mode: GameMode,
    path: Seq<char>,
    retries: u32,
    combo: u32,
    misses: u32,
    passed: u32,
    map_max_combo: u32,
) -> TrackerView {
    if is_restart(t, path, retries, passed) {
        TrackerView {
            beatmap_path: Some(path),
            retries,
            previous_combo: combo,
            previous_misses: misses,
            previous_passed_objects: passed,
            slider_breaks: 0,
        }
    } else {
        TrackerView {
            beatmap_path: t.beatmap_path,
            retries,
            previous_combo: combo,
            previous_misses: misses,
            previous_passed_objects: passed,
            slider_breaks: if is_slider_break(t, mode, combo, misses, map_max_combo)
                && t.slider_breaks < u32::MAX {
                (t.slider_breaks + 1) as u32
            } else {
                t.slider_breaks
            },
        }
    }
}

fn same_path(current: &Option<String>, path: &str) -> (r: bool)
    ensures
        r == (match current {
            Some(p) => p@ == path@,
            None => false,
        }),
{
    match current {
        Some(p) => crate::text::str_eq(p.as_str(), path),
        None => false,
    }
}

impl Default for GameplayTracker {
    fn default() -> (r: Self)
        ensures
            r@ == fresh_tracker(),
    {
        GameplayTracker {
            beatmap_path: None,
            retries: 0,
            previous_combo: 0,
            previous_misses: 0,
            previous_passed_objects: 0,
            slider_breaks: 0,
        }
    }
}

impl GameplayTracker {
    /// Feeds one poll of a running play and returns the slider breaks counted so far.
    pub fn update(
        &mut self,
        mode: GameMode,
        beatmap_path: &str,
        retries: u32,
        combo: u32,
        misses: u32,
        passed_objects: u32,
        map_max_combo: u32,
    ) -> (r: u32)
        ensures
            final(self)@ == spec_track(
                old(self)@,
                mode,
                beatmap_path@,
                retries,
                combo,
                misses,
                passed_objects,
                map_max_combo,
            ),
            r == final(self).slider_breaks,
    {
        let map_changed = !same_path(&self.beatmap_path, beatmap_path);
        let play_restarted = map_changed || retries < self.retries || passed_objects
            < self.previous_passed_objects;

        if play_restarted {
            self.beatmap_path = Some(owned(beatmap_path));
            self.retries = retries;
            self.previous_combo = combo;
            self.previous_misses = misses;
            self.previous_passed_objects = passed_objects;
            self.slider_breaks = 0;
            return self.slider_breaks;
        }
        if mode == GameMode::Osu && misses == self.previous_misses && self.previous_combo > 0
            && combo < self.previous_combo {
            if self.previous_combo < map_max_combo {
                if self.slider_breaks < u32::MAX {
                    self.slider_breaks = self.slider_breaks + 1;
                }
            }
        }
        self.retries = retries;
        self.previous_combo = combo;
        self.previous_misses = misses;
        self.previous_passed_objects = passed_objects;
        self.slider_breaks
    }

    /// Forgets the play being followed.
    pub fn reset(&mut self)
        ensures
            final(self)@ == fresh_tracker(),
    {
        *self = Self::default();
    }
}

/// Within one play the slider-break count never goes down and grows by at
/// most one per poll; a restart brings it back to zero. Whatever the poll,
/// the tracker then remembers its retries, combo, misses and judged objects,
/// which the next poll is compared with.
pub proof fn lemma_slider_breaks_step(
    t: TrackerView,
    mode: GameMode,
    path: Seq<char>,
    retries: u32,
    combo: u32,
    misses: u32,
    passed: u32,
    map_max_combo: u32,
)
    ensures
        ({
            let n = spec_track(t, mode, path, retries, combo, misses, passed, map_max_combo);
            &&& is_restart(t, path, retries, passed) ==> n.slider_breaks == 0
            &&& !is_restart(t, path, retries, passed) ==> t.slider_breaks <= n.slider_breaks
                <= t.slider_breaks + 1
            &&& n.beatmap_path == Some(path)
            &&& n.retries == retries
            &&& n.previous_combo == combo
            &&& n.previous_misses == misses
            &&& n.previous_passed_objects == passed
        }),
{
}

/// Two consecutive polls of one play (same map, retries and judged objects
/// not going back) count a slider break exactly when, in osu!standard, the
/// combo fell below the first poll's combo, which was above zero and short
/// of the map's maximum, with no miss added in between; otherwise the count
/// stays. A new map restarts the count.
pub proof fn lemma_break_between_polls(
    t: TrackerView,
    mode: GameMode,
    path: Seq<char>,
    retries1: u32,
    combo1: u32,
    misses1: u32,
    passed1: u32,
    retries2: u32,
    combo2: u32,
    misses2: u32,
    passed2: u32,
    map_max_combo: u32,
)
    requires
        retries1 <= retries2,
        passed1 <= passed2,
    ensures
        ({
            let t1 = spec_track(t, mode, path, retries1, combo1, misses1, passed1, map_max_combo);
            let t2 = spec_track(t1, mode, path, retries2, combo2, misses2, passed2, map_max_combo);
            let broke = mode == GameMode::Osu && misses2 == misses1 && 0 < combo1 && combo2 < combo1
                && combo1 < map_max_combo;
            &&& t1.slider_breaks < u32::MAX ==> t2.slider_breaks == t1.slider_breaks + (if broke {
                1int
            } else {
                0int
            })
            &&& t1.slider_breaks == u32::MAX ==> t2.slider_breaks == u32::MAX
        }),
        forall|other: Seq<char>|
            other != path ==> #[trigger] spec_track(
                spec_track(t, mode, path, retries1, combo1, misses1, passed1, map_max_combo),
                mode,
                other,
                retries2,
                combo2,
                misses2,
                passed2,
                map_max_combo,
            ).slider_breaks == 0,
{
}


/// A poll repeated with the same values adds no slider break.
pub proof fn lemma_repeated_poll_adds_no_break(
    t: TrackerView,
    mode: GameMode,
    path: Seq<char>,
    retries: u32,
    combo: u32,
    misses: u32,
    passed: u32,
    map_max_combo: u32,
)
    ensures
        ({
            let n = spec_track(t, mode, path, retries, combo, misses, passed, map_max_combo);
            spec_track(n, mode, path, retries, combo, misses, passed, map_max_combo) == n
        }),
{
}

/// Only osu!standard plays count slider breaks.
pub proof fn lemma_breaks_only_in_standard(
    t: TrackerView,
    mode: GameMode,
    path: Seq<char>,
    retries: u32,
    combo: u32,
    misses: u32,
    passed: u32,
    map_max_combo: u32,
)
    requires
        mode != GameMode::Osu,
    ensures
        spec_track(t, mode, path, retries, combo, misses, passed, map_max_combo).slider_breaks
            <= t.slider_breaks,
{
}

} // verus!

verus! {

/// The acronyms that rosu-mods' `Display` for `GameModsLegacy` writes for the
/// legacy mod bits `bits` (such as `HDHRDT`).
pub uninterp spec fn legacy_mods_text(bits: u32) -> Seq<char>;

/// Whether every character is ASCII.
pub open spec fn all_ascii(s: Seq<char>) -> bool {
    forall|i: int| 0 <= i < s.len() ==> (s[i] as u32) < 128
}

/// Acronym text of legacy mod bits.
///
/// Trusted: calls `rosu_mods::GameModsLegacy::from_bits(bits).to_string()`.
/// The contract names the text and states what its `Display` impl shows:
/// it writes, for each mod in the value, one acronym from a fixed table of
/// two-character ASCII acronyms or an empty string, so the text is ASCII and
/// of even length. Unknown bits are masked off by `from_bits`, so no input panics.
#[verifier::external_body]
fn legacy_mods_string(bits: u32) -> (r: String)
    ensures
        r@ == legacy_mods_text(bits),
        all_ascii(r@),
        r@.len() % 2 == 0,
{
    rosu_mods::GameModsLegacy::from_bits(bits).to_string()
}

/// Mod text shown for a play: the acronyms, or `NM` when there are none.
pub open spec fn spec_mods_text(bits: u32) -> Seq<char> {
    if legacy_mods_text(bits).len() == 0 {
        "NM"@
    } else {
        legacy_mods_text(bits)
    }
}

/// Formats legacy mod bits for display.
pub fn format_mods(bits: u32) -> (r: String)
    ensures
        r@ == spec_mods_text(bits),
        r@.len() % 2 == 0,
        all_ascii(r@),
{
    let mods = legacy_mods_string(bits);
    if mods.as_str().is_empty() {
        let r = owned("NM");
        proof {
            reveal_strlit("NM");
        }
        r
    } else {
        mods
    }
}

/// `s` cut into consecutive pieces of two characters (the last one may be shorter).
pub open spec fn pairs(s: Seq<char>) -> Seq<Seq<char>>
    decreases s.len(),
{
    if s.len() == 0 {
        seq![]
    } else if s.len() <= 2 {
        seq![s]
    } else {
        seq![s.take(2)] + pairs(s.skip(2))
    }
}

/// The acronyms of legacy mod bits one by one; none for no mod.
pub open spec fn spec_split_mods(bits: u32) -> Seq<Seq<char>> {
    if spec_mods_text(bits) == "NM"@ {
        seq![]
    } else {
        pairs(spec_mods_text(bits))
    }
}

/// Splitting a text into pairs loses nothing: the pieces put back together
/// give the text, and an even-length text (such as a mod text) splits into
/// pieces of exactly two characters.
pub proof fn lemma_pairs_rejoin(s: Seq<char>)
    ensures
        pairs(s).flatten() == s,
        s.len() % 2 == 0 ==> forall|k: int| 0 <= k < pairs(s).len() ==> #[trigger] pairs(s)[k].len() == 2,
    decreases s.len(),
{
    if s.len() == 0 {
        assert(pairs(s).flatten() =~= s);
    } else if s.len() <= 2 {
        assert(pairs(s) =~= seq![s]);
        assert(seq![s].drop_first() =~= Seq::<Seq<char>>::empty());
        assert(Seq::<Seq<char>>::empty().flatten() =~= Seq::<char>::empty());
        assert(pairs(s).flatten() == s + Seq::<Seq<char>>::empty().flatten());
        assert(pairs(s).flatten() =~= s);
    } else {
        let rest = s.skip(2);
        lemma_pairs_rejoin(rest);
        assert(pairs(s).first() == s.take(2));
        assert(pairs(s).drop_first() =~= pairs(rest));
        assert(s.take(2) + rest =~= s);
        if s.len() % 2 == 0 {
            assert forall|k: int| 0 <= k < pairs(s).len() implies #[trigger] pairs(s)[k].len() == 2 by {
                if k > 0 {
                    assert(pairs(s)[k] == pairs(rest)[k - 1]);
                }
            }
        }
    }
}

proof fn lemma_pairs_step(s: Seq<char>, i: int)
    requires
        0 <= i,
        i + 2 <= s.len(),
    ensures
        pairs(s.skip(i)) =~= seq![s.subrange(i, i + 2)] + pairs(s.skip(i + 2)),
{
    let t = s.skip(i);
    assert(t.take(2) =~= s.subrange(i, i + 2));
    assert(t.skip(2) =~= s.skip(i + 2));
    if t.len() == 2 {
        assert(s.skip(i + 2) =~= Seq::<char>::empty());
        assert(t =~= s.subrange(i, i + 2));
    }
}

/// Splits the mod text of a play into single acronyms.
pub fn split_mods(bits: u32) -> (r: Vec<String>)
    ensures
        r@.len() == spec_split_mods(bits).len(),
        forall|k: int| 0 <= k < r@.len() ==> #[trigger] r@[k]@ == spec_split_mods(bits)[k],
{
    let mods = format_mods(bits);
    let text = mods.as_str();
    let mut out: Vec<String> = Vec::new();
    if crate::text::str_eq(text, "NM") {
        return out;
    }
    let n = text.unicode_len();
    let ghost s = text@;
    let mut i: usize = 0;
    let ghost mut done: Seq<Seq<char>> = seq![];
    assert(n % 2 == 0) by {
        reveal_strlit("NM");
    }
    assert(s.skip(0) =~= s);
    while i < n
        invariant
            n == s.len(),
            s == text@,
            s == spec_mods_text(bits),
            i <= n,
            i % 2 == 0,
            n % 2 == 0,
            out@.len() == done.len(),
            forall|k: int| 0 <= k < out@.len() ==> #[trigger] out@[k]@ == done[k],
            done + pairs(s.skip(i as int)) == pairs(s),
        decreases n - i,
    {
        let end = i + 2;
        proof {
            lemma_pairs_step(s, i as int);
        }
        let piece = owned(text.substring_char(i, end));
        proof {
            assert(done.push(piece@) + pairs(s.skip(end as int)) =~= done + pairs(
                s.skip(i as int),
            ));
            done = done.push(piece@);
        }
        out.push(piece);
        i = end;
    }
    proof {
        assert(s.skip(n as int) =~= Seq::<char>::empty());
        assert(done + pairs(s.skip(n as int)) =~= done);
    }
    out
}

} // verus!

verus! {

/// How many recent plays are kept.
pub const RECENT_PLAY_LIMIT: usize = 5;

/// The list after recording `play` as the newest: it goes first and only the
/// most recent plays are kept.
pub open spec fn spec_push_recent<T>(plays: Seq<T>, play: T) -> Seq<T> {
    let all = seq![play] + plays;
    if all.len() <= RECENT_PLAY_LIMIT {
        all
    } else {
        all.take(RECENT_PLAY_LIMIT as int)
    }
}

/// Records a finished play at the front of the recent list.
pub fn push_recent_play<T>(plays: &mut Vec<T>, play: T)
    ensures
        final(plays)@ == spec_push_recent(old(plays)@, play),
{
    plays.insert(0, play);
    plays.truncate(RECENT_PLAY_LIMIT);
    proof {
        let all = seq![play] + old(plays)@;
        assert(old(plays)@.insert(0, play) =~= all);
        if all.len() > RECENT_PLAY_LIMIT {
            assert(all.subrange(0, RECENT_PLAY_LIMIT as int) =~= all.take(
                RECENT_PLAY_LIMIT as int,
            ));
        }
    }
}

/// Keeps at most the most recent plays of a loaded list.
pub fn truncate_recent_plays<T>(plays: &mut Vec<T>)
    ensures
        final(plays)@ == (if old(plays)@.len() <= RECENT_PLAY_LIMIT {
            old(plays)@
        } else {
            old(plays)@.take(RECENT_PLAY_LIMIT as int)
        }),
{
    plays.truncate(RECENT_PLAY_LIMIT);
    proof {
        if old(plays)@.len() > RECENT_PLAY_LIMIT {
            assert(old(plays)@.subrange(0, RECENT_PLAY_LIMIT as int) =~= old(plays)@.take(
                RECENT_PLAY_LIMIT as int,
            ));
        }
    }
}

/// The recent list never holds more than the limit, and the newest play comes first.
pub proof fn lemma_recent_plays_bounded<T>(plays: Seq<T>, play: T)
    ensures
        spec_push_recent(plays, play).len() <= RECENT_PLAY_LIMIT,
        spec_push_recent(plays, play)[0] == play,
        forall|i: int|
            1 <= i < spec_push_recent(plays, play).len() ==> #[trigger] spec_push_recent(
                plays,
                play,
            )[i] == plays[i - 1],
{
}

/// The text identifying a result screen, so that one result is recorded once.
pub open spec fn spec_result_signature(
    path: Seq<char>,
    mods_text: Seq<char>,
    score: u32,
    combo: u32,
) -> Seq<char> {
    path + seq![':'] + mods_text + seq![':'] + decimal(score as nat) + seq![':'] + decimal(
        combo as nat,
    )
}

/// Builds `path:mods:score:combo` for a result.
pub fn result_signature(path: &str, mods_text: &str, score: u32, combo: u32) -> (r: String)
    ensures
        r@ == spec_result_signature(path@, mods_text@, score, combo),
{
    let mut s = owned(path);
    push_char(&mut s, ':');
    s.append(mods_text);
    push_char(&mut s, ':');
    push_decimal(&mut s, score as u64);
    push_char(&mut s, ':');
    push_decimal(&mut s, combo as u64);
    proof {
        assert(s@ =~= spec_result_signature(path@, mods_text@, score, combo));
    }
    s
}

/// Whether a session must be recorded as a new recent play, and the
/// signature remembered afterwards.
pub open spec fn spec_note_result(
    last: Option<Seq<char>>,
    phase: SessionPhase,
    signature: Seq<char>,
) -> (bool, Option<Seq<char>>) {
    if phase != SessionPhase::Result {
        (false, last)
    } else if last == Some(signature) {
        (false, last)
    } else {
        (true, Some(signature))
    }
}

pub open spec fn opt_view(o: Option<String>) -> Option<Seq<char>> {
    match o {
        Some(s) => Some(s@),
        None => None,
    }
}

/// Decides whether a session is a result not recorded yet, remembering its signature.
pub fn note_result(
    last_signature: &mut Option<String>,
    phase: SessionPhase,
    path: &str,
    mods_text: &str,
    score: u32,
    combo: u32,
) -> (r: bool)
    ensures
        ({
            let sig = spec_result_signature(path@, mods_text@, score, combo);
            let (fresh, next) = spec_note_result(opt_view(*old(last_signature)), phase, sig);
            r == fresh && opt_view(*final(last_signature)) == next
        }),
{
    if phase != SessionPhase::Result {
        return false;
    }
    let signature = result_signature(path, mods_text, score, combo);
    let same = match last_signature {
        Some(last) => crate::text::str_eq(last.as_str(), signature.as_str()),
        None => false,
    };
    if same {
        return false;
    }
    *last_signature = Some(signature);
    true
}

/// A result is recorded once: noting the same result again records nothing.
pub proof fn lemma_result_recorded_once(
    last: Option<Seq<char>>,
    phase: SessionPhase,
    signature: Seq<char>,
)
    ensures
        ({
            let (_, next) = spec_note_result(last, phase, signature);
            spec_note_result(next, phase, signature) == (false, next)
        }),
{
}

/// `artist - title [difficulty]`.
pub open spec fn spec_play_title(artist: Seq<char>, title: Seq<char>, difficulty: Seq<char>) -> Seq<
    char,
> {
    artist + " - "@ + title + " ["@ + difficulty + "]"@
}

/// Title of a map as shown in recent plays and on the overlay.
pub fn play_title(artist: &str, title: &str, difficulty: &str) -> (r: String)
    ensures
        r@ == spec_play_title(artist@, title@, difficulty@),
{
    let mut s = owned(artist);
    s.append(" - ");
    s.append(title);
    s.append(" [");
    s.append(difficulty);
    s.append("]");
    proof {
        assert(s@ =~= spec_play_title(artist@, title@, difficulty@));
    }
    s
}

} // verus!

verus! {

/// Connection detail while a session is shown.
pub open spec fn spec_connected_detail(state: GameState) -> Seq<char> {
    "Connected to osu!.exe · stable reader · "@ + game_state_label(state)
}

pub fn connected_detail(state: GameState) -> (r: String)
    ensures
        r@ == spec_connected_detail(state),
{
    joined("Connected to osu!.exe · stable reader · ", game_state_str(state))
}

/// Connection detail while osu! runs but no beatmap is known.
pub open spec fn spec_idle_detail(state: GameState) -> Seq<char> {
    if state == GameState::MainMenu {
        "osu! detected. Waiting for selected beatmap data."@
    } else {
        "osu! detected. "@ + game_state_label(state) + " is open; waiting for selected beatmap data."@
    }
}

pub fn idle_detail(state: GameState) -> (r: String)
    ensures
        r@ == spec_idle_detail(state),
{
    if state == GameState::MainMenu {
        owned("osu! detected. Waiting for selected beatmap data.")
    } else {
        let mut s = joined("osu! detected. ", game_state_str(state));
        s.append(" is open; waiting for selected beatmap data.");
        s
    }
}

/// The connection part of an idle snapshot.
pub fn idle_connection(state: GameState) -> (r: ConnectionSnapshot)
    ensures
        r.status == ConnectionStatus::Connected,
        r.detail@ == spec_idle_detail(state),
{
    crate::status::connection_snapshot(ConnectionStatus::Connected, idle_detail(state))
}

/// The connection part of a snapshot that carries a session.
pub fn session_connection(state: GameState) -> (r: ConnectionSnapshot)
    ensures
        r.status == ConnectionStatus::Connected,
        r.detail@ == spec_connected_detail(state),
{
    crate::status::connection_snapshot(ConnectionStatus::Connected, connected_detail(state))
}

/// Whether the client sits in the main menu or the editor.
pub open spec fn is_menu_or_editor(state: GameState) -> bool {
    state == GameState::MainMenu || state == GameState::Editor
}

/// What could be learnt about the selected beatmap.
#[derive(Clone, Copy, Debug, PartialEq, Eq, Structural)]
pub enum BeatmapContext {
    /// Reading the beatmap information failed.
    Unreadable,
    /// The information was read; the `.osu` file may or may not be on disk.
    Readable { file_exists: bool },
}

/// Which snapshot a poll produces.
#[derive(Clone, Copy, Debug, PartialEq, Eq, Structural)]
pub enum SnapshotRoute {
    /// Connected, without a session.
    Idle,
    /// A preview built from the beatmap context of a screen without a phase.
    MenuPreview,
    /// A session of the given phase.
    Session(SessionPhase),
    /// The last session, turned back into a preview.
    LastSessionAsPreview,
    /// Live data is unavailable; the poll reports an error.
    Unavailable,
}

/// Whether a poll in `state` reads the beatmap context at all.
pub open spec fn spec_needs_beatmap_context(state: GameState) -> bool {
    spec_phase_for_game_state(state) is Some || is_menu_or_editor(state)
}

pub fn needs_beatmap_context(state: GameState) -> (r: bool)
    ensures
        r == spec_needs_beatmap_context(state),
{
    phase_for_game_state(state).is_some() || state == GameState::MainMenu || state
        == GameState::Editor
}

/// The route of a poll, from the screen, what was read of the beatmap and
/// whether a session was shown before.
pub open spec fn spec_snapshot_route(
    state: GameState,
    context: BeatmapContext,
    has_last_session: bool,
) -> SnapshotRoute {
    match spec_phase_for_game_state(state) {
        None => {
            if is_menu_or_editor(state) && context == (BeatmapContext::Readable {
                file_exists: true,
            }) {
                SnapshotRoute::MenuPreview
            } else {
                SnapshotRoute::Idle
            }
        },
        Some(phase) => match context {
            BeatmapContext::Unreadable => {
                if is_menu_or_editor(state) && has_last_session {
                    SnapshotRoute::LastSessionAsPreview
                } else {
                    SnapshotRoute::Unavailable
                }
            },
            BeatmapContext::Readable { .. } => SnapshotRoute::Session(phase),
        },
    }
}

/// Chooses the snapshot of a poll.
pub fn snapshot_route(state: GameState, context: BeatmapContext, has_last_session: bool) -> (r:
    SnapshotRoute)
    ensures
        r == spec_snapshot_route(state, context, has_last_session),
{
    let menu = state == GameState::MainMenu || state == GameState::Editor;
    match phase_for_game_state(state) {
        None => {
            if menu {
                if let BeatmapContext::Readable { file_exists: true } = context {
                    return SnapshotRoute::MenuPreview;
                }
            }
            SnapshotRoute::Idle
        },
        Some(phase) => match context {
            BeatmapContext::Unreadable => {
                if menu && has_last_session {
                    SnapshotRoute::LastSessionAsPreview
                } else {
                    SnapshotRoute::Unavailable
                }
            },
            BeatmapContext::Readable { .. } => SnapshotRoute::Session(phase),
        },
    }
}

/// Whether the slider-break tracker forgets its play after this route.
pub fn route_resets_tracker(route: SnapshotRoute) -> (r: bool)
    ensures
        r == (route == SnapshotRoute::Session(SessionPhase::Preview)),
{
    match route {
        SnapshotRoute::Session(SessionPhase::Preview) => true,
        _ => false,
    }
}

/// A screen that shows results never leads to a preview or an idle snapshot
/// once its beatmap is readable.
pub proof fn lemma_readable_context_gives_session(state: GameState, file_exists: bool, has_last: bool)
    requires
        spec_phase_for_game_state(state) is Some,
    ensures
        spec_snapshot_route(state, BeatmapContext::Readable { file_exists }, has_last)
            == SnapshotRoute::Session(spec_phase_for_game_state(state)->0),
{
}

} // verus!

verus! {

/// Whether a file name names a `.osu` beatmap file.
pub fn is_osu_file_name(name: &str) -> (r: bool)
    ensures
        r == crate::text::ends_with(name@, ".osu"@),
{
    crate::text::str_ends_with(name, ".osu")
}

/// Whether a candidate beatmap found by its audio file replaces the best one
/// so far: any beats none, and one with an online id beats one without.
pub fn prefer_candidate(best_id: Option<i32>, candidate_id: i32) -> (r: bool)
    ensures
        r == (match best_id {
            None => true,
            Some(id) => id <= 0 && candidate_id > 0,
        }),
{
    match best_id {
        None => true,
        Some(id) => id <= 0 && candidate_id > 0,
    }
}

/// Whether a value read from memory is empty once trimmed.
pub fn is_blank(s: &str) -> (r: bool)
    ensures
        r == (crate::text::spec_trim(s@).len() == 0),
{
    crate::text::trim(s).is_empty()
}

/// The file name of a map's background: the one the `.osu` file names, else
/// the one osu! reported, else none.
pub open spec fn spec_cover_file_name(background: Seq<char>, reported: Seq<char>) -> Option<Seq<char>> {
    if background.len() > 0 {
        Some(background)
    } else if reported.len() > 0 {
        Some(reported)
    } else {
        None
    }
}

pub fn cover_file_name(background: &str, reported: &str) -> (r: Option<String>)
    ensures
        opt_view(r) == spec_cover_file_name(background@, reported@),
{
    if !background.is_empty() {
        Some(owned(background))
    } else if !reported.is_empty() {
        Some(owned(reported))
    } else {
        None
    }
}

} // verus!
