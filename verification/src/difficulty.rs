//! The per-map cache of difficulty attributes, keyed by mod bits.

use vstd::prelude::*;

use rosu_pp::any::DifficultyAttributes;
use rosu_pp::{Beatmap, Difficulty};
use std::collections::HashMap;

use crate::game::{cover_file_name, opt_view, spec_cover_file_name};
use crate::map_file::{io_error_text, map_file_fields, parse_map_fields};
use crate::text::{owned, str_eq};

verus! {

broadcast use vstd::std_specs::hash::group_hash_axioms;

#[verifier::external_type_specification]
#[verifier::external_body]
pub struct ExBeatmap(Beatmap);

#[verifier::external_type_specification]
#[verifier::external_body]
pub struct ExDifficultyAttributes(DifficultyAttributes);

#[verifier::external_type_specification]
#[verifier::external_body]
pub struct ExDifficulty(Difficulty);

/// The map rosu-pp parses from the bytes of a `.osu` file; `None` where
/// the bytes do not parse.
pub uninterp spec fn beatmap_of(bytes: Seq<u8>) -> Option<Beatmap>;

/// Trusted: calls `rosu_pp::Beatmap::from_bytes`. The parse depends on the
/// bytes alone, so its outcome is named by them; malformed input is an error.
#[verifier::external_body]
fn parse_beatmap(bytes: &[u8]) -> (r: Result<Beatmap, std::io::Error>)
    ensures
        r is Ok <==> beatmap_of(bytes@) is Some,
        r matches Ok(m) ==> beatmap_of(bytes@) == Some(m),
{
    Beatmap::from_bytes(bytes)
}

/// The difficulty attributes rosu-pp calculates for a whole map under the
/// legacy mod bits `mods`.
pub uninterp spec fn full_attributes(map: Beatmap, mods: u32) -> DifficultyAttributes;

/// The difficulty attributes rosu-pp calculates for the first `passed`
/// objects of a map under the legacy mod bits `mods`.
pub uninterp spec fn partial_attributes(map: Beatmap, mods: u32, passed: u32) -> DifficultyAttributes;

/// Trusted: calls `Difficulty::new().mods(mods).calculate(map)`. The
/// calculation is a function of the map and the mods; it dispatches on the
/// map's own mode, so it does not panic.
#[verifier::external_body]
fn calculate_full(map: &Beatmap, mods: u32) -> (r: DifficultyAttributes)
    ensures
        r == full_attributes(*map, mods),
{
    Difficulty::new().mods(mods).calculate(map)
}

/// Trusted: calls `Difficulty::new().mods(mods).passed_objects(passed).calculate(map)`,
/// a function of the map, the mods and the object count.
#[verifier::external_body]
fn calculate_partial(map: &Beatmap, mods: u32, passed: u32) -> (r: DifficultyAttributes)
    ensures
        r == partial_attributes(*map, mods, passed),
{
    Difficulty::new().mods(mods).passed_objects(passed).calculate(map)
}

/// Trusted: calls the derived `Clone` of `DifficultyAttributes`, a plain
/// data enum, so the copy equals the value it was made from.
#[verifier::external_body]
fn clone_attributes(a: &DifficultyAttributes) -> (r: DifficultyAttributes)
    ensures
        r == *a,
{
    a.clone()
}

/// Loaded map of the selected beatmap with the difficulty attributes
/// already calculated for it, by mod bits.
pub struct DifficultyCache {
    path: Option<String>,
    map: Option<Beatmap>,
    difficulty_by_mods: HashMap<u32, DifficultyAttributes>,
    cover_path: Option<String>,
}

/// Model of the cache.
pub struct DifficultyCacheView {
    pub path: Option<Seq<char>>,
    pub map: Option<Beatmap>,
    pub difficulties: Map<u32, DifficultyAttributes>,
    pub cover_path: Option<Seq<char>>,
}

impl View for DifficultyCache {
    type V = DifficultyCacheView;

    closed spec fn view(&self) -> DifficultyCacheView {
        DifficultyCacheView {
            path: opt_view(self.path),
            map: self.map,
            difficulties: self.difficulty_by_mods@,
            cover_path: opt_view(self.cover_path),
        }
    }
}

/// Every cached entry is what the loaded map gives under its mods; without
/// a map nothing is cached.
pub open spec fn consistent(v: DifficultyCacheView) -> bool {
    match v.map {
        Some(m) => forall|k: u32| #[trigger] v.difficulties.contains_key(k) ==> v.difficulties[k]
            == full_attributes(m, k),
        None => v.difficulties == Map::<u32, DifficultyAttributes>::empty(),
    }
}

impl DifficultyCache {
    #[verifier::type_invariant]
    spec fn cache_inv(self) -> bool {
        consistent(self@)
    }
}

/// The message of a lookup without a loaded map.
pub open spec fn no_map_message() -> Seq<char> {
    "Beatmap cache was not initialized"@
}

/// One lookup of the cache: the attributes of the loaded map under `mods`,
/// remembered for the next lookup; an error when no map is loaded.
pub open spec fn spec_difficulty_step(
    old: DifficultyCacheView,
    mods: u32,
    r: Result<DifficultyAttributes, Seq<char>>,
    new: DifficultyCacheView,
) -> bool {
    match old.map {
        Some(m) => r == Ok::<DifficultyAttributes, Seq<char>>(full_attributes(m, mods)) && new
            == DifficultyCacheView { difficulties: old.difficulties.insert(mods, full_attributes(m, mods)), ..old },
        None => r == Err::<DifficultyAttributes, Seq<char>>(no_map_message()) && new == old,
    }
}

pub open spec fn result_view(r: Result<DifficultyAttributes, String>) -> Result<
    DifficultyAttributes,
    Seq<char>,
> {
    match r {
        Ok(a) => Ok(a),
        Err(e) => Err(e@),
    }
}

impl DifficultyCache {
    /// An empty cache.
    pub fn new() -> (r: Self)
        ensures
            r@.path is None,
            r@.map is None,
            r@.difficulties == Map::<u32, DifficultyAttributes>::empty(),
            r@.cover_path is None,
            consistent(r@),
    {
        DifficultyCache { path: None, map: None, difficulty_by_mods: HashMap::new(), cover_path: None }
    }

    /// Whether the map at `path` must be loaded because another map (or none) is cached.
    pub fn needs_reload(&self, path: &str) -> (r: bool)
        ensures
            r == (self@.path != Some(path@)),
    {
        match &self.path {
            Some(cached) => !str_eq(cached.as_str(), path),
            None => true,
        }
    }

    /// Loads the map in the bytes of the `.osu` file at `path`, forgetting
    /// every attribute of the previous map and its background. Gives the
    /// file name of the map's background (the one the file names, else
    /// `reported_cover`), or the parse error, leaving the cache as it was.
    pub fn load(&mut self, path: &str, bytes: &[u8], reported_cover: &str) -> (r: Result<
        Option<String>,
        String,
    >)
        ensures
            r is Ok <==> (beatmap_of(bytes@) is Some && map_file_fields(bytes@) is Some),
            r is Ok ==> final(self)@ == (DifficultyCacheView {
                path: Some(path@),
                map: beatmap_of(bytes@),
                difficulties: Map::<u32, DifficultyAttributes>::empty(),
                cover_path: None,
            }),
            r matches Ok(c) ==> (map_file_fields(bytes@) matches Some(f) && opt_view(c)
                == spec_cover_file_name(f.0, reported_cover@)),
            r is Err ==> final(self)@ == old(self)@,
            consistent(final(self)@),
    {
        proof {
            use_type_invariant(&*self);
        }
        let map = match parse_beatmap(bytes) {
            Ok(m) => m,
            Err(e) => return Err(io_error_text(&e)),
        };
        let fields = match parse_map_fields(bytes) {
            Ok(f) => f,
            Err(e) => return Err(io_error_text(&e)),
        };
        self.difficulty_by_mods = HashMap::new();
        self.map = Some(map);
        self.path = Some(owned(path));
        self.cover_path = None;
        Ok(cover_file_name(fields.0.as_str(), reported_cover))
    }

    /// Records where the background image of the loaded map was found.
    pub fn set_cover_path(&mut self, cover_path: Option<String>)
        ensures
            final(self)@ == (DifficultyCacheView { cover_path: opt_view(cover_path), ..old(self)@ }),
            consistent(final(self)@),
    {
        proof {
            use_type_invariant(&*self);
        }
        self.cover_path = cover_path;
    }

    /// The background image path found for the cached map.
    pub fn cover_path(&self) -> (r: Option<String>)
        ensures
            opt_view(r) == self@.cover_path,
    {
        match &self.cover_path {
            Some(p) => Some(owned(p.as_str())),
            None => None,
        }
    }

    /// Attributes of the cached map under `mods`, calculated once per mods.
    pub fn difficulty_for(&mut self, mods: u32) -> (r: Result<DifficultyAttributes, String>)
        ensures
            spec_difficulty_step(old(self)@, mods, result_view(r), final(self)@),
            consistent(final(self)@),
    {
        proof {
            use_type_invariant(&*self);
        }
        if let Some(cached) = self.difficulty_by_mods.get(&mods) {
            let r = clone_attributes(cached);
            proof {
                assert(self@.difficulties.insert(mods, r) =~= self@.difficulties);
            }
            return Ok(r);
        }
        let difficulty = match &self.map {
            Some(map) => calculate_full(map, mods),
            None => {
                let e = owned("Beatmap cache was not initialized");
                proof {
                    reveal_strlit("Beatmap cache was not initialized");
                }
                return Err(e);
            },
        };
        let kept = clone_attributes(&difficulty);
        let ghost before = self.difficulty_by_mods@;
        let ghost m = self.map->0;
        assert(consistent(self@));
        assert(self.map is Some);
        assert forall|k: u32| #[trigger] before.contains_key(k) implies before[k] == full_attributes(m, k) by {
            assert(self@.difficulties.contains_key(k));
            assert(self@.map == Some(m));
        }
        let mut table: HashMap<u32, DifficultyAttributes> = HashMap::new();
        std::mem::swap(&mut table, &mut self.difficulty_by_mods);
        assert(table@ == before);
        table.insert(mods, kept);
        assert(table@ == before.insert(mods, full_attributes(m, mods)));
        assert forall|k: u32| #[trigger] table@.contains_key(k) implies table@[k] == full_attributes(m, k) by {
            if k != mods {
                assert(before.contains_key(k));
            }
        }
        self.difficulty_by_mods = table;
        Ok(difficulty)
    }

    /// Attributes of the no-mod play of the cached map.
    pub fn no_mod_difficulty(&mut self) -> (r: Result<DifficultyAttributes, String>)
        ensures
            spec_difficulty_step(old(self)@, 0, result_view(r), final(self)@),
            consistent(final(self)@),
    {
        self.difficulty_for(0)
    }

    /// Attributes of the first `passed` objects of the cached map under `mods`
    /// (not cached); an error when no map is loaded.
    pub fn partial_difficulty(&self, mods: u32, passed: u32) -> (r: Result<
        DifficultyAttributes,
        String,
    >)
        ensures
            result_view(r) == (match self@.map {
                Some(m) => Ok::<DifficultyAttributes, Seq<char>>(partial_attributes(m, mods, passed)),
                None => Err::<DifficultyAttributes, Seq<char>>(no_map_message()),
            }),
    {
        match &self.map {
            Some(map) => Ok(calculate_partial(map, mods, passed)),
            None => {
                let e = owned("Beatmap cache was not initialized");
                proof {
                    reveal_strlit("Beatmap cache was not initialized");
                }
                Err(e)
            },
        }
    }
}

/// What a lookup gives back is what a later lookup with the same mods gives
/// back: attributes are calculated once per map and mods.
pub proof fn lemma_lookup_is_stable(
    c0: DifficultyCacheView,
    mods: u32,
    r1: Result<DifficultyAttributes, Seq<char>>,
    c1: DifficultyCacheView,
    r2: Result<DifficultyAttributes, Seq<char>>,
    c2: DifficultyCacheView,
)
    requires
        spec_difficulty_step(c0, mods, r1, c1),
        spec_difficulty_step(c1, mods, r2, c2),
        r1 is Ok,
    ensures
        r2 == r1,
        c2 == c1,
{
    if let Some(m) = c1.map {
        assert(c1.difficulties.insert(mods, full_attributes(m, mods)) =~= c1.difficulties);
    }
}

/// A lookup keeps every attribute already cached for other mods.
pub proof fn lemma_lookup_keeps_others(
    c0: DifficultyCacheView,
    mods: u32,
    r: Result<DifficultyAttributes, Seq<char>>,
    c1: DifficultyCacheView,
    other: u32,
)
    requires
        spec_difficulty_step(c0, mods, r, c1),
        other != mods,
        c0.difficulties.contains_key(other),
    ensures
        c1.difficulties.contains_key(other),
        c1.difficulties[other] == c0.difficulties[other],
{
}

} // verus!
