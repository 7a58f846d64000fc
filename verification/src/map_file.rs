//! What the library reads out of `.osu` files: the background image and
//! audio file names and the online beatmap id, and the choice of the file
//! that belongs to the song playing in the main menu.

use vstd::prelude::*;

use crate::game::prefer_candidate;
use crate::text::{eq_ignore_ascii_case, spec_eq_ignore_ascii_case};

verus! {

#[verifier::external_type_specification]
#[verifier::external_body]
pub struct ExIoError(std::io::Error);

/// The background file name, audio file name and online beatmap id that
/// rosu-map reads from the bytes of a `.osu` file; `None` where it cannot
/// parse them.
pub uninterp spec fn map_file_fields(bytes: Seq<u8>) -> Option<(Seq<char>, Seq<char>, i32)>;

/// Trusted: calls `rosu_map::Beatmap::from_bytes` and keeps the parsed
/// map's `background_file`, `audio_file` and `beatmap_id`. The parse
/// depends on the bytes alone, so its outcome is named by them; it reports
/// malformed input as an error rather than panicking.
#[verifier::external_body]
pub(crate) fn parse_map_fields(bytes: &[u8]) -> (r: Result<(String, String, i32), std::io::Error>)
    ensures
        r is Ok <==> map_file_fields(bytes@) is Some,
        r matches Ok(f) ==> map_file_fields(bytes@) == Some((f.0@, f.1@, f.2)),
{
    rosu_map::Beatmap::from_bytes(bytes).map(|m| (m.background_file, m.audio_file, m.beatmap_id))
}

/// Trusted: calls `Display::to_string` on an I/O error. Nothing is stated
/// of the text.
#[verifier::external_body]
pub(crate) fn io_error_text(e: &std::io::Error) -> String {
    e.to_string()
}

/// The bytes of each candidate file.
pub open spec fn bytes_of(candidates: Seq<Vec<u8>>) -> Seq<Seq<u8>> {
    candidates.map_values(|v: Vec<u8>| v@)
}

/// Whether a candidate file parses and names `audio` as its audio file, up
/// to ASCII case.
pub open spec fn audio_matches(candidate: Seq<u8>, audio: Seq<char>) -> bool {
    map_file_fields(candidate) matches Some(f) && spec_eq_ignore_ascii_case(f.1, audio)
}

/// The online id a candidate file gives.
pub open spec fn map_id(candidate: Seq<u8>) -> i32 {
    match map_file_fields(candidate) {
        Some(f) => f.2,
        None => 0,
    }
}

/// Whether a candidate with id `id` replaces the best one so far (whose id
/// is `best`): any beats none, and one with an online id beats one without.
pub open spec fn prefers(best: Option<i32>, id: i32) -> bool {
    match best {
        None => true,
        Some(b) => b <= 0 && id > 0,
    }
}

/// The index of the file that belongs to the menu's song: going through the
/// candidates in order, a file whose audio matches replaces the one chosen
/// so far when it is preferred to it.
pub open spec fn spec_pick(candidates: Seq<Seq<u8>>, audio: Seq<char>) -> Option<int>
    decreases candidates.len(),
{
    if candidates.len() == 0 {
        None
    } else {
        let prev = spec_pick(candidates.drop_last(), audio);
        let i = candidates.len() - 1;
        let best_id = match prev {
            Some(j) => Some(map_id(candidates[j])),
            None => None,
        };
        if audio_matches(candidates[i], audio) && prefers(best_id, map_id(candidates[i])) {
            Some(i)
        } else {
            prev
        }
    }
}

proof fn lemma_pick_in_range(candidates: Seq<Seq<u8>>, audio: Seq<char>)
    ensures
        spec_pick(candidates, audio) matches Some(j) ==> 0 <= j < candidates.len(),
    decreases candidates.len(),
{
    if candidates.len() > 0 {
        lemma_pick_in_range(candidates.drop_last(), audio);
    }
}

/// Picks, among the bytes of the `.osu` files of a song folder, the file
/// whose audio is the menu's song `audio`, preferring one with an online id.
pub fn pick_menu_beatmap(candidates: &Vec<Vec<u8>>, audio: &str) -> (r: Option<usize>)
    ensures
        match r {
            Some(i) => spec_pick(bytes_of(candidates@), audio@) == Some(i as int),
            None => spec_pick(bytes_of(candidates@), audio@) is None,
        },
{
    let n = candidates.len();
    let ghost all = bytes_of(candidates@);
    let mut best: Option<usize> = None;
    let mut best_id: Option<i32> = None;
    let mut i: usize = 0;
    while i < n
        invariant
            n == candidates@.len(),
            all == bytes_of(candidates@),
            i <= n,
            spec_pick(all.take(i as int), audio@) == (match best {
                Some(b) => Some(b as int),
                None => None,
            }),
            best matches Some(b) ==> b < i && best_id == Some(map_id(all[b as int])),
            best is None ==> best_id is None,
        decreases n - i,
    {
        let fields = parse_map_fields(candidates[i].as_slice());
        proof {
            let t = all.take(i + 1);
            assert(t.drop_last() =~= all.take(i as int));
            assert(t[i as int] == all[i as int]);
            assert(all[i as int] == candidates@[i as int]@);
            lemma_pick_in_range(all.take(i as int), audio@);
            if let Some(b) = best {
                assert(t[b as int] == all[b as int]);
            }
        }
        match fields {
            Ok((_, file_audio, id)) => {
                if eq_ignore_ascii_case(file_audio.as_str(), audio) && prefer_candidate(best_id, id) {
                    best = Some(i);
                    best_id = Some(id);
                }
            },
            Err(_) => {},
        }
        i = i + 1;
    }
    proof {
        assert(all.take(n as int) =~= all);
    }
    best
}

} // verus!
