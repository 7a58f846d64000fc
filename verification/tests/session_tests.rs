use osuwapp::difficulty::DifficultyCache;
use osuwapp::game::{if_fc_state, GameMode, GameplayTracker, ScoreState};
use osuwapp::session::{
    calculation_objects, playing_counts, reading_in_range, score_state_from_reading, PlayReading,
};
use rosu_pp::{Beatmap, Difficulty};

const THREE_CIRCLES: &str = "osu file format v14

[General]
Mode: 0

[Difficulty]
HPDrainRate:5
CircleSize:4
OverallDifficulty:8
ApproachRate:9
SliderMultiplier:1.4
SliderTickRate:1

[TimingPoints]
0,500,4,2,0,100,1,0

[HitObjects]
256,192,1000,1,0,0:0:0:0:
256,192,1500,1,0,0:0:0:0:
100,100,2000,1,0,0:0:0:0:
";

fn loaded_cache() -> DifficultyCache {
    let mut cache = DifficultyCache::new();
    cache.load("a.osu", THREE_CIRCLES.as_bytes(), "").expect("valid map");
    cache
}

fn reading(n300: i32, misses: i32, combo: i32) -> PlayReading {
    PlayReading {
        max_combo: combo,
        n_geki: 0,
        n_katu: 0,
        n300,
        n100: 0,
        n50: 0,
        misses,
        combo,
        retries: 0,
        score: 1000,
    }
}

#[test]
fn cache_without_a_map_reports_an_error() {
    let mut cache = DifficultyCache::new();
    assert!(cache.needs_reload("a.osu"));
    assert_eq!(cache.difficulty_for(0).unwrap_err(), "Beatmap cache was not initialized");
    assert!(cache.partial_difficulty(0, 1).is_err());
    assert_eq!(cache.cover_path(), None);
}

#[test]
fn cache_keeps_the_loaded_map_and_its_attributes() {
    let mut cache = DifficultyCache::new();
    assert_eq!(cache.load("a.osu", THREE_CIRCLES.as_bytes(), "bg.jpg"), Ok(Some("bg.jpg".to_string())));
    assert!(!cache.needs_reload("a.osu"));
    assert!(cache.needs_reload("b.osu"));
    assert_eq!(cache.cover_path(), None);
    cache.set_cover_path(Some("C:/songs/bg.jpg".to_string()));
    assert_eq!(cache.cover_path(), Some("C:/songs/bg.jpg".to_string()));
    let first = cache.no_mod_difficulty().expect("calculated");
    assert_eq!(first.max_combo(), 3);
    let again = cache.difficulty_for(0).expect("cached");
    assert_eq!(first.stars(), again.stars());
    let hard_rock = cache.difficulty_for(16).expect("calculated");
    assert_eq!(hard_rock.max_combo(), 3);
    let partial = cache.partial_difficulty(0, 2).expect("calculated");
    assert_eq!(partial.max_combo(), 2);
}

#[test]
fn readings_clamp_negative_counts() {
    let s = score_state_from_reading(&PlayReading { misses: -3, n100: -1, ..reading(5, 0, 4) });
    assert_eq!(s, ScoreState { max_combo: 4, n_geki: 0, n_katu: 0, n300: 5, n100: 0, n50: 0, misses: 0 });
}

#[test]
fn playing_counts_track_slider_breaks() {
    let mut cache = loaded_cache();
    let difficulty = cache.no_mod_difficulty().unwrap();
    let mut tracker = GameplayTracker::default();
    let c = playing_counts(&mut tracker, GameMode::Osu, "a.osu", &reading(1, 0, 1), difficulty.max_combo());
    assert_eq!((c.passed_objects, c.combo, c.score, c.map_max_combo, c.slider_breaks), (1, 1, 1000, 3, 0));
    let c = playing_counts(&mut tracker, GameMode::Osu, "a.osu", &reading(2, 0, 2), difficulty.max_combo());
    assert_eq!(c.slider_breaks, 0);
    let c = playing_counts(&mut tracker, GameMode::Osu, "a.osu", &PlayReading { combo: 0, ..reading(2, 0, 2) }, difficulty.max_combo());
    assert_eq!(c.slider_breaks, 1);
    assert_eq!(tracker.slider_breaks, 1);
    let c = playing_counts(&mut tracker, GameMode::Osu, "b.osu", &reading(1, 0, 1), difficulty.max_combo());
    assert_eq!(c.slider_breaks, 0);
}

#[test]
fn if_fc_uses_the_map_combo() {
    let mut cache = loaded_cache();
    let difficulty = cache.no_mod_difficulty().unwrap();
    let s = ScoreState { max_combo: 1, n_geki: 0, n_katu: 0, n300: 2, n100: 0, n50: 0, misses: 1 };
    let fc = if_fc_state(&s, difficulty.max_combo());
    assert_eq!((fc.n300, fc.misses, fc.max_combo), (3, 0, 3));
}

#[test]
fn calculations_cover_at_least_one_object() {
    assert_eq!(calculation_objects(0), 1);
    assert_eq!(calculation_objects(1), 1);
    assert_eq!(calculation_objects(25), 25);
}

#[test]
fn huge_readings_are_out_of_range() {
    assert!(reading_in_range(GameMode::Osu, &reading(10, 1, 5)));
    let huge = PlayReading { n100: i32::MAX, misses: i32::MAX, ..reading(i32::MAX, 0, 0) };
    assert!(!reading_in_range(GameMode::Osu, &huge));
    assert!(reading_in_range(GameMode::Unknown, &huge));
    assert!(reading_in_range(GameMode::Taiko, &PlayReading { n50: i32::MAX, ..reading(i32::MAX, 0, 0) }));
}

#[test]
fn playing_counts_keep_the_given_map_combo() {
    let mut tracker = GameplayTracker::default();
    let c = playing_counts(&mut tracker, GameMode::Osu, "a.osu", &reading(1, 0, 5), 7);
    assert_eq!(c.map_max_combo, 7);
    playing_counts(&mut tracker, GameMode::Osu, "a.osu", &reading(2, 0, 6), 7);
    let c = playing_counts(&mut tracker, GameMode::Osu, "a.osu", &PlayReading { combo: 1, ..reading(3, 0, 6) }, 7);
    assert_eq!(c.slider_breaks, 1);
    let c = playing_counts(&mut tracker, GameMode::Osu, "a.osu", &PlayReading { combo: 0, ..reading(4, 0, 6) }, 1);
    assert_eq!(c.slider_breaks, 1);
}

#[test]
fn cache_gives_what_rosu_pp_calculates() {
    let map = Beatmap::from_bytes(THREE_CIRCLES.as_bytes()).unwrap();
    let mut cache = loaded_cache();
    let dt = cache.difficulty_for(64).unwrap();
    assert_eq!(dt, Difficulty::new().mods(64u32).calculate(&map));
    let partial = cache.partial_difficulty(64, 2).unwrap();
    assert_eq!(partial, Difficulty::new().mods(64u32).passed_objects(2).calculate(&map));
}

#[test]
fn a_map_with_a_background_names_it() {
    let with_background = THREE_CIRCLES.replace(
        "[Difficulty]",
        "[Events]\n0,0,\"bg.png\",0,0\n\n[Difficulty]",
    );
    let mut cache = loaded_cache();
    assert_eq!(cache.load("b.osu", with_background.as_bytes(), "other.jpg"), Ok(Some("bg.png".to_string())));
    assert_eq!(cache.load("c.osu", THREE_CIRCLES.as_bytes(), ""), Ok(None));
}

