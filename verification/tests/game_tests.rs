use osuwapp::game::{
    accuracy_fraction, connected_detail, cover_file_name, format_game_state, format_mods,
    hit_snapshot, idle_connection, idle_detail, if_fc_state, is_blank, is_osu_file_name,
    needs_beatmap_context, note_result, phase_for_game_state, play_title, prefer_candidate,
    push_recent_play, result_signature, route_resets_tracker, snapshot_route, split_mods,
    total_passed_objects, truncate_recent_plays, BeatmapContext, GameMode, GameState,
    GameplayTracker, ScoreState, SnapshotRoute,
};
use osuwapp::models::{ConnectionStatus, SessionPhase};
use osuwapp::status::{connection_snapshot, millis_or_zero, now_ms};

fn score(n300: u32, n100: u32, n50: u32, misses: u32) -> ScoreState {
    ScoreState { max_combo: 0, n_geki: 0, n_katu: 0, n300, n100, n50, misses }
}

#[test]
fn game_states_have_labels() {
    assert_eq!(format_game_state(GameState::MainMenu), "Main menu");
    assert_eq!(format_game_state(GameState::MultiplayerResultScreenTeamVs), "Team VS result");
    assert_eq!(format_game_state(GameState::Unknown), "Unknown");
}

#[test]
fn phases_follow_screens() {
    assert_eq!(phase_for_game_state(GameState::SongSelect), Some(SessionPhase::Preview));
    assert_eq!(phase_for_game_state(GameState::Editor), Some(SessionPhase::Preview));
    assert_eq!(phase_for_game_state(GameState::Playing), Some(SessionPhase::Playing));
    assert_eq!(phase_for_game_state(GameState::MultiplayerResultScreen), Some(SessionPhase::Result));
    assert_eq!(phase_for_game_state(GameState::Busy), None);
}

#[test]
fn passed_objects_per_mode() {
    let s = ScoreState { max_combo: 0, n_geki: 1, n_katu: 2, n300: 10, n100: 3, n50: 4, misses: 5 };
    assert_eq!(total_passed_objects(GameMode::Osu, &s), 22);
    assert_eq!(total_passed_objects(GameMode::Taiko, &s), 18);
    assert_eq!(total_passed_objects(GameMode::Catch, &s), 24);
    assert_eq!(total_passed_objects(GameMode::Mania, &s), 25);
    assert_eq!(total_passed_objects(GameMode::Unknown, &s), 0);
}

#[test]
fn accuracy_fractions_per_mode() {
    let s = ScoreState { max_combo: 0, n_geki: 1, n_katu: 2, n300: 10, n100: 3, n50: 4, misses: 5 };
    assert_eq!(accuracy_fraction(GameMode::Osu, &s), Some((70, 132)));
    assert_eq!(accuracy_fraction(GameMode::Taiko, &s), Some((23, 36)));
    assert_eq!(accuracy_fraction(GameMode::Catch, &s), Some((17, 24)));
    assert_eq!(accuracy_fraction(GameMode::Mania, &s), Some((84, 150)));
    assert_eq!(accuracy_fraction(GameMode::Unknown, &s), None);
    assert_eq!(accuracy_fraction(GameMode::Osu, &score(0, 0, 0, 0)), None);
    // 100% for a perfect osu! play
    assert_eq!(accuracy_fraction(GameMode::Osu, &score(7, 0, 0, 0)), Some((42, 42)));
}

#[test]
fn if_fc_turns_misses_into_300s() {
    let s = score(10, 3, 4, 5);
    let fc = if_fc_state(&s, 321);
    assert_eq!(fc, ScoreState { max_combo: 321, n_geki: 0, n_katu: 0, n300: 15, n100: 3, n50: 4, misses: 0 });
    assert_eq!(total_passed_objects(GameMode::Osu, &fc), total_passed_objects(GameMode::Osu, &s));
    let (n0, d0) = accuracy_fraction(GameMode::Osu, &s).unwrap();
    let (n1, d1) = accuracy_fraction(GameMode::Osu, &fc).unwrap();
    assert_eq!(d0, d1);
    assert!(n1 >= n0);
}

#[test]
fn hit_snapshot_carries_counts() {
    let h = hit_snapshot(&score(1, 2, 3, 4), 9);
    assert_eq!((h.n300, h.n100, h.n50, h.misses, h.slider_breaks), (1, 2, 3, 4, 9));
}

#[test]
fn slider_break_counted_on_combo_drop_without_miss() {
    let mut t = GameplayTracker::default();
    assert_eq!(t.update(GameMode::Osu, "a.osu", 0, 10, 0, 10, 500), 0);
    assert_eq!(t.update(GameMode::Osu, "a.osu", 0, 20, 0, 20, 500), 0);
    // combo dropped, no new miss: slider break
    assert_eq!(t.update(GameMode::Osu, "a.osu", 0, 1, 0, 21, 500), 1);
    // combo dropped with a miss: no slider break
    assert_eq!(t.update(GameMode::Osu, "a.osu", 0, 5, 0, 26, 500), 1);
    assert_eq!(t.update(GameMode::Osu, "a.osu", 0, 0, 1, 27, 500), 1);
    // same poll repeated adds nothing
    assert_eq!(t.update(GameMode::Osu, "a.osu", 0, 0, 1, 27, 500), 1);
}

#[test]
fn slider_break_not_counted_at_full_combo_or_other_modes() {
    let mut t = GameplayTracker::default();
    t.update(GameMode::Osu, "a.osu", 0, 500, 0, 500, 500);
    assert_eq!(t.update(GameMode::Osu, "a.osu", 0, 0, 0, 501, 500), 0);
    let mut m = GameplayTracker::default();
    m.update(GameMode::Mania, "b.osu", 0, 50, 0, 50, 500);
    assert_eq!(m.update(GameMode::Mania, "b.osu", 0, 1, 0, 51, 500), 0);
}

#[test]
fn restart_resets_slider_breaks() {
    let mut t = GameplayTracker::default();
    t.update(GameMode::Osu, "a.osu", 0, 30, 0, 30, 500);
    assert_eq!(t.update(GameMode::Osu, "a.osu", 0, 2, 0, 31, 500), 1);
    // fewer passed objects: restart
    assert_eq!(t.update(GameMode::Osu, "a.osu", 0, 0, 0, 0, 500), 0);
    t.update(GameMode::Osu, "a.osu", 1, 30, 0, 30, 500);
    assert_eq!(t.update(GameMode::Osu, "a.osu", 1, 2, 0, 31, 500), 1);
    // another map: restart
    assert_eq!(t.update(GameMode::Osu, "b.osu", 1, 2, 0, 31, 500), 0);
    t.reset();
    assert_eq!(t.slider_breaks, 0);
    assert!(t.beatmap_path.is_none());
}

#[test]
fn mods_are_formatted_and_split() {
    assert_eq!(format_mods(0), "NM");
    assert_eq!(format_mods(8 + 16), "HDHR");
    assert!(split_mods(0).is_empty());
    assert_eq!(split_mods(8 + 16 + 64), vec!["HD".to_string(), "HR".to_string(), "DT".to_string()]);
    assert_eq!(split_mods(1 << 9 | 1 << 6), vec!["NC".to_string()]);
}

#[test]
fn recent_plays_keep_five_newest_first() {
    let mut plays: Vec<u32> = vec![];
    for i in 0..8 {
        push_recent_play(&mut plays, i);
        assert!(plays.len() <= 5);
        assert_eq!(plays[0], i);
    }
    assert_eq!(plays, vec![7, 6, 5, 4, 3]);
    let mut loaded = vec![1, 2, 3, 4, 5, 6, 7];
    truncate_recent_plays(&mut loaded);
    assert_eq!(loaded, vec![1, 2, 3, 4, 5]);
}

#[test]
fn a_result_is_recorded_once() {
    let mut last = None;
    assert!(!note_result(&mut last, SessionPhase::Playing, "p", "HD", 1, 2));
    assert!(last.is_none());
    assert!(note_result(&mut last, SessionPhase::Result, "p", "HD", 1000, 250));
    assert_eq!(last.as_deref(), Some("p:HD:1000:250"));
    assert!(!note_result(&mut last, SessionPhase::Result, "p", "HD", 1000, 250));
    assert!(note_result(&mut last, SessionPhase::Result, "p", "HD", 1001, 250));
}

#[test]
fn signature_and_title_text() {
    assert_eq!(result_signature("C:/s/a.osu", "NM", 0, 1234567), "C:/s/a.osu:NM:0:1234567");
    assert_eq!(play_title("Artist", "Song", "Insane"), "Artist - Song [Insane]");
}

#[test]
fn connection_details() {
    assert_eq!(connected_detail(GameState::SongSelect), "Connected to osu!.exe · stable reader · Song select");
    assert_eq!(idle_detail(GameState::MainMenu), "osu! detected. Waiting for selected beatmap data.");
    assert_eq!(idle_detail(GameState::Busy), "osu! detected. Busy is open; waiting for selected beatmap data.");
    let c = idle_connection(GameState::Update);
    assert_eq!(c.status, ConnectionStatus::Connected);
    assert_eq!(c.detail, "osu! detected. Update is open; waiting for selected beatmap data.");
}

#[test]
fn snapshots_are_stamped_with_the_clock() {
    let before = now_ms();
    let c = connection_snapshot(ConnectionStatus::Searching, "Looking".to_string());
    assert_eq!(c.status, ConnectionStatus::Searching);
    assert_eq!(c.detail, "Looking");
    assert!(c.updated_at_ms >= before);
    assert!(before > 1_600_000_000_000);
}

#[test]
fn snapshot_routes() {
    let readable = BeatmapContext::Readable { file_exists: false };
    assert_eq!(snapshot_route(GameState::Playing, readable, false), SnapshotRoute::Session(SessionPhase::Playing));
    assert_eq!(snapshot_route(GameState::ResultScreen, readable, true), SnapshotRoute::Session(SessionPhase::Result));
    assert_eq!(snapshot_route(GameState::MainMenu, BeatmapContext::Unreadable, true), SnapshotRoute::LastSessionAsPreview);
    assert_eq!(snapshot_route(GameState::MainMenu, BeatmapContext::Unreadable, false), SnapshotRoute::Unavailable);
    assert_eq!(snapshot_route(GameState::SongSelect, BeatmapContext::Unreadable, true), SnapshotRoute::Unavailable);
    assert_eq!(snapshot_route(GameState::Busy, BeatmapContext::Unreadable, true), SnapshotRoute::Idle);
    assert!(needs_beatmap_context(GameState::Editor));
    assert!(!needs_beatmap_context(GameState::Busy));
    assert!(route_resets_tracker(SnapshotRoute::Session(SessionPhase::Preview)));
    assert!(!route_resets_tracker(SnapshotRoute::Session(SessionPhase::Playing)));
}

#[test]
fn menu_beatmap_helpers() {
    assert!(is_osu_file_name("Artist - Song (Mapper) [Hard].osu"));
    assert!(!is_osu_file_name("audio.mp3"));
    assert!(!is_osu_file_name("osu"));
    assert!(prefer_candidate(None, -1));
    assert!(prefer_candidate(Some(0), 5));
    assert!(!prefer_candidate(Some(3), 5));
    assert!(!prefer_candidate(Some(0), 0));
    assert!(is_blank("  \t"));
    assert!(!is_blank(" a "));
    assert_eq!(cover_file_name("bg.jpg", "other.png"), Some("bg.jpg".to_string()));
    assert_eq!(cover_file_name("", "other.png"), Some("other.png".to_string()));
    assert_eq!(cover_file_name("", ""), None);
}

#[test]
fn split_mods_rejoin_to_the_mod_text() {
    for bits in [8u32, 8 + 16 + 64, (1 << 9) | (1 << 6) | 1, (1 << 14) | (1 << 5) | 2] {
        let pieces = split_mods(bits);
        assert!(pieces.iter().all(|p| p.len() == 2));
        assert_eq!(pieces.concat(), format_mods(bits));
    }
}

#[test]
fn clock_readings_become_timestamps() {
    assert_eq!(millis_or_zero(Some(1_700_000_000_123)), 1_700_000_000_123);
    assert_eq!(millis_or_zero(None), 0);
    assert_eq!(millis_or_zero(Some(u64::MAX as u128 + 5)), 4);
}
