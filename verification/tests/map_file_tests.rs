use osuwapp::map_file::pick_menu_beatmap;

fn osu_file(audio: &str, id: i32) -> Vec<u8> {
    format!(
        "osu file format v14\n\n[General]\nAudioFilename: {audio}\nMode: 0\n\n[Metadata]\nBeatmapID:{id}\n\n[HitObjects]\n256,192,1000,1,0,0:0:0:0:\n"
    )
    .into_bytes()
}

#[test]
fn menu_song_picks_the_file_with_its_audio() {
    let files = vec![osu_file("other.mp3", 5), osu_file("Song.MP3", 0), osu_file("song.mp3", 0)];
    assert_eq!(pick_menu_beatmap(&files, "song.mp3"), Some(1));
}

#[test]
fn menu_song_prefers_a_file_with_an_online_id() {
    let files = vec![osu_file("song.mp3", 0), osu_file("song.mp3", 42), osu_file("song.mp3", 43)];
    assert_eq!(pick_menu_beatmap(&files, "song.mp3"), Some(1));
}

#[test]
fn menu_song_without_a_match_picks_nothing() {
    let files = vec![osu_file("other.mp3", 5)];
    assert_eq!(pick_menu_beatmap(&files, "song.mp3"), None);
    assert_eq!(pick_menu_beatmap(&Vec::new(), "song.mp3"), None);
}
