use ampdeck::app::App;
use ampdeck::clock::PlaybackClock;
use ampdeck::handler::{command_for_key, Key, KeyPress};
use ampdeck::logs::latest_entries;
use ampdeck::app::Command;
use ampdeck::meta::{AudioFileType, Meta, MetaError, TagFields};
use ampdeck::paths::{extension, file_name, stem};
use ampdeck::tracks::{collect_tracks, eq_ignore_ascii_case, is_track, select_tracks, TrackListError};
use ampdeck::volume::{clamp_volume, lower_volume, raise_volume};

fn strings(items: &[&str]) -> Vec<String> {
    items.iter().map(|s| s.to_string()).collect()
}

#[test]
fn track_rules() {
    assert!(is_track("music/a.mp3"));
    assert!(is_track("music/B.FLAC"));
    assert!(is_track("x.WaV"));
    assert!(!is_track("music/.hidden.mp3"));
    assert!(!is_track("music/song.ogg"));
    assert!(!is_track("music/song"));
    assert!(!is_track("music.mp3/song"));
    assert!(!is_track("music/"));
    assert!(!is_track(".mp3"));
}

#[test]
fn collect_tracks_filters_and_sorts() {
    let candidates = strings(&["m/c.flac", "m/.x.mp3", "m/a.mp3", "m/notes.txt", "m/B.wav"]);
    assert_eq!(select_tracks(&candidates), strings(&["m/c.flac", "m/a.mp3", "m/B.wav"]));
    let list = collect_tracks(&candidates).unwrap();
    assert_eq!(list, strings(&["m/B.wav", "m/a.mp3", "m/c.flac"]));
}

#[test]
fn collect_tracks_none_found() {
    let candidates = strings(&["m/readme.md", "m/.a.mp3"]);
    assert_eq!(collect_tracks(&candidates), Err(TrackListError::NotFound));
    let mut app = App::new();
    assert_eq!(app.load_tracks(&candidates), Err(TrackListError::NotFound));
    assert!(app.track_list.is_empty());
    assert_eq!(app.load_tracks(&Vec::new()), Err(TrackListError::NotFound));
}

#[test]
fn ascii_case_comparison() {
    assert!(eq_ignore_ascii_case("MP3", "mp3"));
    assert!(eq_ignore_ascii_case("", ""));
    assert!(!eq_ignore_ascii_case("mp3", "mp4"));
    assert!(!eq_ignore_ascii_case("mp3", "mp"));
}

#[test]
fn path_parts() {
    assert_eq!(file_name("a/b/c.tar.gz"), "c.tar.gz");
    assert_eq!(file_name("plain"), "plain");
    assert_eq!(stem("c.tar.gz"), "c");
    assert_eq!(stem("noext"), "noext");
    assert_eq!(extension("a/b/c.tar.gz"), Some("gz".to_string()));
    assert_eq!(extension("a.b/c"), None);
    assert_eq!(extension("a/.bashrc"), None);
    assert_eq!(extension("a/song."), Some(String::new()));
}

#[test]
fn detect_file_type_by_extension() {
    assert_eq!(Meta::detect_file_type("x/a.flac"), Ok(AudioFileType::FLAC));
    assert_eq!(Meta::detect_file_type("a.wav"), Ok(AudioFileType::WAV));
    assert_eq!(Meta::detect_file_type("a.b.mp3"), Ok(AudioFileType::MP3));
    assert_eq!(Meta::detect_file_type("a.MP3"), Err(MetaError::UnsupportedFileType));
    assert_eq!(Meta::detect_file_type("a.ogg"), Err(MetaError::UnsupportedFileType));
    assert_eq!(Meta::detect_file_type("mp3"), Err(MetaError::UnsupportedFileType));
}

#[test]
fn describe_uses_tags_or_file_name() {
    let meta = Meta::new();
    let tagged = TagFields {
        title: Some("Title".to_string()),
        artist: Some("Artist".to_string()),
        album: None,
    };
    let md = meta.describe("music/one.two.flac", AudioFileType::FLAC, tagged.clone());
    assert_eq!(md.file, Some("one.two.flac".to_string()));
    assert_eq!(md.title, Some("Title".to_string()));
    assert_eq!(md.artist, Some("Artist".to_string()));
    assert_eq!(md.album, None);

    let untagged = TagFields { title: None, artist: None, album: None };
    let md = meta.describe("music/one.two.mp3", AudioFileType::MP3, untagged);
    assert_eq!(md.title, Some("one".to_string()));
    assert_eq!(md.artist, None);

    let md = meta.describe("w/take.wav", AudioFileType::WAV, tagged);
    assert_eq!(md.file, Some("take.wav".to_string()));
    assert_eq!(md.title, Some("take".to_string()));
    assert_eq!(md.artist, Some(String::new()));
    assert_eq!(md.album, Some(String::new()));
}

#[test]
fn key_bindings() {
    let press = |key, control| KeyPress { key, control };
    assert_eq!(command_for_key(press(Key::Esc, false)), Command::Quit);
    assert_eq!(command_for_key(press(Key::Char('q'), false)), Command::Quit);
    assert_eq!(command_for_key(press(Key::Char('c'), true)), Command::Quit);
    assert_eq!(command_for_key(press(Key::Char('C'), true)), Command::Quit);
    assert_eq!(command_for_key(press(Key::Char('c'), false)), Command::Ignore);
    assert_eq!(command_for_key(press(Key::Char(' '), false)), Command::TogglePlayPause);
    assert_eq!(command_for_key(press(Key::Char('s'), false)), Command::Stop);
    assert_eq!(command_for_key(press(Key::Right, false)), Command::Next);
    assert_eq!(command_for_key(press(Key::Left, false)), Command::Previous);
    assert_eq!(command_for_key(press(Key::Up, false)), Command::VolumeUp);
    assert_eq!(command_for_key(press(Key::Down, false)), Command::VolumeDown);
    assert_eq!(command_for_key(press(Key::Char('x'), false)), Command::Ignore);
    assert_eq!(command_for_key(press(Key::Other, false)), Command::Ignore);
}

#[test]
fn volume_steps() {
    assert_eq!(raise_volume(370), 380);
    assert_eq!(lower_volume(380), 370);
    assert_eq!(raise_volume(1000), 1000);
    assert_eq!(raise_volume(993), 1000);
    assert_eq!(lower_volume(0), 0);
    assert_eq!(lower_volume(7), 0);
    assert_eq!(clamp_volume(1001), 1000);
    assert_eq!(clamp_volume(999), 999);
}

#[test]
fn elapsed_time_monotonic_across_pause() {
    let mut clock = PlaybackClock::new();
    assert_eq!(clock.elapsed(0), 0);
    clock.start(1_000);
    assert_eq!(clock.elapsed(3_500), 2_500);
    clock.pause(4_000);
    let at_pause = clock.elapsed(4_000);
    assert_eq!(at_pause, 3_000);
    assert_eq!(clock.elapsed(9_000), 3_000);
    clock.resume(10_000);
    assert_eq!(clock.elapsed(10_000), 3_000);
    assert_eq!(clock.elapsed(12_000), 5_000);
    clock.resume(11_000);
    assert_eq!(clock.elapsed(12_000), 5_000);
    clock.stop();
    assert_eq!(clock.elapsed(20_000), 0);
    clock.start(u64::MAX - 1);
    clock.accumulated_ms = u64::MAX - 1;
    assert_eq!(clock.elapsed(u64::MAX), u64::MAX);
}

#[test]
fn latest_log_entries_newest_first() {
    let lines = strings(&["one", "two", "three", "four"]);
    assert_eq!(latest_entries(&lines, 2), strings(&["four", "three"]));
    assert_eq!(latest_entries(&lines, 50), strings(&["four", "three", "two", "one"]));
    assert!(latest_entries(&lines, 0).is_empty());
    assert!(latest_entries(&Vec::new(), 5).is_empty());
}
