use randomizer_core::devices::{error_text, stream_volume};
use randomizer_core::paths::{
    drop_comments, is_background_file, is_sound_file, join_path, path_extension,
};
use randomizer_core::{
    config_path, data_path, find_device_index, list_audio_devices, list_items, load_tracks,
    random_bg, DeviceInfo,
};

fn strings(v: &[&str]) -> Vec<String> {
    v.iter().map(|s| s.to_string()).collect()
}

#[test]
fn join_adds_one_separator() {
    assert_eq!(join_path("app", "data"), "app/data");
    assert_eq!(join_path("app/", "data"), "app/data");
    assert_eq!(join_path("C:\\app\\", "data"), "C:\\app\\data");
    assert_eq!(join_path("", "data"), "data");
}

#[test]
fn data_and_config_paths() {
    assert_eq!(data_path("/opt/randomizer"), "/opt/randomizer/data");
    assert_eq!(config_path("/home/u/.config/x"), "/home/u/.config/x/config.toml");
}

#[test]
fn extensions() {
    assert_eq!(path_extension("music/song.MP3").as_deref(), Some("MP3"));
    assert_eq!(path_extension("a.tar.gz").as_deref(), Some("gz"));
    assert_eq!(path_extension("dir.d/file").as_deref(), None);
    assert_eq!(path_extension(".hidden").as_deref(), None);
    assert_eq!(path_extension("x/..").as_deref(), None);
    assert_eq!(path_extension("name.").as_deref(), Some(""));
    assert_eq!(path_extension("").as_deref(), None);
}

#[test]
fn sound_and_background_files() {
    assert!(is_sound_file("a/b.Ogg"));
    assert!(is_sound_file("b.flac"));
    assert!(!is_sound_file("b.txt"));
    assert!(!is_sound_file("mp3"));
    assert!(is_background_file("bg/x.JPEG"));
    assert!(is_background_file("x.webm"));
    assert!(!is_background_file("x.wav"));
}

#[test]
fn tracks_of_directory() {
    let files = strings(&["d/a.mp3", "d/notes.txt", "d/b.WAV", "d/!playlist.m3u8"]);
    let r = load_tracks(&files, strings(&["/music/c.flac"]));
    assert_eq!(r, strings(&["d/a.mp3", "d/b.WAV", "/music/c.flac"]));
}

#[test]
fn background_tiers() {
    let own = strings(&["bg/l/readme.txt", "bg/l/one.png"]);
    let common = strings(&["bg/two.gif"]);
    assert_eq!(random_bg(&own, &common).as_deref(), Some("bg/l/one.png"));
    let none = strings(&["bg/l/readme.txt"]);
    assert_eq!(random_bg(&none, &common).as_deref(), Some("bg/two.gif"));
    assert_eq!(random_bg(&none, &none), None);
}

#[test]
fn list_lines() {
    let lines = strings(&["  Alice ", "# comment", "Bob", "", "\t#also", "Carol\r"]);
    assert_eq!(list_items(&lines), strings(&["Alice", "Bob", "", "Carol"]));
    assert_eq!(drop_comments(strings(&["#x", "y", " #z"])), strings(&["y", " #z"]));
}

fn device(driver: &str, name: &str, flags: u32) -> DeviceInfo {
    DeviceInfo { driver: driver.to_string(), name: name.to_string(), flags }
}

#[test]
fn enabled_devices_only() {
    let ds = vec![device("d1", "One", 1), device("d2", "Two", 2), device("d3", "Three", 3)];
    assert_eq!(
        list_audio_devices(&ds),
        vec![("d1".to_string(), "One".to_string()), ("d3".to_string(), "Three".to_string())]
    );
}

#[test]
fn device_numbers() {
    let ds = vec![device("d1", "One", 1), device("d2", "Two", 1), device("d2", "Again", 1)];
    assert_eq!(find_device_index(&ds, &"d2".to_string()), 2);
    assert_eq!(find_device_index(&ds, &"d1".to_string()), 1);
    assert_eq!(find_device_index(&ds, &"zz".to_string()), 1);
    assert_eq!(find_device_index(&ds, &String::new()), 1);
}

#[test]
fn volumes() {
    assert_eq!(stream_volume(42), 4200);
    assert_eq!(stream_volume(100), 10000);
    assert_eq!(stream_volume(250), 10000);
    assert_eq!(stream_volume(0), 0);
}

#[test]
fn error_texts() {
    assert_eq!(error_text(5), "Invalid handle");
    assert_eq!(error_text(38), "The channel is/isn't a \"decoding channel\"");
    assert_eq!(error_text(99), "Unknown");
    assert_eq!(error_text(0), "Unknown");
}
