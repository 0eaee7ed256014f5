use netease_watcher::music::wine_webdb_path;

#[test]
fn history_store_path_inside_a_prefix() {
    assert_eq!(
        wine_webdb_path("/home/me/.wine", "me"),
        "/home/me/.wine/drive_c/users/me/AppData/Local/NetEase/CloudMusic/Library/webdb.dat"
    );
}

use netease_watcher::music::{parse_track_id, Music};

#[test]
fn track_ids_parse_like_i64() {
    assert_eq!(parse_track_id("1234567"), 1234567);
    assert_eq!(parse_track_id("+42"), 42);
    assert_eq!(parse_track_id("-42"), -42);
    assert_eq!(parse_track_id("9223372036854775807"), i64::MAX);
    assert_eq!(parse_track_id("-9223372036854775808"), i64::MIN);
    assert_eq!(parse_track_id("007"), 7);
}

#[test]
fn malformed_track_ids_become_zero() {
    assert_eq!(parse_track_id(""), 0);
    assert_eq!(parse_track_id("-"), 0);
    assert_eq!(parse_track_id("+"), 0);
    assert_eq!(parse_track_id("12a"), 0);
    assert_eq!(parse_track_id(" 12"), 0);
    assert_eq!(parse_track_id("9223372036854775808"), 0);
    assert_eq!(parse_track_id("-9223372036854775809"), 0);
    assert_eq!(parse_track_id("99999999999999999999x"), 0);
    for text in ["", "1", "-1", "+1", "x", "123456789012345678901", "--1"] {
        assert_eq!(parse_track_id(text), text.parse::<i64>().unwrap_or(0));
    }
}

#[test]
fn record_fields_become_a_track() {
    let m = Music::from_record(
        "1901371647",
        Some(vec![]),
        "https://img.example/cover.jpg".to_string(),
        "Album".to_string(),
        vec!["A".to_string(), "B".to_string()],
        215000,
        "Song".to_string(),
    );
    assert_eq!(m.id, 1901371647);
    assert_eq!(m.aliases, None);
    assert_eq!(m.artists, vec!["A".to_string(), "B".to_string()]);
    assert_eq!(m.duration, 215000);
    let m = Music::from_record("x", Some(vec!["Alias".to_string()]), String::new(), String::new(), vec![], 0, String::new());
    assert_eq!(m.id, 0);
    assert_eq!(m.aliases, Some(vec!["Alias".to_string()]));
}
