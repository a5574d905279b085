use ssmt4_backend::error::{ErrorKind, Stored};
use ssmt4_backend::game_scanner::{
    is_shown, scan_games, set_game_visibility, GameEntry, GameIconConfig, GameIconSetting,
    GameInfo,
};

fn dir(name: &str) -> GameEntry {
    GameEntry { name: Some(name.to_string()), is_dir: true, has_mp4: false, has_webm: false }
}

fn line(name: &str, show: bool) -> GameIconSetting {
    GameIconSetting { game_name: name.to_string(), show }
}

#[test]
fn scan_marks_listed_game_visible_and_other_hidden() {
    let config = GameIconConfig { list: vec![line("A", true)] };
    let games = scan_games("/lib/Games", Some(&config), Ok(vec![dir("A"), dir("B")])).unwrap();
    assert_eq!(games.len(), 2);
    assert_eq!(games[0].name, "A");
    assert!(games[0].show_sidebar);
    assert_eq!(games[1].name, "B");
    assert!(!games[1].show_sidebar);
}

#[test]
fn scan_builds_normalized_asset_paths() {
    let games = scan_games("\\\\?\\C:\\lib\\Games", None, Ok(vec![dir("A")])).unwrap();
    assert_eq!(
        games,
        vec![GameInfo {
            name: "A".to_string(),
            icon_path: "C:/lib/Games/A/Icon.png".to_string(),
            bg_path: "C:/lib/Games/A/Background.png".to_string(),
            bg_video_path: None,
            show_sidebar: false,
        }]
    );
}

#[test]
fn scan_prefers_mp4_over_webm() {
    let both = GameEntry { name: Some("A".into()), is_dir: true, has_mp4: true, has_webm: true };
    let webm = GameEntry { name: Some("B".into()), is_dir: true, has_mp4: false, has_webm: true };
    let games = scan_games("Games", None, Ok(vec![both, webm])).unwrap();
    assert_eq!(games[0].bg_video_path, Some("Games/A/Background.mp4".to_string()));
    assert_eq!(games[1].bg_video_path, Some("Games/B/Background.webm".to_string()));
}

#[test]
fn scan_skips_files_and_entries_without_a_name() {
    let file = GameEntry { name: Some("GameIconConfig.json".into()), is_dir: false, has_mp4: false, has_webm: false };
    let nameless = GameEntry { name: None, is_dir: true, has_mp4: false, has_webm: false };
    let games = scan_games("Games", None, Ok(vec![file, dir("Z"), nameless, dir("A")])).unwrap();
    let names: Vec<&str> = games.iter().map(|g| g.name.as_str()).collect();
    assert_eq!(names, vec!["Z", "A"]);
}

#[test]
fn scan_of_an_empty_library_succeeds() {
    assert_eq!(scan_games("Games", None, Ok(vec![])), Ok(vec![]));
}

#[test]
fn scan_of_an_unreadable_root_fails() {
    let e = scan_games("Games", None, Err("permission denied".to_string())).unwrap_err();
    assert_eq!(e.kind, ErrorKind::Io);
    assert_eq!(e.message, "Failed to read games directory: permission denied");
}

#[test]
fn last_line_for_a_name_decides() {
    let config = GameIconConfig { list: vec![line("A", true), line("B", true), line("A", false)] };
    assert!(!is_shown(Some(&config), "A"));
    assert!(is_shown(Some(&config), "B"));
    assert!(!is_shown(Some(&config), "C"));
    assert!(!is_shown(None, "A"));
}

#[test]
fn visibility_is_appended_to_a_missing_list() {
    let config = set_game_visibility(Stored::Missing, "A".to_string(), true).unwrap();
    assert_eq!(config.list, vec![line("A", true)]);
}

#[test]
fn visibility_is_updated_in_place() {
    let stored = GameIconConfig { list: vec![line("A", true), line("B", false), line("C", true)] };
    let config = set_game_visibility(Stored::Loaded(stored), "B".to_string(), true).unwrap();
    assert_eq!(config.list, vec![line("A", true), line("B", true), line("C", true)]);
}

#[test]
fn visibility_set_twice_keeps_one_line_with_the_latest_value() {
    let stored = GameIconConfig { list: vec![line("X", true)] };
    let once = set_game_visibility(Stored::Loaded(stored), "A".to_string(), true).unwrap();
    let twice = set_game_visibility(Stored::Loaded(once), "A".to_string(), false).unwrap();
    assert_eq!(twice.list, vec![line("X", true), line("A", false)]);
    assert_eq!(twice.list.iter().filter(|l| l.game_name == "A").count(), 1);
}

#[test]
fn visibility_of_a_broken_list_fails() {
    let e = set_game_visibility(Stored::Unreadable("locked".into()), "A".into(), true).unwrap_err();
    assert_eq!(e.kind, ErrorKind::Io);
    assert_eq!(e.message, "Failed to read config file: locked");
    let e = set_game_visibility(Stored::Malformed("EOF".into()), "A".into(), true).unwrap_err();
    assert_eq!(e.kind, ErrorKind::Parse);
    assert_eq!(e.message, "Failed to parse config file: EOF");
}
