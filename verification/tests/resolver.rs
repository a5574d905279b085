use ssmt4_backend::error::ErrorKind;
use ssmt4_backend::resolver::{
    find_games_dir, find_source_games_dir, first_existing, games_dir_candidates,
    get_resource_path, resource_candidates, Probe,
};

fn absent() -> Probe {
    Probe { exists: false, canonical: None }
}

fn found(canonical: Option<&str>) -> Probe {
    Probe { exists: true, canonical: canonical.map(|s| s.to_string()) }
}

#[test]
fn resource_candidates_in_order() {
    assert_eq!(
        resource_candidates("/opt/app/res", "Run.exe"),
        vec!["/opt/app/res/Run.exe", "resources/Run.exe", "src-tauri/resources/Run.exe"]
    );
}

#[test]
fn bundled_resource_wins() {
    let probes = vec![found(None), found(Some("/abs/resources/x")), found(Some("/abs/2/x"))];
    assert_eq!(get_resource_path(Ok("/opt/app/res".into()), "x", &probes), Ok("/opt/app/res/x".into()));
    let probes = vec![found(Some("/real/res/x")), absent(), absent()];
    assert_eq!(get_resource_path(Ok("/opt/app/res".into()), "x", &probes), Ok("/real/res/x".into()));
}

#[test]
fn development_resources_are_canonical_and_ordered() {
    let probes = vec![absent(), found(Some("/abs/resources/x")), found(Some("/abs/2/x"))];
    assert_eq!(get_resource_path(Ok("/r".into()), "x", &probes), Ok("/abs/resources/x".into()));
    let probes = vec![absent(), found(None), found(Some("/abs/2/x"))];
    assert_eq!(get_resource_path(Ok("/r".into()), "x", &probes), Ok("/abs/2/x".into()));
    let probes = vec![absent(), absent(), found(Some("/abs/2/x"))];
    assert_eq!(get_resource_path(Ok("/r".into()), "x", &probes), Ok("/abs/2/x".into()));
}

#[test]
fn exhausted_search_names_resource_and_directory() {
    for probes in [vec![absent(), absent(), absent()], vec![], vec![absent(), found(None)]] {
        let e = get_resource_path(Ok("/opt/app/res".into()), "d3d11.dll", &probes).unwrap_err();
        assert_eq!(e.kind, ErrorKind::NotFound);
        assert_eq!(e.message, "Resource 'd3d11.dll' not found in \"/opt/app/res\"");
    }
}

#[test]
fn unknown_resource_directory_fails() {
    let e = get_resource_path(Err("unknown path".into()), "x", &vec![found(None)]).unwrap_err();
    assert_eq!(e.kind, ErrorKind::NotFound);
    assert_eq!(e.message, "unknown path");
}

#[test]
fn first_existing_is_the_least_hit() {
    assert_eq!(first_existing(&vec![false, true, true], 3), 1);
    assert_eq!(first_existing(&vec![false, false, false], 3), 3);
    assert_eq!(first_existing(&vec![false, false, true], 2), 2);
    assert_eq!(first_existing(&vec![true], 3), 0);
    assert_eq!(first_existing(&vec![false], 3), 3);
    assert_eq!(first_existing(&vec![], 0), 0);
}

#[test]
fn games_candidates_in_order() {
    assert_eq!(
        games_dir_candidates(Some("/opt/app/res"), Some("/opt/app/bin/launcher")),
        vec!["/opt/app/res/Games", "/opt/app/bin/resources/Games", "/opt/app/bin/Games"]
    );
    assert_eq!(
        games_dir_candidates(None, Some("\\\\?\\C:\\App\\launcher.exe")),
        vec!["C:/App/resources/Games", "C:/App/Games"]
    );
    assert_eq!(games_dir_candidates(Some("res"), None), vec!["res/Games"]);
    assert!(games_dir_candidates(None, None).is_empty());
}

#[test]
fn library_root_is_the_first_candidate_that_exists() {
    let res = Some("/r");
    let exe = Some("/b/launcher");
    assert_eq!(find_games_dir(res, exe, &vec![true, true, true]), "/r/Games");
    assert_eq!(find_games_dir(res, exe, &vec![false, true, true]), "/b/resources/Games");
    assert_eq!(find_games_dir(res, exe, &vec![false, false, true]), "/b/Games");
}

#[test]
fn library_root_falls_back_to_a_relative_path() {
    assert_eq!(find_games_dir(Some("/r"), Some("/b/l"), &vec![false, false, false]), "Games");
    assert_eq!(find_games_dir(None, None, &vec![]), "Games");
    assert_eq!(find_games_dir(Some("/r"), Some("/b/l"), &vec![]), "Games");
}

#[test]
fn bundled_library_may_be_absent() {
    let res = Some("/r");
    let exe = Some("/b/launcher");
    assert_eq!(find_source_games_dir(res, exe, &vec![false, true, false], true), Some("/b/resources/Games".into()));
    assert_eq!(find_source_games_dir(res, exe, &vec![false, false, false], true), Some("Games".into()));
    assert_eq!(find_source_games_dir(res, exe, &vec![false, false, false], false), None);
    assert_eq!(find_source_games_dir(None, None, &vec![true], false), None);
}
