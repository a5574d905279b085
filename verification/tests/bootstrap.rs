use std::collections::BTreeMap;

use ssmt4_backend::actions::{FsAction, Step};
use ssmt4_backend::file_manager::{
    boot_copy_failed, boot_file_list, boot_file_missing, check_and_create_dir, copy_boot_files,
    copy_dir_recursive, get_app_config_dir, get_global_config_dir, get_global_games_dir,
    get_global_games_target, BootFile, Bootstrap, TreeEntry,
};
use ssmt4_backend::actions::OnFailure;

fn entry(rel: &str, is_dir: bool, dst_exists: bool) -> TreeEntry {
    TreeEntry { rel: rel.to_string(), is_dir, dst_exists }
}

fn copy(from: &str, to: &str) -> Step {
    Step::attempt(FsAction::CopyFile { from: from.into(), to: to.into() })
}

#[test]
fn bootstrap_leaves_an_existing_library_alone() {
    let boot = get_global_games_dir(Some("/home/u/.local/share"), true, true, Some("/r/Games".into()));
    assert_eq!(
        boot,
        Bootstrap {
            target: "/home/u/.local/share/SSMT4GlobalConfigs/Games".into(),
            prepare: vec![],
            seed_from: None,
        }
    );
    let again = get_global_games_dir(Some("/home/u/.local/share"), true, false, None);
    assert_eq!(again.prepare, vec![]);
    assert_eq!(again.seed_from, None);
}

#[test]
fn bootstrap_seeds_a_missing_library() {
    let boot = get_global_games_dir(Some("/d"), false, false, Some("/r/Games".into()));
    assert_eq!(boot.target, "/d/SSMT4GlobalConfigs/Games");
    assert_eq!(boot.prepare, vec![Step::try_create_dir("/d/SSMT4GlobalConfigs".into())]);
    assert_eq!(boot.seed_from, Some("/r/Games".into()));
    let boot = get_global_games_dir(Some("/d"), false, true, Some("/r/Games".into()));
    assert_eq!(boot.prepare, vec![]);
}

#[test]
fn bootstrap_creates_an_empty_library_without_a_source() {
    let boot = get_global_games_dir(None, false, false, None);
    assert_eq!(boot.target, "./SSMT4GlobalConfigs/Games");
    assert_eq!(
        boot.prepare,
        vec![
            Step::try_create_dir("./SSMT4GlobalConfigs".into()),
            Step::try_create_dir("./SSMT4GlobalConfigs/Games".into()),
        ]
    );
    assert_eq!(boot.seed_from, None);
    assert_eq!(get_global_config_dir(None), "./SSMT4GlobalConfigs");
    assert_eq!(get_global_games_target(Some("/d")), "/d/SSMT4GlobalConfigs/Games");
}

#[test]
fn copy_plan_for_a_fresh_destination() {
    let entries = vec![
        entry("A", true, false),
        entry("A/Config.json", false, false),
        entry("A/Icon.png", false, false),
        entry("GameIconConfig.json", false, false),
    ];
    let plan = copy_dir_recursive("/r/Games", "/d/Games", false, &entries);
    assert_eq!(
        plan,
        vec![
            Step::try_create_dir("/d/Games".into()),
            Step::try_create_dir("/d/Games/A".into()),
            copy("/r/Games/A/Config.json", "/d/Games/A/Config.json"),
            copy("/r/Games/A/Icon.png", "/d/Games/A/Icon.png"),
            copy("/r/Games/GameIconConfig.json", "/d/Games/GameIconConfig.json"),
        ]
    );
}

#[test]
fn copy_skips_what_the_destination_holds() {
    let entries = vec![
        entry("A", true, true),
        entry("A/Config.json", false, true),
        entry("A/Icon.png", false, false),
    ];
    let plan = copy_dir_recursive("/r/Games", "/d/Games", true, &entries);
    assert_eq!(plan, vec![copy("/r/Games/A/Icon.png", "/d/Games/A/Icon.png")]);
    assert_eq!(copy_dir_recursive("/r", "/d", true, &vec![]), vec![]);
}

#[test]
fn copy_never_replaces_an_existing_file() {
    let mut files: BTreeMap<String, Vec<u8>> = BTreeMap::new();
    files.insert("/r/G/A/Config.json".into(), vec![1]);
    files.insert("/r/G/A/Icon.png".into(), vec![2]);
    files.insert("/d/G/A/Config.json".into(), vec![9, 9]);
    let entries = vec![
        TreeEntry { rel: "A".into(), is_dir: true, dst_exists: true },
        TreeEntry {
            rel: "A/Config.json".into(),
            is_dir: false,
            dst_exists: files.contains_key("/d/G/A/Config.json"),
        },
        TreeEntry {
            rel: "A/Icon.png".into(),
            is_dir: false,
            dst_exists: files.contains_key("/d/G/A/Icon.png"),
        },
    ];
    let plan = copy_dir_recursive("/r/G", "/d/G", true, &entries);
    for step in &plan {
        assert_eq!(step.on_failure, OnFailure::Continue);
        if let FsAction::CopyFile { from, to } = &step.action {
            let data = files[from].clone();
            files.insert(to.clone(), data);
        }
    }
    assert_eq!(files["/d/G/A/Config.json"], vec![9, 9]);
    assert_eq!(files["/d/G/A/Icon.png"], vec![2]);
}

#[test]
fn boot_files_take_the_first_source_that_exists() {
    let found = vec![vec![true, true, true], vec![false, false, true], vec![false, false, false]];
    let files = copy_boot_files(Some("/r"), "/game", &found);
    assert_eq!(
        files,
        vec![
            BootFile {
                name: "d3d11.dll".into(),
                source: Some("/r/d3d11.dll".into()),
                target: "/game/d3d11.dll".into(),
            },
            BootFile {
                name: "d3dcompiler_47.dll".into(),
                source: Some("src-tauri/resources/d3dcompiler_47.dll".into()),
                target: "/game/d3dcompiler_47.dll".into(),
            },
            BootFile { name: "Run.exe".into(), source: None, target: "/game/Run.exe".into() },
        ]
    );
}

#[test]
fn boot_files_without_reports_or_resource_directory() {
    let files = copy_boot_files(Some("/r"), "/game", &vec![vec![false, true]]);
    assert_eq!(files.len(), 3);
    assert_eq!(files[0].source, Some("resources/d3d11.dll".into()));
    assert_eq!(files[1].source, None);
    assert_eq!(files[2].source, None);
    assert_eq!(copy_boot_files(None, "/game", &vec![vec![true, true, true]]), vec![]);
}

#[test]
fn boot_files_are_three() {
    assert_eq!(boot_file_list(), vec!["d3d11.dll", "d3dcompiler_47.dll", "Run.exe"]);
}

#[test]
fn boot_file_notices() {
    assert_eq!(boot_file_missing("Run.exe"), "Resource file 'Run.exe' not found.");
    assert_eq!(
        boot_copy_failed("Run.exe", "in use"),
        "Failed to copy Run.exe: in use.\nPlease ensure the game is closed."
    );
}

#[test]
fn check_and_create_dir_plans_only_what_is_missing() {
    assert_eq!(check_and_create_dir("/x", true), vec![]);
    assert_eq!(
        check_and_create_dir("/x", false),
        vec![Step {
            action: FsAction::CreateDirAll { path: "/x".into() },
            on_failure: OnFailure::Fail { context: String::new() },
        }]
    );
}

#[test]
fn app_config_dir_prefers_local_app_data() {
    assert_eq!(
        get_app_config_dir(Some("C:/Users/u/AppData/Local"), Some("/home/u")),
        Some("C:/Users/u/AppData/Local/SSMT4Configs".into())
    );
    assert_eq!(get_app_config_dir(None, Some("/home/u")), Some("/home/u/.config/SSMT4Configs".into()));
    assert_eq!(get_app_config_dir(None, None), None);
}
