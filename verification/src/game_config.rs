//! Per-game configuration: the document, its defaults, and what is kept
//! where.

use vstd::prelude::*;
use crate::actions::{
    demanded, inside, lemma_run_one, plan_view, run, ActionView, Files, FsAction, Step, StepView,
};
use crate::error::{ErrorKind, LauncherError, Stored};
use crate::json::Json;
use crate::paths::{join_path, joined};
use crate::text::{concat2, owned};

verus! {

/// The settings of a game that the launcher itself reads.
#[derive(Debug, PartialEq, Eq)]
pub struct BasicSettings {
    pub game_preset: String,
    pub background_type: String,
}

/// One game's configuration document. The two trailing sections belong to
/// other tools and are carried through untouched.
#[derive(Debug, PartialEq, Eq)]
pub struct GameConfig {
    pub basic: BasicSettings,
    pub three_d_migoto: Json,
    pub other: Json,
}

/// The mathematical content of a `GameConfig`.
pub struct ConfigView {
    pub game_preset: Seq<char>,
    pub background_type: Seq<char>,
    pub three_d_migoto: Json,
    pub other: Json,
}

impl View for GameConfig {
    type V = ConfigView;

    open spec fn view(&self) -> ConfigView {
        ConfigView {
            game_preset: self.basic.game_preset@,
            background_type: self.basic.background_type@,
            three_d_migoto: self.three_d_migoto,
            other: self.other,
        }
    }
}

/// The configuration of a game that has none on disk.
pub open spec fn default_config() -> ConfigView {
    ConfigView {
        game_preset: "Default"@,
        background_type: "image"@,
        three_d_migoto: Json::Null,
        other: Json::Null,
    }
}

/// The background type of a document that does not name one.
pub fn default_bg_type() -> (kind: String)
    ensures
        kind@ == "image"@,
{
    owned("image")
}

impl Default for BasicSettings {
    fn default() -> (settings: Self)
        ensures
            settings.game_preset@ == "Default"@,
            settings.background_type@ == "image"@,
    {
        BasicSettings { game_preset: owned("Default"), background_type: default_bg_type() }
    }
}

impl Default for GameConfig {
    fn default() -> (config: Self)
        ensures
            config@ == default_config(),
    {
        GameConfig { basic: BasicSettings::default(), three_d_migoto: Json::Null, other: Json::Null }
    }
}

/// The basic settings as a file holds them: any field may be absent.
#[derive(Debug, PartialEq, Eq)]
pub struct RawBasicSettings {
    pub game_preset: Option<String>,
    pub background_type: Option<String>,
}

/// A configuration document as a file holds it: any section may be absent.
#[derive(Debug, PartialEq, Eq)]
pub struct RawGameConfig {
    pub basic: Option<RawBasicSettings>,
    pub three_d_migoto: Option<Json>,
    pub other: Option<Json>,
}

/// The text of an optional field, or `fallback` where it is absent.
pub open spec fn text_or(field: Option<String>, fallback: Seq<char>) -> Seq<char> {
    match field {
        Some(t) => t@,
        None => fallback,
    }
}

/// The section held by an optional field, or JSON null where it is absent.
pub open spec fn section_or_null(field: Option<Json>) -> Json {
    match field {
        Some(j) => j,
        None => Json::Null,
    }
}

/// The document that a file's content stands for, every absent field
/// taking its default.
pub open spec fn completed(raw: RawGameConfig) -> ConfigView {
    ConfigView {
        game_preset: match raw.basic {
            Some(b) => text_or(b.game_preset, "Default"@),
            None => "Default"@,
        },
        background_type: match raw.basic {
            Some(b) => text_or(b.background_type, "image"@),
            None => "image"@,
        },
        three_d_migoto: section_or_null(raw.three_d_migoto),
        other: section_or_null(raw.other),
    }
}

impl GameConfig {
    /// Fills the defaults into a document read from a file.
    pub fn from_raw(raw: RawGameConfig) -> (config: GameConfig)
        ensures
            config@ == completed(raw),
    {
        let basic = match raw.basic {
            Some(b) => BasicSettings {
                game_preset: match b.game_preset {
                    Some(p) => p,
                    None => owned("Default"),
                },
                background_type: match b.background_type {
                    Some(t) => t,
                    None => default_bg_type(),
                },
            },
            None => BasicSettings::default(),
        };
        GameConfig {
            basic,
            three_d_migoto: match raw.three_d_migoto {
                Some(j) => j,
                None => Json::Null,
            },
            other: match raw.other {
                Some(j) => j,
                None => Json::Null,
            },
        }
    }

    /// This document with its background type replaced.
    pub fn with_background_type(self, kind: &str) -> (config: GameConfig)
        ensures
            config@ == (ConfigView { background_type: kind@, ..self@ }),
    {
        GameConfig {
            basic: BasicSettings {
                game_preset: self.basic.game_preset,
                background_type: owned(kind),
            },
            three_d_migoto: self.three_d_migoto,
            other: self.other,
        }
    }
}

/// The directory of the game `name` in the library at `games_dir`.
pub open spec fn game_dir_path(games_dir: Seq<char>, name: Seq<char>) -> Seq<char> {
    joined(games_dir, name)
}

/// Where the configuration of the game `name` is kept.
pub open spec fn config_path(games_dir: Seq<char>, name: Seq<char>) -> Seq<char> {
    joined(game_dir_path(games_dir, name), "Config.json"@)
}

/// The directory of a game.
pub fn get_game_dir(games_dir: &str, game_name: &str) -> (dir: String)
    ensures
        dir@ == game_dir_path(games_dir@, game_name@),
{
    join_path(games_dir, game_name)
}

/// The path of a game's configuration file.
pub fn get_game_config_path(games_dir: &str, game_name: &str) -> (path: String)
    ensures
        path@ == config_path(games_dir@, game_name@),
{
    let dir = get_game_dir(games_dir, game_name);
    join_path(dir.as_str(), "Config.json")
}

/// What loading a stored configuration gives: the defaults for a game
/// without a file, the completed document for a file that parses.
pub open spec fn loaded(stored: Stored<RawGameConfig>) -> Option<ConfigView> {
    match stored {
        Stored::Missing => Some(default_config()),
        Stored::Loaded(raw) => Some(completed(raw)),
        _ => None,
    }
}

/// Loads a game's configuration from what was found at its path. A game
/// without a file has the default configuration; the only failures are a
/// file that cannot be read and one that does not parse.
pub fn load_game_config(stored: Stored<RawGameConfig>) -> (result: Result<
    GameConfig,
    LauncherError,
>)
    ensures
        match stored {
            Stored::Unreadable(why) => result matches Err(e) && e.is(
                ErrorKind::Io,
                "Failed to read config: "@ + why@,
            ),
            Stored::Malformed(why) => result matches Err(e) && e.is(
                ErrorKind::Parse,
                "Failed to parse config: "@ + why@,
            ),
            _ => result matches Ok(c) && Some(c@) == loaded(stored),
        },
{
    match stored {
        Stored::Missing => Ok(GameConfig::default()),
        Stored::Unreadable(why) => Err(
            LauncherError::new(ErrorKind::Io, "Failed to read config: ", why.as_str()),
        ),
        Stored::Malformed(why) => Err(
            LauncherError::new(ErrorKind::Parse, "Failed to parse config: ", why.as_str()),
        ),
        Stored::Loaded(raw) => Ok(GameConfig::from_raw(raw)),
    }
}

/// The plan that stores `config` as the configuration of the game `name`:
/// make sure the game's directory exists, then write the file. Either
/// failure is reported under `prefix`.
pub open spec fn save_plan(
    games_dir: Seq<char>,
    name: Seq<char>,
    config: ConfigView,
    prefix: Seq<char>,
) -> Seq<StepView> {
    seq![
        demanded(
            ActionView::CreateDirAll { path: game_dir_path(games_dir, name) },
            prefix + "Failed to create config directory: "@,
        ),
        demanded(
            ActionView::WriteConfig { path: config_path(games_dir, name), config },
            prefix + "Failed to write config: "@,
        ),
    ]
}

/// Builds `save_plan`.
pub fn save_steps(games_dir: &str, game_name: &str, config: GameConfig, prefix: &str) -> (plan:
    Vec<Step>)
    ensures
        plan_view(plan@) == save_plan(games_dir@, game_name@, config@, prefix@),
{
    let mut plan: Vec<Step> = Vec::new();
    plan.push(
        Step::required(
            FsAction::CreateDirAll { path: get_game_dir(games_dir, game_name) },
            concat2(prefix, "Failed to create config directory: "),
        ),
    );
    plan.push(
        Step::required(
            FsAction::WriteConfig { path: get_game_config_path(games_dir, game_name), config },
            concat2(prefix, "Failed to write config: "),
        ),
    );
    assert(plan_view(plan@) =~= save_plan(games_dir@, game_name@, config@, prefix@));
    plan
}

/// Stores a game's configuration: the whole document replaces what the
/// file held.
pub fn save_game_config(games_dir: &str, game_name: &str, config: GameConfig) -> (plan: Vec<Step>)
    ensures
        plan_view(plan@) == save_plan(games_dir@, game_name@, config@, Seq::empty()),
{
    let plan = save_steps(games_dir, game_name, config, "");
    proof {
        reveal_strlit("");
        assert(""@ =~= Seq::<char>::empty());
    }
    plan
}

/// The plan that creates the game `name` with the configuration `config`:
/// its directory is created unless it is there already, then the file is
/// written.
pub open spec fn create_plan(
    games_dir: Seq<char>,
    name: Seq<char>,
    dir_exists: bool,
    config: ConfigView,
) -> Seq<StepView> {
    let write = demanded(
        ActionView::WriteConfig { path: config_path(games_dir, name), config },
        "Failed to write config: "@,
    );
    if dir_exists {
        seq![write]
    } else {
        seq![
            demanded(
                ActionView::CreateDirAll { path: game_dir_path(games_dir, name) },
                "Failed to create directory: "@,
            ),
            write,
        ]
    }
}

/// Creates a new game with the given configuration. `dir_exists` says
/// whether the game's directory is already there.
pub fn create_new_config(games_dir: &str, new_name: &str, dir_exists: bool, config: GameConfig) -> (plan:
    Vec<Step>)
    ensures
        plan_view(plan@) == create_plan(games_dir@, new_name@, dir_exists, config@),
{
    let mut plan: Vec<Step> = Vec::new();
    if !dir_exists {
        plan.push(
            Step::required(
                FsAction::CreateDirAll { path: get_game_dir(games_dir, new_name) },
                owned("Failed to create directory: "),
            ),
        );
    }
    plan.push(
        Step::required(
            FsAction::WriteConfig { path: get_game_config_path(games_dir, new_name), config },
            owned("Failed to write config: "),
        ),
    );
    assert(plan_view(plan@) =~= create_plan(games_dir@, new_name@, dir_exists, config@));
    plan
}

/// The plan that deletes the game `name`: its whole directory goes, if it
/// is there.
pub open spec fn delete_plan(games_dir: Seq<char>, name: Seq<char>, dir_exists: bool) -> Seq<
    StepView,
> {
    if dir_exists {
        seq![
            demanded(
                ActionView::RemoveDirAll { path: game_dir_path(games_dir, name) },
                "Failed to delete directory: "@,
            ),
        ]
    } else {
        Seq::empty()
    }
}

/// Deleting a game leaves nothing of it: no file at or below its
/// directory is left, and every other file is as it was.
pub proof fn lemma_delete_leaves_nothing(fs: Files, games_dir: Seq<char>, name: Seq<char>)
    ensures
        ({
            let dir = game_dir_path(games_dir, name);
            let after = run(fs, delete_plan(games_dir, name, true));
            &&& forall|p: Seq<char>| p == dir || inside(dir, p) ==> !after.dom().contains(p)
            &&& forall|p: Seq<char>|
                p != dir && !inside(dir, p) && fs.dom().contains(p) ==> #[trigger] after.dom().contains(p)
                    && after[p] == fs[p]
        }),
{
    lemma_run_one(fs, delete_plan(games_dir, name, true)[0]);
}

/// Deletes a game: not only its configuration but the whole directory
/// with everything in it. This cannot be undone.
pub fn delete_game_config_folder(games_dir: &str, game_name: &str, dir_exists: bool) -> (plan:
    Vec<Step>)
    ensures
        plan_view(plan@) == delete_plan(games_dir@, game_name@, dir_exists),
{
    let mut plan: Vec<Step> = Vec::new();
    if dir_exists {
        plan.push(
            Step::required(
                FsAction::RemoveDirAll { path: get_game_dir(games_dir, game_name) },
                owned("Failed to delete directory: "),
            ),
        );
    }
    assert(plan_view(plan@) =~= delete_plan(games_dir@, game_name@, dir_exists));
    plan
}

} // verus!
