//! Replacing a game's background or icon with a file the user picked.
//!
//! A game has one background. Before a new one is put in place, every file
//! that could be the old one is removed: the candidates of the kind being
//! set.

use vstd::prelude::*;
use crate::actions::{
    attempted, demanded, effect, lemma_run_concat, lemma_run_one, plan_view, run, ActionView,
    FileData, Files, FsAction, Step, StepView,
};
use crate::error::{ErrorKind, LauncherError, Stored};
use crate::game_config::{
    completed, config_path, default_config, game_dir_path, get_game_dir, load_game_config,
    save_plan, save_steps, ConfigView, GameConfig, RawGameConfig,
};
use crate::paths::{extension, extension_of, join_path, joined, normalize_path, normalized};
use crate::text::{concat2, concat3, lowercased, owned, text_eq, to_lowercase};

verus! {

/// The two kinds of background.
#[derive(Clone, Copy, Debug, PartialEq, Eq, Structural)]
pub enum BackgroundKind {
    Image,
    Video,
}

/// The kind that a text names, if it names one.
pub open spec fn kind_of(text: Seq<char>) -> Option<BackgroundKind> {
    if text == "image"@ {
        Some(BackgroundKind::Image)
    } else if text == "video"@ {
        Some(BackgroundKind::Video)
    } else {
        None
    }
}

impl BackgroundKind {
    /// The name under which a configuration records this kind.
    pub open spec fn label(self) -> Seq<char> {
        match self {
            BackgroundKind::Image => "image"@,
            BackgroundKind::Video => "video"@,
        }
    }

    /// The file names that count as "the background" of this kind.
    pub open spec fn candidates(self) -> Seq<Seq<char>> {
        match self {
            BackgroundKind::Image => seq![
                "Background.png"@,
                "Background.webp"@,
                "Background.jpg"@,
                "Background.jpeg"@,
            ],
            BackgroundKind::Video => seq![
                "Background.mp4"@,
                "Background.webm"@,
                "Background.mkv"@,
            ],
        }
    }

    /// The extension given to a download whose address shows none.
    pub open spec fn default_extension(self) -> Seq<char> {
        match self {
            BackgroundKind::Image => "png"@,
            BackgroundKind::Video => "mp4"@,
        }
    }

    /// Reads a kind from its name.
    pub fn parse(text: &str) -> (kind: Option<BackgroundKind>)
        ensures
            kind == kind_of(text@),
    {
        if text_eq(text, "image") {
            Some(BackgroundKind::Image)
        } else if text_eq(text, "video") {
            Some(BackgroundKind::Video)
        } else {
            None
        }
    }

    /// The name of this kind.
    pub fn name(self) -> (text: &'static str)
        ensures
            text@ == self.label(),
    {
        match self {
            BackgroundKind::Image => "image",
            BackgroundKind::Video => "video",
        }
    }

    /// The extension for a download whose address shows none.
    pub fn fallback_extension(self) -> (text: &'static str)
        ensures
            text@ == self.default_extension(),
    {
        match self {
            BackgroundKind::Image => "png",
            BackgroundKind::Video => "mp4",
        }
    }

    /// The candidate file names of this kind, in the order of removal.
    pub fn candidate_names(self) -> (names: Vec<&'static str>)
        ensures
            names@.map_values(|n: &'static str| n@) == self.candidates(),
    {
        let mut names: Vec<&'static str> = Vec::new();
        match self {
            BackgroundKind::Image => {
                names.push("Background.png");
                names.push("Background.webp");
                names.push("Background.jpg");
                names.push("Background.jpeg");
            },
            BackgroundKind::Video => {
                names.push("Background.mp4");
                names.push("Background.webm");
                names.push("Background.mkv");
            },
        }
        assert(names@.map_values(|n: &'static str| n@) =~= self.candidates());
        names
    }
}

/// The candidate files of a kind in a game's directory.
pub open spec fn candidate_paths(game_dir: Seq<char>, kind: BackgroundKind) -> Seq<Seq<char>> {
    kind.candidates().map_values(|c: Seq<char>| joined(game_dir, c))
}

/// One attempted removal for each of `paths`, in order.
pub open spec fn removals(paths: Seq<Seq<char>>) -> Seq<StepView> {
    paths.map_values(|p: Seq<char>| attempted(ActionView::RemoveFile { path: p }))
}

/// The removal of every candidate file of a kind from a game's directory.
/// Each removal is an attempt: a file that is not there, or that cannot be
/// removed, does not stop the plan.
pub open spec fn cleanup(game_dir: Seq<char>, kind: BackgroundKind) -> Seq<StepView> {
    removals(candidate_paths(game_dir, kind))
}

/// Builds `cleanup`.
pub fn cleanup_steps(game_dir: &str, kind: BackgroundKind) -> (plan: Vec<Step>)
    ensures
        plan_view(plan@) == cleanup(game_dir@, kind),
{
    let names = kind.candidate_names();
    let mut plan: Vec<Step> = Vec::new();
    let mut i: usize = 0;
    while i < names.len()
        invariant
            i <= names.len(),
            names@.map_values(|n: &'static str| n@) == kind.candidates(),
            plan_view(plan@) == cleanup(game_dir@, kind).take(i as int),
        decreases names.len() - i,
    {
        let ghost all = cleanup(game_dir@, kind);
        let ghost before = plan_view(plan@);
        assert(names@.map_values(|n: &'static str| n@).len() == names@.len());
        assert(names@.map_values(|n: &'static str| n@)[i as int] == names@[i as int]@);
        assert(candidate_paths(game_dir@, kind)[i as int] == joined(
            game_dir@,
            kind.candidates()[i as int],
        ));
        assert(all[i as int] == attempted(
            ActionView::RemoveFile { path: candidate_paths(game_dir@, kind)[i as int] },
        ));
        let step = Step::try_remove_file(join_path(game_dir, names[i]));
        assert(step@ == all[i as int]);
        plan.push(step);
        assert(plan_view(plan@) =~= before.push(step@));
        i += 1;
        assert(all.take(i as int) =~= all.take(i - 1).push(all[i - 1]));
    }
    assert(cleanup(game_dir@, kind).take(i as int) =~= cleanup(game_dir@, kind));
    plan
}

/// The name of a background file with the extension `ext`.
pub open spec fn background_file(ext: Seq<char>) -> Seq<char> {
    "Background."@ + ext
}

/// The extension that a picked file gives its copy: that of its portable
/// form, in lower case; empty where it has none.
pub open spec fn local_extension(file_path: Seq<char>) -> Seq<char> {
    lowercased(
        match extension(normalized(file_path)) {
            Some(e) => e,
            None => Seq::empty(),
        },
    )
}

/// The configuration that a game has now, from what was found at its
/// path: the defaults where there is no file, the completed document
/// where the file parses. A file that cannot be read or does not parse is
/// a failure, reported under `prefix`; it is never taken for defaults.
pub open spec fn current_config(stored: Stored<RawGameConfig>, prefix: Seq<char>) -> Result<
    ConfigView,
    (ErrorKind, Seq<char>),
> {
    match stored {
        Stored::Missing => Ok(default_config()),
        Stored::Loaded(raw) => Ok(completed(raw)),
        Stored::Unreadable(why) => Err(
            (ErrorKind::Io, prefix + "Failed to read config: "@ + why@),
        ),
        Stored::Malformed(why) => Err(
            (ErrorKind::Parse, prefix + "Failed to parse config: "@ + why@),
        ),
    }
}

/// A configuration with its background type replaced by `label`.
pub open spec fn retyped(config: ConfigView, label: Seq<char>) -> ConfigView {
    ConfigView { background_type: label, ..config }
}

/// The plan that replaces a background: remove the candidates, put the
/// new file in place with `place`, store the configuration.
pub open spec fn replace_plan(
    games_dir: Seq<char>,
    name: Seq<char>,
    kind: BackgroundKind,
    place: StepView,
    config: ConfigView,
    prefix: Seq<char>,
) -> Seq<StepView> {
    cleanup(game_dir_path(games_dir, name), kind) + seq![place] + save_plan(
        games_dir,
        name,
        config,
        prefix,
    )
}

/// Builds `replace_plan`.
pub fn replace_steps(
    games_dir: &str,
    game_name: &str,
    kind: BackgroundKind,
    place: Step,
    config: GameConfig,
    prefix: &str,
) -> (plan: Vec<Step>)
    ensures
        plan_view(plan@) == replace_plan(
            games_dir@,
            game_name@,
            kind,
            place@,
            config@,
            prefix@,
        ),
{
    let game_dir = get_game_dir(games_dir, game_name);
    let mut plan = cleanup_steps(game_dir.as_str(), kind);
    let ghost first = plan_view(plan@);
    plan.push(place);
    let mut save = save_steps(games_dir, game_name, config, prefix);
    let ghost last = plan_view(save@);
    plan.append(&mut save);
    assert(plan_view(plan@) =~= first + seq![place@] + last);
    plan
}

/// Loads the configuration that a game has now, for an operation that
/// reports its failures under `prefix`.
pub fn load_current_config(stored: Stored<RawGameConfig>, prefix: &str) -> (result: Result<
    GameConfig,
    LauncherError,
>)
    ensures
        match current_config(stored, prefix@) {
            Ok(config) => result matches Ok(c) && c@ == config,
            Err((kind, message)) => result matches Err(e) && e.is(kind, message),
        },
{
    match stored {
        Stored::Unreadable(why) => {
            let context = concat2(prefix, "Failed to read config: ");
            Err(LauncherError::new(ErrorKind::Io, context.as_str(), why.as_str()))
        },
        Stored::Malformed(why) => {
            let context = concat2(prefix, "Failed to parse config: ");
            Err(LauncherError::new(ErrorKind::Parse, context.as_str(), why.as_str()))
        },
        other => match load_game_config(other) {
            Ok(config) => Ok(config),
            Err(e) => Err(e),
        },
    }
}

/// Where the copy of a picked file goes, given the extension it is to
/// carry.
pub open spec fn local_target(games_dir: Seq<char>, name: Seq<char>, ext: Seq<char>) -> Seq<char> {
    joined(game_dir_path(games_dir, name), background_file(ext))
}

/// The step that copies a picked file into place under the extension
/// `ext`.
pub open spec fn local_copy(
    games_dir: Seq<char>,
    name: Seq<char>,
    file_path: Seq<char>,
    ext: Seq<char>,
) -> StepView {
    let target = local_target(games_dir, name, ext);
    demanded(
        ActionView::CopyFile { from: file_path, to: target },
        "Failed to copy file from "@ + file_path + " to \""@ + target + "\": "@,
    )
}

/// Builds `local_copy`.
pub fn local_place(games_dir: &str, game_name: &str, file_path: &str, ext: &str) -> (step: Step)
    ensures
        step@ == local_copy(games_dir@, game_name@, file_path@, ext@),
{
    let game_dir = get_game_dir(games_dir, game_name);
    let target_name = concat2("Background.", ext);
    let target = join_path(game_dir.as_str(), target_name.as_str());
    let start = concat3("Failed to copy file from ", file_path, " to \"");
    let context = concat3(start.as_str(), target.as_str(), "\": ");
    Step::required(FsAction::CopyFile { from: owned(file_path), to: target }, context)
}

/// What setting a background from a picked file comes to, given the
/// extension `ext` that the copy is to carry: a plan, or the kind and
/// message of a failure. The source is checked first, then the kind, then
/// the configuration that is there; no plan is made unless all three are
/// in order.
pub open spec fn local_background_as(
    games_dir: Seq<char>,
    name: Seq<char>,
    file_path: Seq<char>,
    source_exists: bool,
    bg_type: Seq<char>,
    stored: Stored<RawGameConfig>,
    ext: Seq<char>,
) -> Result<Seq<StepView>, (ErrorKind, Seq<char>)> {
    if !source_exists {
        Err((ErrorKind::NotFound, "Source file does not exist: "@ + file_path))
    } else {
        match kind_of(bg_type) {
            None => Err((ErrorKind::UnsupportedInput, "Unknown background type: "@ + bg_type)),
            Some(kind) => match current_config(stored, "Failed to update config: "@) {
                Err(failure) => Err(failure),
                Ok(config) => Ok(
                    replace_plan(
                        games_dir,
                        name,
                        kind,
                        local_copy(games_dir, name, file_path, ext),
                        retyped(config, bg_type),
                        "Failed to update config: "@,
                    ),
                ),
            },
        }
    }
}

/// What setting a background from a picked file comes to: the copy
/// carries the file's own extension, in lower case.
pub open spec fn local_background(
    games_dir: Seq<char>,
    name: Seq<char>,
    file_path: Seq<char>,
    source_exists: bool,
    bg_type: Seq<char>,
    stored: Stored<RawGameConfig>,
) -> Result<Seq<StepView>, (ErrorKind, Seq<char>)> {
    local_background_as(
        games_dir,
        name,
        file_path,
        source_exists,
        bg_type,
        stored,
        local_extension(file_path),
    )
}

/// Whether `result` is the exec form of `expected`.
pub open spec fn plan_matches(
    result: Result<Vec<Step>, LauncherError>,
    expected: Result<Seq<StepView>, (ErrorKind, Seq<char>)>,
) -> bool {
    match expected {
        Ok(plan) => result matches Ok(steps) && plan_view(steps@) == plan,
        Err((kind, message)) => result matches Err(e) && e.is(kind, message),
    }
}

/// Sets the background of a game from a file on disk, the copy being
/// named `Background.<ext>`. `source_exists` says whether `file_path` is
/// there, `stored` what was found at the game's configuration path.
///
/// The plan removes every candidate of the kind, copies the file and
/// stores the configuration with the new background type. A missing
/// source, an unknown kind, and a configuration that is there but cannot
/// be loaded are failures, and then there is no plan at all.
pub fn set_game_background_as(
    games_dir: &str,
    game_name: &str,
    file_path: &str,
    source_exists: bool,
    bg_type: &str,
    stored: Stored<RawGameConfig>,
    ext: &str,
) -> (result: Result<Vec<Step>, LauncherError>)
    ensures
        plan_matches(
            result,
            local_background_as(
                games_dir@,
                game_name@,
                file_path@,
                source_exists,
                bg_type@,
                stored,
                ext@,
            ),
        ),
{
    if !source_exists {
        return Err(
            LauncherError::new(ErrorKind::NotFound, "Source file does not exist: ", file_path),
        );
    }
    let kind = match BackgroundKind::parse(bg_type) {
        Some(kind) => kind,
        None => {
            return Err(
                LauncherError::new(
                    ErrorKind::UnsupportedInput,
                    "Unknown background type: ",
                    bg_type,
                ),
            );
        },
    };
    let current = match load_current_config(stored, "Failed to update config: ") {
        Ok(config) => config,
        Err(e) => {
            return Err(e);
        },
    };
    let place = local_place(games_dir, game_name, file_path, ext);
    let config = current.with_background_type(bg_type);
    Ok(replace_steps(games_dir, game_name, kind, place, config, "Failed to update config: "))
}

/// Sets the background of a game from a file on disk. The copy carries
/// the extension of the picked file, in lower case; everything else is as
/// in `set_game_background_as`.
pub fn set_game_background(
    games_dir: &str,
    game_name: &str,
    file_path: &str,
    source_exists: bool,
    bg_type: &str,
    stored: Stored<RawGameConfig>,
) -> (result: Result<Vec<Step>, LauncherError>)
    ensures
        plan_matches(
            result,
            local_background(
                games_dir@,
                game_name@,
                file_path@,
                source_exists,
                bg_type@,
                stored,
            ),
        ),
{
    let portable = normalize_path(file_path);
    let ext = match extension_of(portable.as_str()) {
        Some(e) => to_lowercase(e.as_str()),
        None => {
            proof {
                reveal_strlit("");
                assert(""@ =~= Seq::<char>::empty());
            }
            to_lowercase("")
        },
    };
    set_game_background_as(
        games_dir,
        game_name,
        file_path,
        source_exists,
        bg_type,
        stored,
        ext.as_str(),
    )
}

/// After the attempted removal of `paths`, exactly the other files are
/// left, each with its content.
pub proof fn lemma_run_removals(fs: Files, paths: Seq<Seq<char>>)
    ensures
        forall|p: Seq<char>| #[trigger]
            run(fs, removals(paths)).dom().contains(p) <==> fs.dom().contains(p)
                && !paths.contains(p),
        forall|p: Seq<char>| #[trigger]
            run(fs, removals(paths)).dom().contains(p) ==> run(fs, removals(paths))[p] == fs[p],
    decreases paths.len(),
{
    if paths.len() > 0 {
        let rest = paths.drop_last();
        assert(removals(paths).drop_last() =~= removals(rest));
        lemma_run_removals(fs, rest);
        let cur = run(fs, removals(rest));
        let after = run(fs, removals(paths));
        assert(after == cur.remove(paths.last()));
        assert forall|p: Seq<char>| #[trigger]
            after.dom().contains(p) <==> fs.dom().contains(p) && !paths.contains(p) by {
            if paths.contains(p) {
                let i = choose|i: int| 0 <= i < paths.len() && paths[i] == p;
                if i < paths.len() - 1 {
                    assert(rest[i] == p);
                    assert(rest.contains(p));
                }
            }
            if rest.contains(p) {
                let i = choose|i: int| 0 <= i < rest.len() && rest[i] == p;
                assert(paths[i] == p);
            }
            assert(cur.dom().contains(p) <==> fs.dom().contains(p) && !rest.contains(p));
        }
    }
}

/// Two leaves that start with different characters, neither of them at
/// the root, lie at different paths of one directory.
pub proof fn lemma_joined_apart(dir: Seq<char>, a: Seq<char>, b: Seq<char>)
    requires
        a.len() > 0 && b.len() > 0,
        a[0] != '/' && b[0] != '/',
        a[0] != b[0],
    ensures
        joined(dir, a) != joined(dir, b),
{
    let at: int = if dir.len() == 0 {
        0
    } else if dir.last() == '/' {
        dir.len() as int
    } else {
        (dir.len() + 1) as int
    };
    assert(joined(dir, a)[at] == a[0]);
    assert(joined(dir, b)[at] == b[0]);
}

/// No candidate file, and no background file, lies where the
/// configuration is kept.
pub proof fn lemma_config_is_no_background(games_dir: Seq<char>, name: Seq<char>, ext: Seq<char>)
    ensures
        joined(game_dir_path(games_dir, name), background_file(ext)) != config_path(
            games_dir,
            name,
        ),
        forall|kind: BackgroundKind, i: int|
            0 <= i < kind.candidates().len() ==> #[trigger] candidate_paths(
                game_dir_path(games_dir, name),
                kind,
            )[i] != config_path(games_dir, name),
{
    reveal_strlit("Background.");
    reveal_strlit("Config.json");
    reveal_strlit("Background.png");
    reveal_strlit("Background.webp");
    reveal_strlit("Background.jpg");
    reveal_strlit("Background.jpeg");
    reveal_strlit("Background.mp4");
    reveal_strlit("Background.webm");
    reveal_strlit("Background.mkv");
    let dir = game_dir_path(games_dir, name);
    assert(background_file(ext)[0] == 'B');
    lemma_joined_apart(dir, background_file(ext), "Config.json"@);
    assert forall|kind: BackgroundKind, i: int| 0 <= i < kind.candidates().len() implies #[trigger]
        candidate_paths(dir, kind)[i] != config_path(games_dir, name) by {
        let c = kind.candidates()[i];
        assert(c.len() > 0 && c[0] == 'B');
        lemma_joined_apart(dir, c, "Config.json"@);
    }
}

/// What a replacement leaves behind, provided that `place` puts `data`
/// at the target once the candidates are gone: of the candidates of the
/// kind only the target is left, if it is one; the target holds `data`;
/// and the configuration that is stored is `config`.
pub proof fn lemma_replace_plan_result(
    fs: Files,
    games_dir: Seq<char>,
    name: Seq<char>,
    kind: BackgroundKind,
    place: StepView,
    ext: Seq<char>,
    data: FileData,
    config: ConfigView,
    prefix: Seq<char>,
)
    requires
        effect(run(fs, cleanup(game_dir_path(games_dir, name), kind)), place.action) == run(
            fs,
            cleanup(game_dir_path(games_dir, name), kind),
        ).insert(joined(game_dir_path(games_dir, name), background_file(ext)), data),
    ensures
        ({
            let dir = game_dir_path(games_dir, name);
            let target = joined(dir, background_file(ext));
            let after = run(fs, replace_plan(games_dir, name, kind, place, config, prefix));
            &&& forall|c: Seq<char>| #[trigger]
                candidate_paths(dir, kind).contains(c) ==> (after.dom().contains(c) <==> c
                    == target)
            &&& after.dom().contains(target) && after[target] == data
            &&& after.dom().contains(config_path(games_dir, name))
            &&& after[config_path(games_dir, name)] == FileData::Config(config)
        }),
{
    let dir = game_dir_path(games_dir, name);
    let target = joined(dir, background_file(ext));
    let cfg = config_path(games_dir, name);
    let clean = cleanup(dir, kind);
    let save = save_plan(games_dir, name, config, prefix);
    let cleaned = run(fs, clean);
    let placed = effect(cleaned, place.action);
    lemma_run_removals(fs, candidate_paths(dir, kind));
    lemma_run_concat(fs, clean, seq![place]);
    lemma_run_one(cleaned, place);
    lemma_run_concat(fs, clean + seq![place], save);
    assert(save =~= seq![save[0]] + seq![save[1]]);
    lemma_run_concat(placed, seq![save[0]], seq![save[1]]);
    lemma_run_one(placed, save[0]);
    lemma_run_one(placed, save[1]);
    let after = run(fs, replace_plan(games_dir, name, kind, place, config, prefix));
    assert(after == placed.insert(cfg, FileData::Config(config)));
    lemma_config_is_no_background(games_dir, name, ext);
    assert forall|c: Seq<char>| #[trigger]
        candidate_paths(dir, kind).contains(c) implies (after.dom().contains(c) <==> c
        == target) by {
        let i = choose|i: int|
            0 <= i < candidate_paths(dir, kind).len() && candidate_paths(dir, kind)[i] == c;
        assert(candidate_paths(dir, kind)[i] != cfg);
        assert(!cleaned.dom().contains(c));
    }
}

/// Setting a background from a picked file removes every candidate of
/// the kind and leaves one background file, `Background.<ext>`, holding
/// the source's content; the configuration stored afterwards records the
/// kind.
///
/// This holds where the picked file exists and is not itself one of the
/// candidates that are removed first, and where the configuration that is
/// there can be loaded.
pub proof fn lemma_background_replaced(
    fs: Files,
    games_dir: Seq<char>,
    name: Seq<char>,
    file_path: Seq<char>,
    bg_type: Seq<char>,
    stored: Stored<RawGameConfig>,
    ext: Seq<char>,
)
    requires
        kind_of(bg_type) is Some,
        stored is Missing || stored is Loaded,
        fs.dom().contains(file_path),
        !candidate_paths(game_dir_path(games_dir, name), kind_of(bg_type)->Some_0).contains(
            file_path,
        ),
    ensures
        ({
            let kind = kind_of(bg_type)->Some_0;
            let dir = game_dir_path(games_dir, name);
            let target = joined(dir, "Background."@ + ext);
            let outcome = local_background_as(
                games_dir,
                name,
                file_path,
                true,
                bg_type,
                stored,
                ext,
            );
            &&& outcome is Ok
            &&& forall|c: Seq<char>| #[trigger]
                candidate_paths(dir, kind).contains(c) ==> (run(fs, outcome->Ok_0).dom().contains(
                    c,
                ) <==> c == target)
            &&& run(fs, outcome->Ok_0).dom().contains(target)
            &&& run(fs, outcome->Ok_0)[target] == fs[file_path]
            &&& run(fs, outcome->Ok_0).dom().contains(config_path(games_dir, name))
            &&& run(fs, outcome->Ok_0)[config_path(games_dir, name)] matches FileData::Config(c)
                && c.background_type == bg_type
        }),
{
    let kind = kind_of(bg_type)->Some_0;
    let dir = game_dir_path(games_dir, name);
    let place = local_copy(games_dir, name, file_path, ext);
    let cleaned = run(fs, cleanup(dir, kind));
    lemma_run_removals(fs, candidate_paths(dir, kind));
    assert(cleaned == run(fs, removals(candidate_paths(dir, kind))));
    assert(cleaned.dom().contains(file_path));
    assert(cleaned[file_path] == fs[file_path]);
    lemma_replace_plan_result(
        fs,
        games_dir,
        name,
        kind,
        place,
        ext,
        fs[file_path],
        retyped(current_config(stored, "Failed to update config: "@)->Ok_0, bg_type),
        "Failed to update config: "@,
    );
}

/// An unknown kind is refused before anything is planned: where the
/// picked file exists, the outcome is the failure for an unsupported
/// input, and so the file system is left as it was.
pub proof fn lemma_unknown_kind_changes_nothing(
    fs: Files,
    games_dir: Seq<char>,
    name: Seq<char>,
    file_path: Seq<char>,
    bg_type: Seq<char>,
    stored: Stored<RawGameConfig>,
)
    requires
        kind_of(bg_type) is None,
    ensures
        local_background(games_dir, name, file_path, true, bg_type, stored) == Err::<
            Seq<StepView>,
            (ErrorKind, Seq<char>),
        >((ErrorKind::UnsupportedInput, "Unknown background type: "@ + bg_type)),
        local_background(games_dir, name, file_path, false, bg_type, stored) is Err,
        run(
            fs,
            planned(local_background(games_dir, name, file_path, true, bg_type, stored)),
        ) == fs,
{
}

/// A configuration that is there but cannot be loaded is never replaced:
/// the outcome is a failure, and so every file is left as it was.
pub proof fn lemma_broken_config_is_kept(
    fs: Files,
    games_dir: Seq<char>,
    name: Seq<char>,
    file_path: Seq<char>,
    source_exists: bool,
    bg_type: Seq<char>,
    stored: Stored<RawGameConfig>,
)
    requires
        stored is Malformed || stored is Unreadable,
    ensures
        local_background(games_dir, name, file_path, source_exists, bg_type, stored) is Err,
        run(
            fs,
            planned(local_background(games_dir, name, file_path, source_exists, bg_type, stored)),
        ) == fs,
{
}

/// The steps that an outcome asks for: those of its plan, and none where
/// it is a failure.
pub open spec fn planned(outcome: Result<Seq<StepView>, (ErrorKind, Seq<char>)>) -> Seq<StepView> {
    match outcome {
        Ok(plan) => plan,
        Err(_) => Seq::empty(),
    }
}

/// Where a game's icon is kept.
pub open spec fn icon_path(games_dir: Seq<char>, name: Seq<char>) -> Seq<char> {
    joined(game_dir_path(games_dir, name), "Icon.png"@)
}

/// What setting an icon comes to: the old icon is removed, whatever
/// becomes of that, and the picked file is copied to `Icon.png`.
pub open spec fn icon_outcome(
    games_dir: Seq<char>,
    name: Seq<char>,
    file_path: Seq<char>,
    source_exists: bool,
) -> Result<Seq<StepView>, (ErrorKind, Seq<char>)> {
    if !source_exists {
        Err((ErrorKind::NotFound, "File not found: "@ + file_path))
    } else {
        Ok(
            seq![
                attempted(ActionView::RemoveFile { path: icon_path(games_dir, name) }),
                demanded(
                    ActionView::CopyFile { from: file_path, to: icon_path(games_dir, name) },
                    "Failed to copy icon: "@,
                ),
            ],
        )
    }
}

/// After an icon was set, `Icon.png` holds what the picked file held.
/// This holds where the picked file exists and is not the icon itself,
/// which is removed first.
pub proof fn lemma_icon_replaced(
    fs: Files,
    games_dir: Seq<char>,
    name: Seq<char>,
    file_path: Seq<char>,
)
    requires
        fs.dom().contains(file_path),
        file_path != icon_path(games_dir, name),
    ensures
        ({
            let after = run(fs, planned(icon_outcome(games_dir, name, file_path, true)));
            &&& after.dom().contains(icon_path(games_dir, name))
            &&& after[icon_path(games_dir, name)] == fs[file_path]
        }),
{
    let plan = planned(icon_outcome(games_dir, name, file_path, true));
    assert(plan =~= seq![plan[0]] + seq![plan[1]]);
    lemma_run_concat(fs, seq![plan[0]], seq![plan[1]]);
    lemma_run_one(fs, plan[0]);
    lemma_run_one(effect(fs, plan[0].action), plan[1]);
}

/// Sets the icon of a game from a file on disk. The icon is always kept
/// as `Icon.png`, whatever the extension of the source.
pub fn set_game_icon(games_dir: &str, game_name: &str, file_path: &str, source_exists: bool) -> (result:
    Result<Vec<Step>, LauncherError>)
    ensures
        plan_matches(result, icon_outcome(games_dir@, game_name@, file_path@, source_exists)),
{
    if !source_exists {
        return Err(LauncherError::new(ErrorKind::NotFound, "File not found: ", file_path));
    }
    let game_dir = get_game_dir(games_dir, game_name);
    let mut plan: Vec<Step> = Vec::new();
    plan.push(Step::try_remove_file(join_path(game_dir.as_str(), "Icon.png")));
    plan.push(
        Step::required(
            FsAction::CopyFile {
                from: owned(file_path),
                to: join_path(game_dir.as_str(), "Icon.png"),
            },
            owned("Failed to copy icon: "),
        ),
    );
    assert(plan_view(plan@) =~= icon_outcome(
        games_dir@,
        game_name@,
        file_path@,
        source_exists,
    )->Ok_0);
    Ok(plan)
}

} // verus!
