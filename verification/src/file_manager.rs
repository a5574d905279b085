//! The per-user games library and the files copied into place at start.

use vstd::prelude::*;
use crate::actions::{
    attempted, demanded, effect, plan_view, run, ActionView, Files, FsAction, Step, StepView,
};
use crate::paths::{join_path, joined};
use crate::resolver::{
    first_existing, first_hit, lemma_first_hit, opt_text, opt_view, resource_candidate_paths,
    resource_candidates,
};
use crate::text::{concat3, owned};

verus! {

/// One entry of the tree below a directory that is being copied.
#[derive(Debug, PartialEq, Eq)]
pub struct TreeEntry {
    /// The entry's path relative to the root of the tree.
    pub rel: String,
    /// Whether the entry is a directory.
    pub is_dir: bool,
    /// Whether the destination already holds something at that path.
    pub dst_exists: bool,
}

/// The step for one entry of the tree: none where the destination holds
/// the entry already, else the directory is created or the file copied.
pub open spec fn entry_step(src: Seq<char>, dst: Seq<char>, entry: TreeEntry) -> Option<StepView> {
    if entry.dst_exists {
        None
    } else if entry.is_dir {
        Some(attempted(ActionView::CreateDirAll { path: joined(dst, entry.rel@) }))
    } else {
        Some(
            attempted(
                ActionView::CopyFile { from: joined(src, entry.rel@), to: joined(dst, entry.rel@) },
            ),
        )
    }
}

/// The plan that copies the tree `entries` from `src` to `dst`: the
/// destination root is created if it is missing, then each entry is taken
/// in order and skipped if the destination has it. Every step is an
/// attempt, so that one file that cannot be copied does not keep the
/// others from being copied.
pub open spec fn copy_plan(
    src: Seq<char>,
    dst: Seq<char>,
    dst_exists: bool,
    entries: Seq<TreeEntry>,
) -> Seq<StepView>
    decreases entries.len(),
{
    if entries.len() == 0 {
        if dst_exists {
            Seq::empty()
        } else {
            seq![attempted(ActionView::CreateDirAll { path: dst })]
        }
    } else {
        let before = copy_plan(src, dst, dst_exists, entries.drop_last());
        match entry_step(src, dst, entries.last()) {
            Some(step) => before.push(step),
            None => before,
        }
    }
}

/// Plans the copy of a directory tree. `entries` lists everything below
/// `src`, parents before their children, and says for each entry whether
/// `dst` holds it already; `dst_exists` says the same of `dst` itself.
/// Nothing that exists at the destination is ever written to.
pub fn copy_dir_recursive(src: &str, dst: &str, dst_exists: bool, entries: &Vec<TreeEntry>) -> (plan:
    Vec<Step>)
    ensures
        plan_view(plan@) == copy_plan(src@, dst@, dst_exists, entries@),
{
    let mut plan: Vec<Step> = Vec::new();
    if !dst_exists {
        plan.push(Step::try_create_dir(owned(dst)));
    }
    assert(entries@.take(0) =~= Seq::<TreeEntry>::empty());
    assert(plan_view(plan@) =~= copy_plan(src@, dst@, dst_exists, entries@.take(0)));
    let mut i: usize = 0;
    while i < entries.len()
        invariant
            i <= entries.len(),
            plan_view(plan@) == copy_plan(src@, dst@, dst_exists, entries@.take(i as int)),
        decreases entries.len() - i,
    {
        let ghost done = entries@.take(i + 1);
        assert(done.drop_last() =~= entries@.take(i as int));
        assert(done.last() == entries@[i as int]);
        let entry = &entries[i];
        let ghost before = plan_view(plan@);
        if !entry.dst_exists {
            let to = join_path(dst, entry.rel.as_str());
            let step = if entry.is_dir {
                Step::try_create_dir(to)
            } else {
                Step::attempt(
                    FsAction::CopyFile { from: join_path(src, entry.rel.as_str()), to },
                )
            };
            plan.push(step);
            assert(plan_view(plan@) =~= before.push(step@));
        }
        i += 1;
    }
    assert(entries@.take(i as int) =~= entries@);
    plan
}

/// Whether a step leaves every file of `fs` as it is: it creates a
/// directory, or it copies to a path at which `fs` holds nothing.
pub open spec fn spares(fs: Files, step: StepView) -> bool {
    match step.action {
        ActionView::CreateDirAll { .. } => true,
        ActionView::CopyFile { from, to } => !fs.dom().contains(to),
        _ => false,
    }
}

/// Whether `after` still holds every file of `fs` with its content.
pub open spec fn keeps(fs: Files, after: Files) -> bool {
    forall|p: Seq<char>| #[trigger]
        fs.dom().contains(p) ==> after.dom().contains(p) && after[p] == fs[p]
}

/// Whether the listing is honest about the files of `fs`: a file that `fs`
/// holds at the destination is marked as existing.
pub open spec fn listing_reports(fs: Files, dst: Seq<char>, entries: Seq<TreeEntry>) -> bool {
    forall|i: int|
        0 <= i < entries.len() && !entries[i].is_dir && fs.dom().contains(
            joined(dst, #[trigger] entries[i].rel@),
        ) ==> entries[i].dst_exists
}

/// Every step of a copy plan spares the files that the listing reports.
pub proof fn lemma_copy_plan_spares(
    fs: Files,
    src: Seq<char>,
    dst: Seq<char>,
    dst_exists: bool,
    entries: Seq<TreeEntry>,
)
    requires
        listing_reports(fs, dst, entries),
    ensures
        forall|k: int|
            0 <= k < copy_plan(src, dst, dst_exists, entries).len() ==> spares(
                fs,
                #[trigger] copy_plan(src, dst, dst_exists, entries)[k],
            ),
    decreases entries.len(),
{
    if entries.len() > 0 {
        let rest = entries.drop_last();
        assert forall|i: int|
            0 <= i < rest.len() && !rest[i].is_dir && fs.dom().contains(
                joined(dst, #[trigger] rest[i].rel@),
            ) implies rest[i].dst_exists by {
            assert(rest[i] == entries[i]);
        }
        lemma_copy_plan_spares(fs, src, dst, dst_exists, rest);
        let last = entries[entries.len() - 1];
        let before = copy_plan(src, dst, dst_exists, rest);
        let plan = copy_plan(src, dst, dst_exists, entries);
        assert(!last.is_dir && !last.dst_exists ==> !fs.dom().contains(joined(dst, last.rel@)));
        assert forall|k: int| 0 <= k < plan.len() implies spares(fs, #[trigger] plan[k]) by {
            if k < before.len() {
                assert(plan[k] == before[k]);
            }
        }
    }
}

/// A plan whose steps all spare the files of `fs` leaves them as they are.
pub proof fn lemma_sparing_plan_keeps(fs: Files, plan: Seq<StepView>)
    requires
        forall|k: int| 0 <= k < plan.len() ==> spares(fs, #[trigger] plan[k]),
    ensures
        keeps(fs, run(fs, plan)),
    decreases plan.len(),
{
    if plan.len() > 0 {
        let rest = plan.drop_last();
        assert forall|k: int| 0 <= k < rest.len() implies spares(fs, #[trigger] rest[k]) by {
            assert(rest[k] == plan[k]);
        }
        lemma_sparing_plan_keeps(fs, rest);
        let cur = run(fs, rest);
        let after = run(fs, plan);
        assert(spares(fs, plan[plan.len() - 1]));
        assert(after == effect(cur, plan[plan.len() - 1].action));
        assert forall|p: Seq<char>| fs.dom().contains(p) implies after.dom().contains(p)
            && after[p] == fs[p] by {
            assert(cur.dom().contains(p) && cur[p] == fs[p]);
        }
    }
}

/// The recursive copy never replaces a file that exists at the
/// destination, whatever the source holds: after any number of steps of
/// the plan, every file that existed before is still there with the
/// content it had.
pub proof fn lemma_copy_never_replaces(
    fs: Files,
    src: Seq<char>,
    dst: Seq<char>,
    dst_exists: bool,
    entries: Seq<TreeEntry>,
    steps_done: int,
)
    requires
        listing_reports(fs, dst, entries),
        0 <= steps_done <= copy_plan(src, dst, dst_exists, entries).len(),
    ensures
        keeps(fs, run(fs, copy_plan(src, dst, dst_exists, entries).take(steps_done))),
{
    let plan = copy_plan(src, dst, dst_exists, entries);
    lemma_copy_plan_spares(fs, src, dst, dst_exists, entries);
    let done = plan.take(steps_done);
    assert forall|k: int| 0 <= k < done.len() implies spares(fs, #[trigger] done[k]) by {
        assert(done[k] == plan[k]);
    }
    lemma_sparing_plan_keeps(fs, done);
}

/// The directory that holds the per-user configuration: a fixed name
/// under the local application data directory, or under `.` where the
/// host cannot tell that directory.
pub open spec fn global_config_dir(local_data_dir: Option<Seq<char>>) -> Seq<char> {
    joined(
        match local_data_dir {
            Some(dir) => dir,
            None => "."@,
        },
        "SSMT4GlobalConfigs"@,
    )
}

/// The per-user games library.
pub open spec fn global_games_dir(local_data_dir: Option<Seq<char>>) -> Seq<char> {
    joined(global_config_dir(local_data_dir), "Games"@)
}

/// The directory that holds the per-user configuration.
pub fn get_global_config_dir(local_data_dir: Option<&str>) -> (dir: String)
    ensures
        dir@ == global_config_dir(opt_view(local_data_dir)),
{
    let base = match local_data_dir {
        Some(dir) => dir,
        None => ".",
    };
    join_path(base, "SSMT4GlobalConfigs")
}

/// The path of the per-user games library.
pub fn get_global_games_target(local_data_dir: Option<&str>) -> (dir: String)
    ensures
        dir@ == global_games_dir(opt_view(local_data_dir)),
{
    let config_dir = get_global_config_dir(local_data_dir);
    join_path(config_dir.as_str(), "Games")
}

/// What is to be done so that the per-user games library exists.
#[derive(Debug, PartialEq, Eq)]
pub struct Bootstrap {
    /// The library's path.
    pub target: String,
    /// Directories to create first.
    pub prepare: Vec<Step>,
    /// The bundled library whose tree is then to be copied to `target`,
    /// if there is one.
    pub seed_from: Option<String>,
}

/// The directories to create before a library that does not exist yet is
/// seeded: the configuration directory unless it is there, and the
/// library itself where nothing will be copied into it.
pub open spec fn bootstrap_plan(
    local_data_dir: Option<Seq<char>>,
    config_dir_exists: bool,
    has_source: bool,
) -> Seq<StepView> {
    let parent = if config_dir_exists {
        Seq::empty()
    } else {
        seq![attempted(ActionView::CreateDirAll { path: global_config_dir(local_data_dir) })]
    };
    let own = if has_source {
        Seq::empty()
    } else {
        seq![attempted(ActionView::CreateDirAll { path: global_games_dir(local_data_dir) })]
    };
    parent + own
}

/// What making sure of the library comes to: the directories to create
/// first, and the bundled library to copy from. Both are empty for a
/// library that exists.
pub open spec fn bootstrap(
    local_data_dir: Option<Seq<char>>,
    target_exists: bool,
    config_dir_exists: bool,
    source: Option<Seq<char>>,
) -> (Seq<StepView>, Option<Seq<char>>) {
    if target_exists {
        (Seq::empty(), None)
    } else {
        (bootstrap_plan(local_data_dir, config_dir_exists, source is Some), source)
    }
}

/// Making sure of a library that exists changes nothing, whatever its
/// files hold by now and whatever the bundled library holds: no step is
/// planned and nothing is to be copied. A second call after a first that
/// created the library is such a call.
pub proof fn lemma_existing_library_untouched(
    fs: Files,
    local_data_dir: Option<Seq<char>>,
    config_dir_exists: bool,
    source: Option<Seq<char>>,
)
    ensures
        run(fs, bootstrap(local_data_dir, true, config_dir_exists, source).0) == fs,
        bootstrap(local_data_dir, true, config_dir_exists, source).1 is None,
{
}

/// Makes sure that the per-user games library exists. `target_exists` and
/// `config_dir_exists` say what is on disk, `source` is the bundled
/// library as `find_source_games_dir` found it.
///
/// A library that exists is left alone: nothing is created and nothing is
/// copied, so what the user changed in it stays.
pub fn get_global_games_dir(
    local_data_dir: Option<&str>,
    target_exists: bool,
    config_dir_exists: bool,
    source: Option<String>,
) -> (boot: Bootstrap)
    ensures
        boot.target@ == global_games_dir(opt_view(local_data_dir)),
        (plan_view(boot.prepare@), opt_text(boot.seed_from)) == bootstrap(
            opt_view(local_data_dir),
            target_exists,
            config_dir_exists,
            opt_text(source),
        ),
{
    let config_dir = get_global_config_dir(local_data_dir);
    let target = get_global_games_target(local_data_dir);
    let mut prepare: Vec<Step> = Vec::new();
    if target_exists {
        assert(plan_view(prepare@) =~= Seq::<StepView>::empty());
        return Bootstrap { target, prepare, seed_from: None };
    }
    if !config_dir_exists {
        prepare.push(Step::try_create_dir(config_dir));
    }
    if source.is_none() {
        prepare.push(Step::try_create_dir(owned(target.as_str())));
    }
    assert(plan_view(prepare@) =~= bootstrap_plan(
        opt_view(local_data_dir),
        config_dir_exists,
        source is Some,
    ));
    Bootstrap { target, prepare, seed_from: source }
}

/// A file that must lie beside a game before it starts.
#[derive(Debug, PartialEq, Eq)]
pub struct BootFile {
    /// The file's name.
    pub name: String,
    /// Where to copy it from; `None` if no candidate holds it.
    pub source: Option<String>,
    /// Where to copy it to, replacing what is there.
    pub target: String,
}

/// The mathematical content of a `BootFile`.
pub struct BootFileView {
    pub name: Seq<char>,
    pub source: Option<Seq<char>>,
    pub target: Seq<char>,
}

impl View for BootFile {
    type V = BootFileView;

    open spec fn view(&self) -> BootFileView {
        BootFileView {
            name: self.name@,
            source: match self.source {
                Some(s) => Some(s@),
                None => None,
            },
            target: self.target@,
        }
    }
}

/// The names of the boot files, in the order in which they are copied.
pub open spec fn boot_file_names() -> Seq<Seq<char>> {
    seq!["d3d11.dll"@, "d3dcompiler_47.dll"@, "Run.exe"@]
}

/// Lists the boot files.
pub fn boot_file_list() -> (names: Vec<&'static str>)
    ensures
        names@.map_values(|n: &'static str| n@) == boot_file_names(),
{
    let mut names: Vec<&'static str> = Vec::new();
    names.push("d3d11.dll");
    names.push("d3dcompiler_47.dll");
    names.push("Run.exe");
    assert(names@.map_values(|n: &'static str| n@) =~= boot_file_names());
    names
}

/// What the caller found for boot file `i`: which of its resource
/// candidates exist. A file without a report has none.
pub open spec fn boot_flags(found: Seq<Vec<bool>>, i: int) -> Seq<bool> {
    if 0 <= i < found.len() {
        found[i]@
    } else {
        Seq::empty()
    }
}

/// The copy to make for one boot file: from the first resource candidate
/// that exists, to the file's name in the target directory.
pub open spec fn boot_file(
    resource_dir: Seq<char>,
    target_dir: Seq<char>,
    name: Seq<char>,
    exists: Seq<bool>,
) -> BootFileView {
    let candidates = resource_candidate_paths(resource_dir, name);
    let i = first_hit(exists, 3);
    BootFileView {
        name,
        source: if i < 3 {
            Some(candidates[i])
        } else {
            None
        },
        target: joined(target_dir, name),
    }
}

/// The copies to make for the boot files: none where the host cannot
/// tell its resource directory, else one per boot file.
pub open spec fn boot_files(
    resource_dir: Option<Seq<char>>,
    target_dir: Seq<char>,
    found: Seq<Vec<bool>>,
) -> Seq<BootFileView> {
    match resource_dir {
        None => Seq::empty(),
        Some(dir) => Seq::new(
            3,
            |i: int| boot_file(dir, target_dir, boot_file_names()[i], boot_flags(found, i)),
        ),
    }
}

/// Plans the copy of one boot file.
fn plan_boot_file(resource_dir: &str, target_dir: &str, name: &str, found: &Vec<Vec<bool>>, i: usize) -> (file:
    BootFile)
    ensures
        file@ == boot_file(resource_dir@, target_dir@, name@, boot_flags(found@, i as int)),
{
    let candidates = resource_candidates(resource_dir, name);
    assert(candidates@.map_values(|c: String| c@).len() == 3);
    let hit = if i < found.len() {
        first_existing(&found[i], 3)
    } else {
        proof {
            lemma_first_hit(Seq::<bool>::empty(), 3);
        }
        3
    };
    let source = if hit < 3 {
        assert(candidates@.map_values(|c: String| c@)[hit as int] == candidates@[hit as int]@);
        Some(owned(candidates[hit].as_str()))
    } else {
        None
    };
    BootFile { name: owned(name), source, target: join_path(target_dir, name) }
}

/// Plans the copies that put the boot files into `target_dir`. `found`
/// says, for each boot file in order, which of its `resource_candidates`
/// exist.
pub fn copy_boot_files(resource_dir: Option<&str>, target_dir: &str, found: &Vec<Vec<bool>>) -> (files:
    Vec<BootFile>)
    ensures
        files@.map_values(|f: BootFile| f@) == boot_files(
            opt_view(resource_dir),
            target_dir@,
            found@,
        ),
{
    let mut files: Vec<BootFile> = Vec::new();
    if let Some(dir) = resource_dir {
        files.push(plan_boot_file(dir, target_dir, "d3d11.dll", found, 0));
        files.push(plan_boot_file(dir, target_dir, "d3dcompiler_47.dll", found, 1));
        files.push(plan_boot_file(dir, target_dir, "Run.exe", found, 2));
    }
    assert(files@.map_values(|f: BootFile| f@) =~= boot_files(
        opt_view(resource_dir),
        target_dir@,
        found@,
    ));
    files
}

/// The notice for a boot file that no candidate holds.
pub fn boot_file_missing(name: &str) -> (message: String)
    ensures
        message@ == "Resource file '"@ + name@ + "' not found."@,
{
    concat3("Resource file '", name, "' not found.")
}

/// The notice for a boot file that could not be copied for the reason
/// `why`.
pub fn boot_copy_failed(name: &str, why: &str) -> (message: String)
    ensures
        message@ == "Failed to copy "@ + name@ + ": "@ + why@
            + ".\nPlease ensure the game is closed."@,
{
    let start = concat3("Failed to copy ", name, ": ");
    concat3(start.as_str(), why, ".\nPlease ensure the game is closed.")
}

/// The plan that makes sure a directory exists: it is created, with its
/// ancestors, unless it is there. A failure is reported under `context`.
pub open spec fn ensure_plan(path: Seq<char>, exists: bool, context: Seq<char>) -> Seq<StepView> {
    if exists {
        Seq::empty()
    } else {
        seq![demanded(ActionView::CreateDirAll { path }, context)]
    }
}

/// Builds `ensure_plan`.
pub fn ensure_steps(path: &str, exists: bool, context: &str) -> (plan: Vec<Step>)
    ensures
        plan_view(plan@) == ensure_plan(path@, exists, context@),
{
    let mut plan: Vec<Step> = Vec::new();
    if !exists {
        plan.push(Step::required(FsAction::CreateDirAll { path: owned(path) }, owned(context)));
    }
    assert(plan_view(plan@) =~= ensure_plan(path@, exists, context@));
    plan
}

/// Makes sure a directory exists; a failure is reported as the system
/// words it.
pub fn check_and_create_dir(path: &str, exists: bool) -> (plan: Vec<Step>)
    ensures
        plan_view(plan@) == ensure_plan(path@, exists, Seq::empty()),
{
    proof {
        reveal_strlit("");
        assert(""@ =~= Seq::<char>::empty());
    }
    ensure_steps(path, exists, "")
}

/// Where the application keeps its own settings: under the local
/// application data directory if the environment names one, else under
/// `.config` in the home directory, else nowhere.
pub open spec fn app_config_dir(local_app_data: Option<Seq<char>>, home: Option<Seq<char>>) -> Option<
    Seq<char>,
> {
    match local_app_data {
        Some(dir) => Some(joined(dir, "SSMT4Configs"@)),
        None => match home {
            Some(dir) => Some(joined(joined(dir, ".config"@), "SSMT4Configs"@)),
            None => None,
        },
    }
}

/// The directory of the application's own settings. The arguments are the
/// values of the environment variables `LOCALAPPDATA` and `HOME`.
pub fn get_app_config_dir(local_app_data: Option<&str>, home: Option<&str>) -> (dir: Option<String>)
    ensures
        match dir {
            Some(d) => app_config_dir(
                opt_view(local_app_data),
                opt_view(home),
            ) == Some(d@),
            None => app_config_dir(
                opt_view(local_app_data),
                opt_view(home),
            ) is None,
        },
{
    match local_app_data {
        Some(dir) => Some(join_path(dir, "SSMT4Configs")),
        None => match home {
            Some(dir) => {
                let config = join_path(dir, ".config");
                Some(join_path(config.as_str(), "SSMT4Configs"))
            },
            None => None,
        },
    }
}

} // verus!
