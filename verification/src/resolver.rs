//! Finding things on disk by trying candidates in a fixed order.
//!
//! Each search comes in two parts. One function lists the candidate paths;
//! the caller looks which of them exist; a second function picks the
//! result. The first candidate that exists always wins.

use vstd::prelude::*;
use crate::error::{ErrorKind, LauncherError};
use crate::paths::{join_path, joined, normalize_path, normalized, parent, parent_dir};
use crate::text::{concat3, owned};

verus! {

/// What the caller found at one candidate path.
#[derive(Debug, PartialEq, Eq)]
pub struct Probe {
    /// Whether something exists at the path.
    pub exists: bool,
    /// The absolute, canonical form of the path, if it could be had.
    pub canonical: Option<String>,
}

impl View for Probe {
    type V = (bool, Option<Seq<char>>);

    open spec fn view(&self) -> (bool, Option<Seq<char>>) {
        (
            self.exists,
            match self.canonical {
                Some(p) => Some(p@),
                None => None,
            },
        )
    }
}

/// The candidates for the resource `filename`, in the order in which they
/// are tried: in the bundled resource directory, then in the two
/// directories used during development.
pub open spec fn resource_candidate_paths(resource_dir: Seq<char>, filename: Seq<char>) -> Seq<
    Seq<char>,
> {
    seq![
        joined(resource_dir, filename),
        joined("resources"@, filename),
        joined("src-tauri/resources"@, filename),
    ]
}

/// Lists the candidates for a resource.
pub fn resource_candidates(resource_dir: &str, filename: &str) -> (candidates: Vec<String>)
    ensures
        candidates@.map_values(|c: String| c@) == resource_candidate_paths(
            resource_dir@,
            filename@,
        ),
{
    let mut candidates: Vec<String> = Vec::new();
    candidates.push(join_path(resource_dir, filename));
    candidates.push(join_path("resources", filename));
    candidates.push(join_path("src-tauri/resources", filename));
    assert(candidates@.map_values(|c: String| c@) =~= resource_candidate_paths(
        resource_dir@,
        filename@,
    ));
    candidates
}

/// The probe of candidate `i`; a candidate without a probe counts as
/// absent.
pub open spec fn probe_at(probes: Seq<Probe>, i: int) -> (bool, Option<Seq<char>>) {
    if 0 <= i < probes.len() {
        probes[i]@
    } else {
        (false, None)
    }
}

/// The message for a resource that no candidate holds.
pub open spec fn not_found_message(resource_dir: Seq<char>, filename: Seq<char>) -> Seq<char> {
    "Resource '"@ + filename + "' not found in \""@ + resource_dir + "\""@
}

/// The result of the search for a resource. The bundled candidate is
/// taken as soon as it exists, in canonical form where that is known. A
/// development candidate is taken only in canonical form. If none is
/// taken the failure names the resource and the bundled directory.
pub open spec fn resolved(
    resource_dir: Result<String, String>,
    filename: Seq<char>,
    probes: Seq<Probe>,
) -> Result<Seq<char>, (ErrorKind, Seq<char>)> {
    match resource_dir {
        Err(why) => Err((ErrorKind::NotFound, why@)),
        Ok(dir) => {
            let bundled = probe_at(probes, 0);
            let first = probe_at(probes, 1);
            let second = probe_at(probes, 2);
            if bundled.0 {
                Ok(
                    match bundled.1 {
                        Some(p) => p,
                        None => joined(dir@, filename),
                    },
                )
            } else if first.0 && first.1 is Some {
                Ok(first.1->Some_0)
            } else if second.0 && second.1 is Some {
                Ok(second.1->Some_0)
            } else {
                Err((ErrorKind::NotFound, not_found_message(dir@, filename)))
            }
        },
    }
}

/// The canonical path of candidate `i`, if it exists and has one.
fn canonical_at(probes: &Vec<Probe>, i: usize) -> (path: Option<String>)
    ensures
        match path {
            Some(p) => probe_at(probes@, i as int) == (true, Some(p@)),
            None => !(probe_at(probes@, i as int).0 && probe_at(probes@, i as int).1 is Some),
        },
{
    if i < probes.len() && probes[i].exists {
        match &probes[i].canonical {
            Some(p) => Some(owned(p.as_str())),
            None => None,
        }
    } else {
        None
    }
}

/// Resolves a resource by name. `resource_dir` is the bundled resource
/// directory, or why the host cannot tell it; `probes` says what was found
/// at each of `resource_candidates`, in order.
pub fn get_resource_path(resource_dir: Result<String, String>, filename: &str, probes: &Vec<Probe>) -> (result:
    Result<String, LauncherError>)
    ensures
        match resolved(resource_dir, filename@, probes@) {
            Ok(path) => result matches Ok(p) && p@ == path,
            Err((kind, message)) => result matches Err(e) && e.is(kind, message),
        },
{
    let dir = match resource_dir {
        Ok(dir) => dir,
        Err(why) => {
            return Err(LauncherError::plain(ErrorKind::NotFound, why.as_str()));
        },
    };
    if probes.len() > 0 && probes[0].exists {
        return Ok(
            match &probes[0].canonical {
                Some(p) => owned(p.as_str()),
                None => join_path(dir.as_str(), filename),
            },
        );
    }
    if let Some(p) = canonical_at(probes, 1) {
        return Ok(p);
    }
    if let Some(p) = canonical_at(probes, 2) {
        return Ok(p);
    }
    let start = concat3("Resource '", filename, "' not found in \"");
    Err(LauncherError { kind: ErrorKind::NotFound, message: concat3(start.as_str(), dir.as_str(), "\"") })
}

/// The first position below `n` at which `flags` holds `true`, or `n`.
/// A position past the end of `flags` counts as `false`.
pub open spec fn first_hit(flags: Seq<bool>, n: int) -> int
    decreases n,
{
    if n <= 0 {
        0
    } else {
        let before = first_hit(flags, n - 1);
        if before < n - 1 {
            before
        } else if n - 1 < flags.len() && flags[n - 1] {
            n - 1
        } else {
            n
        }
    }
}

/// `first_hit` is the least position below `n` that holds `true`, or `n`.
pub proof fn lemma_first_hit(flags: Seq<bool>, n: int)
    requires
        0 <= n,
    ensures
        0 <= first_hit(flags, n) <= n,
        first_hit(flags, n) < n ==> first_hit(flags, n) < flags.len() && flags[first_hit(
            flags,
            n,
        )],
        forall|j: int| 0 <= j < first_hit(flags, n) && j < flags.len() ==> !flags[j],
    decreases n,
{
    if n > 0 {
        lemma_first_hit(flags, n - 1);
    }
}

/// Finds the first candidate that exists.
pub fn first_existing(exists: &Vec<bool>, n: usize) -> (i: usize)
    ensures
        i == first_hit(exists@, n as int),
        i <= n,
{
    let mut i: usize = 0;
    while i < n
        invariant
            i <= n,
            first_hit(exists@, i as int) == i,
        decreases n - i,
    {
        if i < exists.len() && exists[i] {
            proof {
                lemma_first_hit_stays(exists@, i as int, n as int);
            }
            return i;
        }
        i += 1;
    }
    i
}

/// Once a position holds `true`, it is the first hit below every later
/// bound.
pub proof fn lemma_first_hit_stays(flags: Seq<bool>, i: int, n: int)
    requires
        0 <= i < n,
        first_hit(flags, i) == i,
        i < flags.len() && flags[i],
    ensures
        first_hit(flags, n) == i,
    decreases n,
{
    if n > i + 1 {
        lemma_first_hit_stays(flags, i, n - 1);
    }
}

/// The directory that holds the program, given the program's own path.
pub open spec fn program_dir(current_exe: Seq<char>) -> Seq<char> {
    parent(normalized(current_exe))
}

/// The candidates for the games library, in the order in which they are
/// tried: `Games` in the bundled resource directory, then `resources/Games`
/// and `Games` beside the program. A directory that the host cannot tell
/// contributes no candidate.
pub open spec fn games_candidate_paths(
    resource_dir: Option<Seq<char>>,
    current_exe: Option<Seq<char>>,
) -> Seq<Seq<char>> {
    let bundled = match resource_dir {
        Some(dir) => seq![joined(dir, "Games"@)],
        None => Seq::empty(),
    };
    let beside = match current_exe {
        Some(exe) => seq![
            joined(joined(program_dir(exe), "resources"@), "Games"@),
            joined(program_dir(exe), "Games"@),
        ],
        None => Seq::empty(),
    };
    bundled + beside
}

/// The view of an optional text.
pub open spec fn opt_view(text: Option<&str>) -> Option<Seq<char>> {
    match text {
        Some(t) => Some(t@),
        None => None,
    }
}

/// The view of an optional owned text.
pub open spec fn opt_text(text: Option<String>) -> Option<Seq<char>> {
    match text {
        Some(t) => Some(t@),
        None => None,
    }
}

/// Lists the candidates for the games library.
pub fn games_dir_candidates(resource_dir: Option<&str>, current_exe: Option<&str>) -> (candidates:
    Vec<String>)
    ensures
        candidates@.map_values(|c: String| c@) == games_candidate_paths(
            opt_view(resource_dir),
            opt_view(current_exe),
        ),
{
    let mut candidates: Vec<String> = Vec::new();
    if let Some(dir) = resource_dir {
        candidates.push(join_path(dir, "Games"));
    }
    if let Some(exe) = current_exe {
        let portable = normalize_path(exe);
        let beside = parent_dir(portable.as_str());
        let resources = join_path(beside.as_str(), "resources");
        candidates.push(join_path(resources.as_str(), "Games"));
        candidates.push(join_path(beside.as_str(), "Games"));
    }
    assert(candidates@.map_values(|c: String| c@) =~= games_candidate_paths(
        opt_view(resource_dir),
        opt_view(current_exe),
    ));
    candidates
}

/// The first of `candidates` that exists, if any does.
pub open spec fn first_found(candidates: Seq<Seq<char>>, exists: Seq<bool>) -> Option<Seq<char>> {
    let i = first_hit(exists, candidates.len() as int);
    if i < candidates.len() {
        Some(candidates[i])
    } else {
        None
    }
}

/// Picks the first candidate that exists.
fn pick(candidates: &Vec<String>, exists: &Vec<bool>) -> (found: Option<String>)
    ensures
        match found {
            Some(p) => first_found(candidates@.map_values(|c: String| c@), exists@) == Some(p@),
            None => first_found(candidates@.map_values(|c: String| c@), exists@) is None,
        },
{
    let i = first_existing(exists, candidates.len());
    if i < candidates.len() {
        Some(owned(candidates[i].as_str()))
    } else {
        None
    }
}

/// The library root: the first candidate that exists, else the relative
/// path `Games`, which may not exist.
pub open spec fn games_dir(
    resource_dir: Option<Seq<char>>,
    current_exe: Option<Seq<char>>,
    exists: Seq<bool>,
) -> Seq<char> {
    match first_found(games_candidate_paths(resource_dir, current_exe), exists) {
        Some(p) => p,
        None => "Games"@,
    }
}

/// The library root is the relative fallback, or else a candidate that
/// was seen to exist and before which no candidate was.
pub proof fn lemma_games_dir_was_seen(
    resource_dir: Option<Seq<char>>,
    current_exe: Option<Seq<char>>,
    exists: Seq<bool>,
)
    ensures
        ({
            let candidates = games_candidate_paths(resource_dir, current_exe);
            let root = games_dir(resource_dir, current_exe, exists);
            let i = first_hit(exists, candidates.len() as int);
            if i < candidates.len() {
                &&& root == candidates[i]
                &&& i < exists.len() && exists[i]
                &&& forall|j: int| 0 <= j < i && j < exists.len() ==> !exists[j]
            } else {
                root == "Games"@
            }
        }),
{
    lemma_first_hit(exists, games_candidate_paths(resource_dir, current_exe).len() as int);
}

/// Resolves the library root. `exists` says which of
/// `games_dir_candidates` exist, in order. This never fails: a caller must
/// be prepared for a root that is not there.
pub fn find_games_dir(resource_dir: Option<&str>, current_exe: Option<&str>, exists: &Vec<bool>) -> (path:
    String)
    ensures
        path@ == games_dir(opt_view(resource_dir), opt_view(current_exe), exists@),
{
    let candidates = games_dir_candidates(resource_dir, current_exe);
    match pick(&candidates, exists) {
        Some(p) => p,
        None => owned("Games"),
    }
}

/// The bundled library to seed from: the first candidate that exists,
/// else the relative path `Games` if that exists, else none.
pub open spec fn source_games_dir(
    resource_dir: Option<Seq<char>>,
    current_exe: Option<Seq<char>>,
    exists: Seq<bool>,
    fallback_exists: bool,
) -> Option<Seq<char>> {
    match first_found(games_candidate_paths(resource_dir, current_exe), exists) {
        Some(p) => Some(p),
        None => if fallback_exists {
            Some("Games"@)
        } else {
            None
        },
    }
}

/// Finds the bundled library. `exists` says which of
/// `games_dir_candidates` exist, `fallback_exists` whether the relative
/// path `Games` does.
pub fn find_source_games_dir(
    resource_dir: Option<&str>,
    current_exe: Option<&str>,
    exists: &Vec<bool>,
    fallback_exists: bool,
) -> (found: Option<String>)
    ensures
        match found {
            Some(p) => source_games_dir(
                opt_view(resource_dir),
                opt_view(current_exe),
                exists@,
                fallback_exists,
            ) == Some(p@),
            None => source_games_dir(
                opt_view(resource_dir),
                opt_view(current_exe),
                exists@,
                fallback_exists,
            ) is None,
        },
{
    let candidates = games_dir_candidates(resource_dir, current_exe);
    match pick(&candidates, exists) {
        Some(p) => Some(p),
        None => if fallback_exists {
            Some(owned("Games"))
        } else {
            None
        },
    }
}

} // verus!
