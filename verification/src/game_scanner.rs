//! The game scanner: from a listing of the library root to the records that
//! the presentation layer shows, and the visibility list that goes with them.

use vstd::prelude::*;
use crate::error::{ErrorKind, LauncherError, Stored};
use crate::paths::{join_path, joined, normalize_path, normalized};
use crate::text::{owned, text_eq};

verus! {

/// One game as the presentation layer sees it.
#[derive(Debug, PartialEq, Eq)]
pub struct GameInfo {
    pub name: String,
    pub icon_path: String,
    pub bg_path: String,
    pub bg_video_path: Option<String>,
    pub show_sidebar: bool,
}

/// The mathematical content of a `GameInfo`.
pub struct GameRecord {
    pub name: Seq<char>,
    pub icon_path: Seq<char>,
    pub bg_path: Seq<char>,
    pub bg_video_path: Option<Seq<char>>,
    pub show_sidebar: bool,
}

impl View for GameInfo {
    type V = GameRecord;

    open spec fn view(&self) -> GameRecord {
        GameRecord {
            name: self.name@,
            icon_path: self.icon_path@,
            bg_path: self.bg_path@,
            bg_video_path: match self.bg_video_path {
                Some(p) => Some(p@),
                None => None,
            },
            show_sidebar: self.show_sidebar,
        }
    }
}

/// One line of the visibility list: a game's name and whether it is shown.
#[derive(Debug, PartialEq, Eq)]
pub struct GameIconSetting {
    pub game_name: String,
    pub show: bool,
}

impl View for GameIconSetting {
    type V = (Seq<char>, bool);

    open spec fn view(&self) -> (Seq<char>, bool) {
        (self.game_name@, self.show)
    }
}

/// The visibility list kept at the library root.
#[derive(Debug, PartialEq, Eq)]
pub struct GameIconConfig {
    pub list: Vec<GameIconSetting>,
}

impl View for GameIconConfig {
    type V = Seq<(Seq<char>, bool)>;

    open spec fn view(&self) -> Seq<(Seq<char>, bool)> {
        self.list@.map_values(|s: GameIconSetting| s@)
    }
}

/// What a caller saw of one entry of the library root.
#[derive(Debug, PartialEq, Eq)]
pub struct GameEntry {
    /// The entry's base name, if it is valid Unicode.
    pub name: Option<String>,
    /// Whether the entry is a directory.
    pub is_dir: bool,
    /// Whether the entry holds a file `Background.mp4`.
    pub has_mp4: bool,
    /// Whether the entry holds a file `Background.webm`.
    pub has_webm: bool,
}

/// Whether `list` shows `name`: the last line for that name decides, and a
/// name without a line is hidden.
pub open spec fn shown(list: Seq<(Seq<char>, bool)>, name: Seq<char>) -> bool
    decreases list.len(),
{
    if list.len() == 0 {
        false
    } else if list.last().0 == name {
        list.last().1
    } else {
        shown(list.drop_last(), name)
    }
}

/// The normalized path of the asset `leaf` of the game `name` under `dir`.
pub open spec fn asset_path(dir: Seq<char>, name: Seq<char>, leaf: Seq<char>) -> Seq<char> {
    normalized(joined(joined(dir, name), leaf))
}

/// The record for one entry: none for what is not a directory or has no
/// Unicode name.
pub open spec fn record_of(
    dir: Seq<char>,
    list: Seq<(Seq<char>, bool)>,
    entry: GameEntry,
) -> Option<GameRecord> {
    match entry.name {
        Some(n) if entry.is_dir => Some(
            GameRecord {
                name: n@,
                icon_path: asset_path(dir, n@, "Icon.png"@),
                bg_path: asset_path(dir, n@, "Background.png"@),
                bg_video_path: if entry.has_mp4 {
                    Some(asset_path(dir, n@, "Background.mp4"@))
                } else if entry.has_webm {
                    Some(asset_path(dir, n@, "Background.webm"@))
                } else {
                    None
                },
                show_sidebar: shown(list, n@),
            },
        ),
        _ => None,
    }
}

/// The records for a listing, in the order of the listing.
pub open spec fn scanned(
    dir: Seq<char>,
    list: Seq<(Seq<char>, bool)>,
    entries: Seq<GameEntry>,
) -> Seq<GameRecord>
    decreases entries.len(),
{
    if entries.len() == 0 {
        Seq::empty()
    } else {
        let before = scanned(dir, list, entries.drop_last());
        match record_of(dir, list, entries.last()) {
            Some(r) => before.push(r),
            None => before,
        }
    }
}

/// The views of a sequence of records.
pub open spec fn records(games: Seq<GameInfo>) -> Seq<GameRecord> {
    games.map_values(|g: GameInfo| g@)
}

/// The lines of a visibility list, or none where there is no list.
pub open spec fn lines(config: Option<&GameIconConfig>) -> Seq<(Seq<char>, bool)> {
    match config {
        Some(c) => c@,
        None => Seq::empty(),
    }
}

/// Looks a game up in the visibility list.
pub fn is_shown(config: Option<&GameIconConfig>, name: &str) -> (show: bool)
    ensures
        show == shown(lines(config), name@),
{
    match config {
        None => false,
        Some(c) => {
            let mut i: usize = c.list.len();
            assert(c@.take(i as int) =~= c@);
            while i > 0
                invariant
                    i <= c.list.len(),
                    c@.len() == c.list.len(),
                    lines(config) == c@,
                    shown(c@, name@) == shown(c@.take(i as int), name@),
                decreases i,
            {
                let ghost cur = c@.take(i as int);
                assert(cur.last() == c.list@[i - 1]@);
                assert(cur.drop_last() =~= c@.take(i - 1));
                if text_eq(c.list[i - 1].game_name.as_str(), name) {
                    return c.list[i - 1].show;
                }
                i -= 1;
            }
            false
        },
    }
}

/// Builds the path of one asset of a game.
fn asset(dir: &str, name: &str, leaf: &str) -> (path: String)
    ensures
        path@ == asset_path(dir@, name@, leaf@),
{
    let game_dir = join_path(dir, name);
    let full = join_path(game_dir.as_str(), leaf);
    normalize_path(full.as_str())
}

/// Scans the library root. `listing` is what listing the directory
/// `games_dir` gave: its entries, or why it could not be listed. `config` is
/// the visibility list, if one could be loaded.
///
/// Every directory with a Unicode name yields one record, in listing order;
/// a root that cannot be listed is a failure, an empty one is not.
pub fn scan_games(
    games_dir: &str,
    config: Option<&GameIconConfig>,
    listing: Result<Vec<GameEntry>, String>,
) -> (result: Result<Vec<GameInfo>, LauncherError>)
    ensures
        match (listing, result) {
            (Ok(entries), Ok(games)) => records(games@) == scanned(
                games_dir@,
                lines(config),
                entries@,
            ),
            (Err(why), Err(e)) => e.is(
                ErrorKind::Io,
                "Failed to read games directory: "@ + why@,
            ),
            _ => false,
        },
{
    let entries = match listing {
        Ok(entries) => entries,
        Err(why) => {
            return Err(
                LauncherError::new(
                    ErrorKind::Io,
                    "Failed to read games directory: ",
                    why.as_str(),
                ),
            );
        },
    };
    let mut games: Vec<GameInfo> = Vec::new();
    let mut i: usize = 0;
    assert(entries@.take(0) =~= Seq::<GameEntry>::empty());
    while i < entries.len()
        invariant
            i <= entries.len(),
            records(games@) == scanned(games_dir@, lines(config), entries@.take(i as int)),
        decreases entries.len() - i,
    {
        let ghost done = entries@.take(i + 1);
        assert(done.drop_last() =~= entries@.take(i as int));
        assert(done.last() == entries@[i as int]);
        let entry = &entries[i];
        if entry.is_dir {
            if let Some(name) = &entry.name {
                let video = if entry.has_mp4 {
                    Some(asset(games_dir, name.as_str(), "Background.mp4"))
                } else if entry.has_webm {
                    Some(asset(games_dir, name.as_str(), "Background.webm"))
                } else {
                    None
                };
                let game = GameInfo {
                    name: owned(name.as_str()),
                    icon_path: asset(games_dir, name.as_str(), "Icon.png"),
                    bg_path: asset(games_dir, name.as_str(), "Background.png"),
                    bg_video_path: video,
                    show_sidebar: is_shown(config, name.as_str()),
                };
                let ghost before = games@;
                games.push(game);
                assert(records(games@) =~= records(before).push(game@));
            }
        }
        i += 1;
    }
    assert(entries@.take(i as int) =~= entries@);
    Ok(games)
}

/// A library that holds two games, of which the visibility list names
/// only the first and shows it, scans to two records: the first shown,
/// the second hidden.
pub proof fn lemma_scan_shows_listed_game(dir: Seq<char>, first: GameEntry, second: GameEntry)
    requires
        first.is_dir && second.is_dir,
        first.name is Some && second.name is Some,
        first.name->Some_0@ != second.name->Some_0@,
    ensures
        ({
            let list = seq![(first.name->Some_0@, true)];
            let games = scanned(dir, list, seq![first, second]);
            &&& games.len() == 2
            &&& games[0].name == first.name->Some_0@ && games[0].show_sidebar
            &&& games[1].name == second.name->Some_0@ && !games[1].show_sidebar
        }),
{
    let list = seq![(first.name->Some_0@, true)];
    let both = seq![first, second];
    assert(both.drop_last() =~= seq![first]);
    assert(seq![first].drop_last() =~= Seq::<GameEntry>::empty());
    assert(scanned(dir, list, Seq::<GameEntry>::empty()).len() == 0);
    assert(scanned(dir, list, seq![first]).len() == 1);
    assert(list.drop_last() =~= Seq::<(Seq<char>, bool)>::empty());
    assert(shown(list, first.name->Some_0@));
    assert(!shown(list.drop_last(), second.name->Some_0@));
    assert(!shown(list, second.name->Some_0@));
}

/// The position of the first line of `list` for `name`, or the number of
/// lines if there is none.
pub open spec fn line_index(list: Seq<(Seq<char>, bool)>, name: Seq<char>) -> int
    decreases list.len(),
{
    if list.len() == 0 {
        0
    } else if list[0].0 == name {
        0
    } else {
        1 + line_index(list.skip(1), name)
    }
}

/// `list` with `name` set to `visible`: its first line for that name is
/// rewritten in place, and a list without one gets a new last line.
pub open spec fn upserted(list: Seq<(Seq<char>, bool)>, name: Seq<char>, visible: bool) -> Seq<
    (Seq<char>, bool),
> {
    let i = line_index(list, name);
    if i < list.len() {
        list.update(i, (name, visible))
    } else {
        list.push((name, visible))
    }
}

/// No two lines of `list` are for the same name.
pub open spec fn unique_names(list: Seq<(Seq<char>, bool)>) -> bool {
    forall|i: int, j: int| 0 <= i < j < list.len() ==> list[i].0 != list[j].0
}

/// The lines that a stored visibility list stands for.
pub open spec fn stored_lines(existing: Stored<GameIconConfig>) -> Seq<(Seq<char>, bool)> {
    match existing {
        Stored::Loaded(c) => c@,
        _ => Seq::empty(),
    }
}

/// `line_index` is the least position whose line is for `name`, or the
/// length.
pub proof fn lemma_line_index(list: Seq<(Seq<char>, bool)>, name: Seq<char>)
    ensures
        0 <= line_index(list, name) <= list.len(),
        line_index(list, name) < list.len() ==> list[line_index(list, name)].0 == name,
        forall|j: int| 0 <= j < line_index(list, name) ==> list[j].0 != name,
    decreases list.len(),
{
    if list.len() > 0 && list[0].0 != name {
        let rest = list.skip(1);
        lemma_line_index(rest, name);
        assert forall|j: int| 0 <= j < line_index(list, name) implies list[j].0 != name by {
            if j > 0 {
                assert(rest[j - 1] == list[j]);
            }
        }
    }
}

/// Sets the visibility of one game. `existing` is what was found where the
/// visibility list is kept; the result is the complete list to write back.
///
/// A missing list counts as empty. A list that could not be read or parsed
/// is a failure and nothing is to be written.
pub fn set_game_visibility(
    existing: Stored<GameIconConfig>,
    game_name: String,
    visible: bool,
) -> (result: Result<GameIconConfig, LauncherError>)
    ensures
        match existing {
            Stored::Unreadable(why) => result matches Err(e) && e.is(
                ErrorKind::Io,
                "Failed to read config file: "@ + why@,
            ),
            Stored::Malformed(why) => result matches Err(e) && e.is(
                ErrorKind::Parse,
                "Failed to parse config file: "@ + why@,
            ),
            _ => result matches Ok(c) && c@ == upserted(
                stored_lines(existing),
                game_name@,
                visible,
            ),
        },
{
    let mut config = match existing {
        Stored::Missing => GameIconConfig { list: Vec::new() },
        Stored::Unreadable(why) => {
            return Err(
                LauncherError::new(ErrorKind::Io, "Failed to read config file: ", why.as_str()),
            );
        },
        Stored::Malformed(why) => {
            return Err(
                LauncherError::new(
                    ErrorKind::Parse,
                    "Failed to parse config file: ",
                    why.as_str(),
                ),
            );
        },
        Stored::Loaded(c) => c,
    };
    let ghost before = config@;
    assert(before == stored_lines(existing));
    let n = config.list.len();
    let mut i: usize = 0;
    assert(before.skip(0) =~= before);
    while i < n && !text_eq(config.list[i].game_name.as_str(), game_name.as_str())
        invariant
            i <= n == config.list.len(),
            config@ == before,
            line_index(before, game_name@) == i + line_index(before.skip(i as int), game_name@),
        decreases n - i,
    {
        assert(before.skip(i as int)[0] == config.list@[i as int]@);
        assert(before.skip(i as int).skip(1) =~= before.skip(i + 1));
        i += 1;
    }
    if i < n {
        assert(before.skip(i as int)[0] == config.list@[i as int]@);
        config.list.set(i, GameIconSetting { game_name, show: visible });
        assert(config@ =~= before.update(i as int, (game_name@, visible)));
    } else {
        config.list.push(GameIconSetting { game_name, show: visible });
        assert(config@ =~= before.push((game_name@, visible)));
    }
    Ok(config)
}

/// Setting the visibility of one game twice leaves exactly one line for it,
/// and that line holds the value given last. This is stated for lists in
/// which no name occurs twice, and such a list stays one.
pub proof fn lemma_visibility_set_twice(
    list: Seq<(Seq<char>, bool)>,
    name: Seq<char>,
    first: bool,
    second: bool,
)
    requires
        unique_names(list),
    ensures
        ({
            let after = upserted(upserted(list, name, first), name, second);
            &&& unique_names(after)
            &&& exists|i: int|
                0 <= i < after.len() && after[i] == (name, second) && forall|j: int|
                    0 <= j < after.len() && after[j].0 == name ==> j == i
            &&& shown(after, name) == second
        }),
{
    let once = upserted(list, name, first);
    lemma_upsert(list, name, first);
    lemma_upsert(once, name, second);
    let after = upserted(once, name, second);
    let i = line_index(once, name);
    lemma_line_index(once, name);
    assert(after[i] == (name, second));
    lemma_shown_unique(after, name, i);
}

/// After an upsert the name has a line, that line holds the new value, and
/// a list without repeated names is still one.
pub proof fn lemma_upsert(list: Seq<(Seq<char>, bool)>, name: Seq<char>, visible: bool)
    requires
        unique_names(list),
    ensures
        ({
            let after = upserted(list, name, visible);
            let i = line_index(after, name);
            &&& unique_names(after)
            &&& 0 <= i < after.len()
            &&& after[i] == (name, visible)
            &&& i == line_index(list, name)
            &&& after.len() == if i < list.len() { list.len() } else { list.len() + 1 }
        }),
{
    let k = line_index(list, name);
    lemma_line_index(list, name);
    let after = upserted(list, name, visible);
    lemma_line_index(after, name);
    assert(after[k] == (name, visible));
    assert forall|j: int| 0 <= j < k implies after[j].0 != name by {
        assert(after[j] == list[j]);
    }
    assert forall|a: int, b: int| 0 <= a < b < after.len() implies after[a].0 != after[b].0 by {
        if k < list.len() {
            assert(a != k ==> after[a] == list[a]);
            assert(b != k ==> after[b] == list[b]);
            assert(list[k].0 == name);
        } else {
            assert(a < list.len() ==> after[a] == list[a]);
            assert(b < list.len() ==> after[b] == list[b]);
        }
    }
}

/// In a list without repeated names, the one line for a name decides
/// whether it is shown.
pub proof fn lemma_shown_unique(list: Seq<(Seq<char>, bool)>, name: Seq<char>, i: int)
    requires
        unique_names(list),
        0 <= i < list.len(),
        list[i].0 == name,
    ensures
        shown(list, name) == list[i].1,
    decreases list.len(),
{
    if i < list.len() - 1 {
        let rest = list.drop_last();
        assert(list.last().0 != name);
        assert forall|a: int, b: int| 0 <= a < b < rest.len() implies rest[a].0 != rest[b].0 by {
            assert(rest[a] == list[a] && rest[b] == list[b]);
        }
        lemma_shown_unique(rest, name, i);
    }
}

} // verus!
