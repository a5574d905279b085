//! Replacing a game's background with the one the publisher currently
//! shows.
//!
//! The update takes two requests over the network, which the caller makes.
//! Each stage here is a value: `update_game_background` gives the first
//! request, answering a request gives the next stage, and the last answer
//! gives the plan. No step touches the game's files before the download is
//! complete.

use vstd::prelude::*;
use crate::actions::{demanded, run, ActionView, FileData, Files, FsAction, Step, StepView};
use crate::background::{
    background_file, candidate_paths, current_config, kind_of, lemma_replace_plan_result,
    load_current_config, plan_matches, planned, replace_plan, replace_steps, retyped,
    BackgroundKind,
};
use crate::error::{ErrorKind, LauncherError, Stored};
use crate::game_config::{config_path, game_dir_path, get_game_dir, RawGameConfig};
use crate::json::{parse_json, parsed_json, Json};
use crate::paths::{extension, join_path, joined, url_extension, url_path};
use crate::text::{concat2, concat3, decimal, decimal_text, owned, text_eq};

verus! {

/// The catalog's identifier for a game preset. The table is closed.
pub open spec fn catalog_id(preset: Seq<char>) -> Option<Seq<char>> {
    if preset == "GIMI"@ {
        Some("1Z8W5NHUQb"@)
    } else if preset == "HIMI"@ {
        Some("osvnlOc0S8"@)
    } else if preset == "SRMI"@ {
        Some("64kMb5iAWu"@)
    } else if preset == "ZZMI"@ {
        Some("x6znKlJ0xK"@)
    } else {
        None
    }
}

/// The address at which the catalog describes the game `id`.
pub open spec fn catalog_address(id: Seq<char>) -> Seq<char> {
    "https://hyp-api.mihoyo.com/hyp/hyp-connect/api/getAllGameBasicInfo?launcher_id=jGHBHlcOq1&language=zh-cn&game_id="@
        + id
}

/// Looks a preset up in the catalog table.
pub fn game_id(preset: &str) -> (id: Option<&'static str>)
    ensures
        match id {
            Some(text) => catalog_id(preset@) == Some(text@),
            None => catalog_id(preset@) is None,
        },
{
    if text_eq(preset, "GIMI") {
        Some("1Z8W5NHUQb")
    } else if text_eq(preset, "HIMI") {
        Some("osvnlOc0S8")
    } else if text_eq(preset, "SRMI") {
        Some("64kMb5iAWu")
    } else if text_eq(preset, "ZZMI") {
        Some("x6znKlJ0xK")
    } else {
        None
    }
}

/// The first stage: the catalog is to be asked at `url`.
#[derive(Debug, PartialEq, Eq)]
pub struct CatalogRequest {
    pub url: String,
    pub kind: BackgroundKind,
}

/// The second stage: the media file is to be fetched from `url`.
#[derive(Debug, PartialEq, Eq)]
pub struct MediaRequest {
    pub url: String,
    pub kind: BackgroundKind,
}

/// What starting an update comes to: the catalog address and the kind to
/// look for, or the failure for a preset or a kind that is not known.
pub open spec fn first_request(preset: Seq<char>, bg_type: Seq<char>) -> Result<
    (Seq<char>, BackgroundKind),
    (ErrorKind, Seq<char>),
> {
    match catalog_id(preset) {
        None => Err(
            (ErrorKind::UnsupportedInput, "Unsupported game preset for auto-update: "@ + preset),
        ),
        Some(id) => match kind_of(bg_type) {
            None => Err((ErrorKind::UnsupportedInput, "Unknown background type: "@ + bg_type)),
            Some(kind) => Ok((catalog_address(id), kind)),
        },
    }
}

/// Starts the update of a game's background from the publisher's catalog.
/// Nothing is requested for a preset outside the table or for an unknown
/// kind.
pub fn update_game_background(game_preset: &str, bg_type: &str) -> (result: Result<
    CatalogRequest,
    LauncherError,
>)
    ensures
        match first_request(game_preset@, bg_type@) {
            Ok((url, kind)) => result matches Ok(r) && r.url@ == url && r.kind == kind,
            Err((kind, message)) => result matches Err(e) && e.is(kind, message),
        },
{
    let id = match game_id(game_preset) {
        Some(id) => id,
        None => {
            return Err(
                LauncherError::new(
                    ErrorKind::UnsupportedInput,
                    "Unsupported game preset for auto-update: ",
                    game_preset,
                ),
            );
        },
    };
    let kind = match BackgroundKind::parse(bg_type) {
        Some(kind) => kind,
        None => {
            return Err(
                LauncherError::new(
                    ErrorKind::UnsupportedInput,
                    "Unknown background type: ",
                    bg_type,
                ),
            );
        },
    };
    let url = concat2(
        "https://hyp-api.mihoyo.com/hyp/hyp-connect/api/getAllGameBasicInfo?launcher_id=jGHBHlcOq1&language=zh-cn&game_id=",
        id,
    );
    Ok(CatalogRequest { url, kind })
}

/// The elements of the array that is the member `key` of `doc`.
pub open spec fn member_elements(doc: Json, key: Seq<char>) -> Option<Seq<Json>> {
    match doc.member(key) {
        Some(v) => v.elements(),
        None => None,
    }
}

/// The key under which a catalog entry holds the media of a kind.
pub open spec fn media_key(kind: BackgroundKind) -> Seq<char> {
    match kind {
        BackgroundKind::Image => "background"@,
        BackgroundKind::Video => "video"@,
    }
}

/// The address held at `.<media key>.url` of a catalog entry.
pub open spec fn entry_link(entry: Json, kind: BackgroundKind) -> Option<Seq<char>> {
    match entry.member(media_key(kind)) {
        Some(media) => match media.member("url"@) {
            Some(url) => url.text(),
            None => None,
        },
        None => None,
    }
}

/// The media address in a catalog answer, which must be shaped as
/// `data.game_info_list[0].backgrounds[0].<media key>.url`; or the message
/// that names, by its key path, the first part found missing.
pub open spec fn media_link(doc: Json, kind: BackgroundKind) -> Result<Seq<char>, Seq<char>> {
    match doc.member("data"@) {
        None => Err("Missing field: data"@),
        Some(data) => match member_elements(data, "game_info_list"@) {
            None => Err("Missing field: data.game_info_list"@),
            Some(games) => if games.len() == 0 {
                Err("Missing field: data.game_info_list[0]"@)
            } else {
                match member_elements(games[0], "backgrounds"@) {
                    None => Err("Missing field: data.game_info_list[0].backgrounds"@),
                    Some(backgrounds) => if backgrounds.len() == 0 {
                        Err("Missing field: data.game_info_list[0].backgrounds[0]"@)
                    } else {
                        match entry_link(backgrounds[0], kind) {
                            Some(url) => Ok(url),
                            None => Err(
                                match kind {
                                    BackgroundKind::Image => "Missing field: data.game_info_list[0].backgrounds[0].background.url"@,
                                    BackgroundKind::Video => "Missing field: data.game_info_list[0].backgrounds[0].video.url"@,
                                },
                            ),
                        }
                    },
                }
            },
        },
    }
}

/// Looks up `.<media key>.url` in a catalog entry.
fn link_in(entry: &Json, kind: BackgroundKind) -> (link: Option<&str>)
    ensures
        match link {
            Some(url) => entry_link(*entry, kind) == Some(url@),
            None => entry_link(*entry, kind) is None,
        },
{
    let key = match kind {
        BackgroundKind::Image => "background",
        BackgroundKind::Video => "video",
    };
    match entry.get(key) {
        Some(media) => match media.get("url") {
            Some(url) => url.as_str(),
            None => None,
        },
        None => None,
    }
}

/// Looks up the array that is the member `key` of `doc`.
fn elements_in<'a>(doc: &'a Json, key: &str) -> (items: Option<&'a Vec<Json>>)
    ensures
        match items {
            Some(v) => member_elements(*doc, key@) == Some(v@),
            None => member_elements(*doc, key@) is None,
        },
{
    match doc.get(key) {
        Some(v) => v.as_array(),
        None => None,
    }
}

/// Extracts the media address of a kind from a catalog answer. Any part
/// of the expected shape that is missing is a parse failure that names it.
pub fn extract_media_url(doc: &Json, kind: BackgroundKind) -> (result: Result<
    String,
    LauncherError,
>)
    ensures
        match media_link(*doc, kind) {
            Ok(url) => result matches Ok(u) && u@ == url,
            Err(message) => result matches Err(e) && e.is(ErrorKind::Parse, message),
        },
{
    let data = match doc.get("data") {
        Some(data) => data,
        None => {
            return Err(LauncherError::plain(ErrorKind::Parse, "Missing field: data"));
        },
    };
    let games = match elements_in(data, "game_info_list") {
        Some(games) => games,
        None => {
            return Err(LauncherError::plain(ErrorKind::Parse, "Missing field: data.game_info_list"));
        },
    };
    if games.len() == 0 {
        return Err(LauncherError::plain(ErrorKind::Parse, "Missing field: data.game_info_list[0]"));
    }
    let backgrounds = match elements_in(&games[0], "backgrounds") {
        Some(backgrounds) => backgrounds,
        None => {
            return Err(LauncherError::plain(ErrorKind::Parse, "Missing field: data.game_info_list[0].backgrounds"));
        },
    };
    if backgrounds.len() == 0 {
        return Err(LauncherError::plain(ErrorKind::Parse, "Missing field: data.game_info_list[0].backgrounds[0]"));
    }
    match link_in(&backgrounds[0], kind) {
        Some(url) => Ok(owned(url)),
        None => Err(
            LauncherError::plain(
                ErrorKind::Parse,
                match kind {
                    BackgroundKind::Image => "Missing field: data.game_info_list[0].backgrounds[0].background.url",
                    BackgroundKind::Video => "Missing field: data.game_info_list[0].backgrounds[0].video.url",
                },
            ),
        ),
    }
}

/// What came of a request.
#[derive(Debug, PartialEq, Eq)]
pub enum Response {
    /// No answer came; the text says why.
    Failed(String),
    /// An answer came, with this status and this body.
    Answered { status: u16, body: Vec<u8> },
}

/// Whether a status reports success.
pub open spec fn is_success(status: u16) -> bool {
    200 <= status < 300
}

/// The body that a response delivers: that of an answer with a status of
/// success. Any other response is a network failure, reported under
/// `context` with the reason or the status.
pub open spec fn delivered(response: Response, context: Seq<char>) -> Result<
    Seq<u8>,
    (ErrorKind, Seq<char>),
> {
    match response {
        Response::Failed(why) => Err((ErrorKind::Network, context + why@)),
        Response::Answered { status, body } => if is_success(status) {
            Ok(body@)
        } else {
            Err((ErrorKind::Network, context + "status "@ + decimal(status as nat)))
        },
    }
}

impl Response {
    /// Takes the body out of a response, or reports the network failure
    /// under `context`.
    pub fn into_body(self, context: &str) -> (result: Result<Vec<u8>, LauncherError>)
        ensures
            match delivered(self, context@) {
                Ok(bytes) => result matches Ok(b) && b@ == bytes,
                Err((kind, message)) => result matches Err(e) && e.is(kind, message),
            },
    {
        match self {
            Response::Failed(why) => Err(
                LauncherError::new(ErrorKind::Network, context, why.as_str()),
            ),
            Response::Answered { status, body } => {
                if 200 <= status && status < 300 {
                    Ok(body)
                } else {
                    let code = decimal_text(status);
                    let message = concat3(context, "status ", code.as_str());
                    Err(LauncherError { kind: ErrorKind::Network, message })
                }
            },
        }
    }
}

/// What an answer to the catalog request comes to: the media address, or
/// the failure of the request, of the parser, or of the extraction.
pub open spec fn catalog_outcome(kind: BackgroundKind, response: Response) -> Result<
    Seq<char>,
    (ErrorKind, Seq<char>),
> {
    match delivered(response, "Request failed: "@) {
        Err(failure) => Err(failure),
        Ok(body) => match parsed_json(body) {
            Err(message) => Err((ErrorKind::Parse, "Failed to parse JSON: "@ + message)),
            Ok(doc) => match media_link(doc, kind) {
                Ok(url) => Ok(url),
                Err(message) => Err((ErrorKind::Parse, message)),
            },
        },
    }
}

impl CatalogRequest {
    /// Takes the response to the catalog request. The media is to be
    /// fetched next, from the address that the catalog gave.
    pub fn answered(self, response: Response) -> (result: Result<MediaRequest, LauncherError>)
        ensures
            match catalog_outcome(self.kind, response) {
                Ok(url) => result matches Ok(r) && r.url@ == url && r.kind == self.kind,
                Err((kind, message)) => result matches Err(e) && e.is(kind, message),
            },
    {
        let body = match response.into_body("Request failed: ") {
            Ok(body) => body,
            Err(e) => {
                return Err(e);
            },
        };
        let doc = match parse_json(body.as_slice()) {
            Ok(doc) => doc,
            Err(message) => {
                return Err(
                    LauncherError::new(
                        ErrorKind::Parse,
                        "Failed to parse JSON: ",
                        message.as_str(),
                    ),
                );
            },
        };
        match extract_media_url(&doc, self.kind) {
            Ok(url) => Ok(MediaRequest { url, kind: self.kind }),
            Err(e) => Err(e),
        }
    }
}

/// The extension for a download: the one its address shows, else the
/// default of its kind.
pub open spec fn remote_extension(url: Seq<char>, kind: BackgroundKind) -> Seq<char> {
    match extension(url_path(url)) {
        Some(e) => e,
        None => kind.default_extension(),
    }
}

/// Where a download goes.
pub open spec fn remote_target(
    games_dir: Seq<char>,
    name: Seq<char>,
    url: Seq<char>,
    kind: BackgroundKind,
) -> Seq<char> {
    joined(game_dir_path(games_dir, name), background_file(remote_extension(url, kind)))
}

/// What a response to the media request comes to. A download that
/// failed, or was answered without success, is a failure without a plan,
/// and so is a configuration that is there but cannot be loaded. A
/// complete download gives the plan that removes the candidates of the
/// kind, writes the bytes and stores the configuration.
pub open spec fn media_outcome(
    games_dir: Seq<char>,
    name: Seq<char>,
    url: Seq<char>,
    kind: BackgroundKind,
    response: Response,
    stored: Stored<RawGameConfig>,
) -> Result<Seq<StepView>, (ErrorKind, Seq<char>)> {
    match delivered(response, "Download failed: "@) {
        Err(failure) => Err(failure),
        Ok(bytes) => match current_config(stored, "Failed to save config: "@) {
            Err(failure) => Err(failure),
            Ok(config) => Ok(
                replace_plan(
                    games_dir,
                    name,
                    kind,
                    demanded(
                        ActionView::WriteFile {
                            path: remote_target(games_dir, name, url, kind),
                            bytes,
                        },
                        "Failed to write file: "@,
                    ),
                    retyped(config, kind.label()),
                    "Failed to save config: "@,
                ),
            ),
        },
    }
}

impl MediaRequest {
    /// Takes the response to the media request. `stored` is what was
    /// found at the game's configuration path.
    pub fn answered(
        self,
        games_dir: &str,
        game_name: &str,
        response: Response,
        stored: Stored<RawGameConfig>,
    ) -> (result: Result<Vec<Step>, LauncherError>)
        ensures
            plan_matches(
                result,
                media_outcome(games_dir@, game_name@, self.url@, self.kind, response, stored),
            ),
    {
        let bytes = match response.into_body("Download failed: ") {
            Ok(bytes) => bytes,
            Err(e) => {
                return Err(e);
            },
        };
        let current = match load_current_config(stored, "Failed to save config: ") {
            Ok(config) => config,
            Err(e) => {
                return Err(e);
            },
        };
        let ext = match url_extension(self.url.as_str()) {
            Some(e) => e,
            None => owned(self.kind.fallback_extension()),
        };
        let file = concat2("Background.", ext.as_str());
        let game_dir = get_game_dir(games_dir, game_name);
        let place = Step::required(
            FsAction::WriteFile { path: join_path(game_dir.as_str(), file.as_str()), bytes },
            owned("Failed to write file: "),
        );
        let config = current.with_background_type(self.kind.name());
        Ok(replace_steps(games_dir, game_name, self.kind, place, config, "Failed to save config: "))
    }
}

/// A download that fails, or is answered with a status other than
/// success, leaves every file as it was: the outcome is a network
/// failure, it asks for no step, and so no candidate has been removed and
/// the body of the answer is written nowhere.
pub proof fn lemma_failed_download_changes_nothing(
    fs: Files,
    games_dir: Seq<char>,
    name: Seq<char>,
    url: Seq<char>,
    kind: BackgroundKind,
    response: Response,
    stored: Stored<RawGameConfig>,
)
    requires
        response is Failed || !is_success(response->status),
    ensures
        media_outcome(games_dir, name, url, kind, response, stored) matches Err(failure)
            && failure.0 == ErrorKind::Network,
        run(fs, planned(media_outcome(games_dir, name, url, kind, response, stored))) == fs,
{
}

/// A complete download replaces the background: of the candidates of
/// the kind only the new file is left, if it is one; the new file holds
/// the bytes that came; and the configuration stored afterwards records
/// the kind. This holds where the configuration that is there can be
/// loaded.
pub proof fn lemma_download_replaces_background(
    fs: Files,
    games_dir: Seq<char>,
    name: Seq<char>,
    url: Seq<char>,
    kind: BackgroundKind,
    status: u16,
    body: Vec<u8>,
    stored: Stored<RawGameConfig>,
)
    requires
        is_success(status),
        stored is Missing || stored is Loaded,
    ensures
        ({
            let dir = game_dir_path(games_dir, name);
            let target = remote_target(games_dir, name, url, kind);
            let outcome = media_outcome(
                games_dir,
                name,
                url,
                kind,
                Response::Answered { status, body },
                stored,
            );
            let after = run(fs, planned(outcome));
            &&& outcome is Ok
            &&& forall|c: Seq<char>| #[trigger]
                candidate_paths(dir, kind).contains(c) ==> (after.dom().contains(c) <==> c
                    == target)
            &&& after.dom().contains(target) && after[target] == FileData::Bytes(body@)
            &&& after.dom().contains(config_path(games_dir, name))
            &&& after[config_path(games_dir, name)] matches FileData::Config(c)
                && c.background_type == kind.label()
        }),
{
    let target = remote_target(games_dir, name, url, kind);
    lemma_replace_plan_result(
        fs,
        games_dir,
        name,
        kind,
        demanded(ActionView::WriteFile { path: target, bytes: body@ }, "Failed to write file: "@),
        remote_extension(url, kind),
        FileData::Bytes(body@),
        retyped(current_config(stored, "Failed to save config: "@)->Ok_0, kind.label()),
        "Failed to save config: "@,
    );
}

} // verus!
