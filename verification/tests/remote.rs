use ssmt4_backend::actions::{FsAction, OnFailure, Step};
use ssmt4_backend::background::BackgroundKind;
use ssmt4_backend::error::{ErrorKind, Stored};
use ssmt4_backend::json::Json;
use ssmt4_backend::remote::{
    extract_media_url, game_id, update_game_background, CatalogRequest, MediaRequest, Response,
};
use ssmt4_backend::text::decimal_text;

fn ok(body: Vec<u8>) -> Response {
    Response::Answered { status: 200, body }
}

fn failed(why: &str) -> Response {
    Response::Failed(why.to_string())
}

const BASE: &str = "https://hyp-api.mihoyo.com/hyp/hyp-connect/api/getAllGameBasicInfo?launcher_id=jGHBHlcOq1&language=zh-cn&game_id=";

fn obj(entries: Vec<(&str, Json)>) -> Json {
    Json::Object(entries.into_iter().map(|(k, v)| (k.to_string(), v)).collect())
}

fn text(t: &str) -> Json {
    Json::Text(t.to_string())
}

fn catalog(entry: Json) -> Json {
    obj(vec![(
        "data",
        obj(vec![(
            "game_info_list",
            Json::Array(vec![obj(vec![("backgrounds", Json::Array(vec![entry]))])]),
        )]),
    )])
}

fn parse_error(doc: &Json, kind: BackgroundKind) -> String {
    let e = extract_media_url(doc, kind).unwrap_err();
    assert_eq!(e.kind, ErrorKind::Parse);
    e.message
}

#[test]
fn presets_map_to_catalog_ids() {
    assert_eq!(game_id("GIMI"), Some("1Z8W5NHUQb"));
    assert_eq!(game_id("HIMI"), Some("osvnlOc0S8"));
    assert_eq!(game_id("SRMI"), Some("64kMb5iAWu"));
    assert_eq!(game_id("ZZMI"), Some("x6znKlJ0xK"));
    assert_eq!(game_id("gimi"), None);
    assert_eq!(game_id("Default"), None);
}

#[test]
fn update_starts_with_the_catalog_request() {
    let request = update_game_background("SRMI", "video").unwrap();
    assert_eq!(
        request,
        CatalogRequest { url: format!("{}64kMb5iAWu", BASE), kind: BackgroundKind::Video }
    );
}

#[test]
fn update_refuses_unknown_preset_and_kind() {
    let e = update_game_background("WWMI", "image").unwrap_err();
    assert_eq!(e.kind, ErrorKind::UnsupportedInput);
    assert_eq!(e.message, "Unsupported game preset for auto-update: WWMI");
    let e = update_game_background("Default", "image").unwrap_err();
    assert_eq!(e.kind, ErrorKind::UnsupportedInput);
    assert_eq!(e.message, "Unsupported game preset for auto-update: Default");
    let e = update_game_background("GIMI", "audio").unwrap_err();
    assert_eq!(e.kind, ErrorKind::UnsupportedInput);
    assert_eq!(e.message, "Unknown background type: audio");
}

#[test]
fn media_url_is_extracted_by_kind() {
    let doc = catalog(obj(vec![
        ("background", obj(vec![("url", text("https://c/x/bg.webp"))])),
        ("video", obj(vec![("url", text("https://c/x/v.webm"))])),
    ]));
    assert_eq!(extract_media_url(&doc, BackgroundKind::Image), Ok("https://c/x/bg.webp".into()));
    assert_eq!(extract_media_url(&doc, BackgroundKind::Video), Ok("https://c/x/v.webm".into()));
}

#[test]
fn each_missing_part_is_named() {
    assert_eq!(parse_error(&obj(vec![]), BackgroundKind::Image), "Missing field: data");
    assert_eq!(parse_error(&Json::Null, BackgroundKind::Image), "Missing field: data");
    assert_eq!(
        parse_error(&obj(vec![("data", obj(vec![]))]), BackgroundKind::Image),
        "Missing field: data.game_info_list"
    );
    assert_eq!(
        parse_error(
            &obj(vec![("data", obj(vec![("game_info_list", text("x"))]))]),
            BackgroundKind::Image
        ),
        "Missing field: data.game_info_list"
    );
    assert_eq!(
        parse_error(
            &obj(vec![("data", obj(vec![("game_info_list", Json::Array(vec![]))]))]),
            BackgroundKind::Image
        ),
        "Missing field: data.game_info_list[0]"
    );
    assert_eq!(
        parse_error(
            &obj(vec![("data", obj(vec![("game_info_list", Json::Array(vec![obj(vec![])]))]))]),
            BackgroundKind::Image
        ),
        "Missing field: data.game_info_list[0].backgrounds"
    );
    assert_eq!(
        parse_error(
            &obj(vec![(
                "data",
                obj(vec![(
                    "game_info_list",
                    Json::Array(vec![obj(vec![("backgrounds", Json::Array(vec![]))])])
                )])
            )]),
            BackgroundKind::Video
        ),
        "Missing field: data.game_info_list[0].backgrounds[0]"
    );
    let only_image = catalog(obj(vec![("background", obj(vec![("url", text("u"))]))]));
    assert_eq!(parse_error(&only_image, BackgroundKind::Video), "Missing field: data.game_info_list[0].backgrounds[0].video.url");
    let not_text = catalog(obj(vec![("background", obj(vec![("url", Json::Number("1".into()))]))]));
    assert_eq!(parse_error(&not_text, BackgroundKind::Image), "Missing field: data.game_info_list[0].backgrounds[0].background.url");
}

#[test]
fn json_lookup_takes_the_first_entry_for_a_key() {
    let doc = obj(vec![("a", text("1")), ("b", text("2")), ("a", text("3"))]);
    assert_eq!(doc.get("a"), Some(&text("1")));
    assert_eq!(doc.get("b"), Some(&text("2")));
    assert_eq!(doc.get("c"), None);
    assert_eq!(text("x").get("a"), None);
    assert_eq!(text("x").as_str(), Some("x"));
    assert_eq!(Json::Null.as_str(), None);
    assert_eq!(Json::Array(vec![Json::Null]).as_array(), Some(&vec![Json::Null]));
    assert_eq!(doc.as_array(), None);
}

#[test]
fn catalog_answer_is_parsed_and_read() {
    let body = br#"{"retcode":0,"data":{"game_info_list":[{"game":{"id":"x"},
        "backgrounds":[{"id":"1","background":{"url":"https://cdn.example/a/b/bg_01.webp","link":""},
        "video":{"url":"https://cdn.example/a/b/clip.webm"}}]}]}}"#
        .to_vec();
    let request = CatalogRequest { url: "unused".into(), kind: BackgroundKind::Image };
    assert_eq!(
        request.answered(ok(body.clone())),
        Ok(MediaRequest {
            url: "https://cdn.example/a/b/bg_01.webp".into(),
            kind: BackgroundKind::Image
        })
    );
    let request = CatalogRequest { url: "unused".into(), kind: BackgroundKind::Video };
    assert_eq!(
        request.answered(ok(body)).unwrap().url,
        "https://cdn.example/a/b/clip.webm"
    );
}

#[test]
fn catalog_failures_are_told_apart() {
    let request = CatalogRequest { url: "u".into(), kind: BackgroundKind::Image };
    let e = request.answered(failed("timed out")).unwrap_err();
    assert_eq!(e.kind, ErrorKind::Network);
    assert_eq!(e.message, "Request failed: timed out");

    let request = CatalogRequest { url: "u".into(), kind: BackgroundKind::Image };
    let e = request.answered(ok(b"{\"data\": ".to_vec())).unwrap_err();
    assert_eq!(e.kind, ErrorKind::Parse);
    assert!(e.message.starts_with("Failed to parse JSON: EOF while parsing"), "{}", e.message);

    let request = CatalogRequest { url: "u".into(), kind: BackgroundKind::Image };
    let e = request.answered(ok(b"{\"data\": {\"n\": 1.5e3, \"s\": [null, true]}}".to_vec()))
        .unwrap_err();
    assert_eq!(e.kind, ErrorKind::Parse);
    assert_eq!(e.message, "Missing field: data.game_info_list");
}

#[test]
fn download_gives_the_replacement_plan() {
    let request = MediaRequest {
        url: "https://cdn.example/a/clip.WEBM?token=1.2".into(),
        kind: BackgroundKind::Video,
    };
    let plan = request.answered("G", "A", ok(vec![1, 2, 3]), Stored::Missing).unwrap();
    assert_eq!(plan.len(), 6);
    assert_eq!(plan[0], Step::try_remove_file("G/A/Background.mp4".into()));
    assert_eq!(plan[1], Step::try_remove_file("G/A/Background.webm".into()));
    assert_eq!(plan[2], Step::try_remove_file("G/A/Background.mkv".into()));
    assert_eq!(
        plan[3],
        Step {
            action: FsAction::WriteFile { path: "G/A/Background.WEBM".into(), bytes: vec![1, 2, 3] },
            on_failure: OnFailure::Fail { context: "Failed to write file: ".into() },
        }
    );
    assert_eq!(
        plan[4],
        Step {
            action: FsAction::CreateDirAll { path: "G/A".into() },
            on_failure: OnFailure::Fail {
                context: "Failed to save config: Failed to create config directory: ".into()
            },
        }
    );
    match &plan[5].action {
        FsAction::WriteConfig { path, config } => {
            assert_eq!(path, "G/A/Config.json");
            assert_eq!(config.basic.background_type, "video");
            assert_eq!(config.basic.game_preset, "Default");
        }
        other => panic!("unexpected step {:?}", other),
    }
}

#[test]
fn download_without_extension_takes_the_default_of_its_kind() {
    let request = MediaRequest { url: "https://cdn.example/media/77".into(), kind: BackgroundKind::Image };
    let plan = request.answered("G", "A", ok(vec![]), Stored::Missing).unwrap();
    assert_eq!(
        plan[4].action,
        FsAction::WriteFile { path: "G/A/Background.png".into(), bytes: vec![] }
    );
    let request = MediaRequest { url: "https://cdn.example".into(), kind: BackgroundKind::Video };
    let plan = request.answered("G", "A", ok(vec![]), Stored::Missing).unwrap();
    assert_eq!(
        plan[3].action,
        FsAction::WriteFile { path: "G/A/Background.mp4".into(), bytes: vec![] }
    );
}

#[test]
fn failed_download_gives_no_plan() {
    let request = MediaRequest { url: "https://cdn.example/x.png".into(), kind: BackgroundKind::Image };
    let e = request.answered("G", "A", failed("connection reset"), Stored::Missing).unwrap_err();
    assert_eq!(e.kind, ErrorKind::Network);
    assert_eq!(e.message, "Download failed: connection reset");
}

#[test]
fn status_without_success_is_a_network_failure() {
    let request = MediaRequest { url: "https://cdn.example/x.png".into(), kind: BackgroundKind::Image };
    let page = b"<html>not found</html>".to_vec();
    let e = request
        .answered("G", "A", Response::Answered { status: 404, body: page }, Stored::Missing)
        .unwrap_err();
    assert_eq!(e.kind, ErrorKind::Network);
    assert_eq!(e.message, "Download failed: status 404");

    let request = CatalogRequest { url: "u".into(), kind: BackgroundKind::Image };
    let e = request.answered(Response::Answered { status: 500, body: b"{}".to_vec() }).unwrap_err();
    assert_eq!(e.kind, ErrorKind::Network);
    assert_eq!(e.message, "Request failed: status 500");

    for status in [199u16, 300, 301, 0, 65535] {
        let r = Response::Answered { status, body: vec![1] };
        assert_eq!(r.into_body("X: ").unwrap_err().message, format!("X: status {}", status));
    }
    for status in [200u16, 204, 299] {
        let r = Response::Answered { status, body: vec![1] };
        assert_eq!(r.into_body("X: "), Ok(vec![1]));
    }
}

#[test]
fn download_with_a_broken_config_gives_no_plan() {
    let request = MediaRequest { url: "https://cdn.example/x.png".into(), kind: BackgroundKind::Image };
    let e = request.answered("G", "A", ok(vec![1]), Stored::Malformed("bad".into())).unwrap_err();
    assert_eq!(e.kind, ErrorKind::Parse);
    assert_eq!(e.message, "Failed to save config: Failed to parse config: bad");
}

#[test]
fn numbers_are_written_in_decimal() {
    assert_eq!(decimal_text(0), "0");
    assert_eq!(decimal_text(7), "7");
    assert_eq!(decimal_text(404), "404");
    assert_eq!(decimal_text(1000), "1000");
    assert_eq!(decimal_text(65535), "65535");
}
