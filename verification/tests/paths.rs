use ssmt4_backend::paths::{
    extension_of, join_path, normalize_path, parent_dir, url_extension,
};
use ssmt4_backend::text::{chars_of, concat2, concat3, text_eq, text_of};

#[test]
fn normalize_strips_prefix_and_turns_slashes() {
    assert_eq!(normalize_path("\\\\?\\C:\\Games\\A\\Icon.png"), "C:/Games/A/Icon.png");
}

#[test]
fn normalize_strips_repeated_prefixes() {
    assert_eq!(normalize_path("\\\\?\\\\\\?\\C:\\x"), "C:/x");
}

#[test]
fn normalize_keeps_a_portable_path() {
    assert_eq!(normalize_path("/srv/Games/A/Icon.png"), "/srv/Games/A/Icon.png");
    assert_eq!(normalize_path(""), "");
}

#[test]
fn normalize_leaves_an_inner_prefix_as_slashes() {
    assert_eq!(normalize_path("a\\\\?\\b"), "a//?/b");
}

#[test]
fn join_inserts_one_separator() {
    assert_eq!(join_path("Games", "A"), "Games/A");
    assert_eq!(join_path("Games/", "A"), "Games/A");
}

#[test]
fn join_with_empty_base_or_rooted_leaf_gives_the_leaf() {
    assert_eq!(join_path("", "Games"), "Games");
    assert_eq!(join_path("Games", "/abs/x"), "/abs/x");
    assert_eq!(join_path("Games", ""), "Games/");
}

#[test]
fn parent_of_paths() {
    assert_eq!(parent_dir("/opt/app/launcher"), "/opt/app");
    assert_eq!(parent_dir("/launcher"), "/");
    assert_eq!(parent_dir("launcher"), "");
    assert_eq!(parent_dir("C:/x/app.exe"), "C:/x");
}

#[test]
fn extension_follows_the_last_dot_of_the_last_component() {
    assert_eq!(extension_of("/a/b/pic.PNG"), Some("PNG".to_string()));
    assert_eq!(extension_of("/a.d/b"), None);
    assert_eq!(extension_of("archive.tar.gz"), Some("gz".to_string()));
    assert_eq!(extension_of(".hidden"), None);
    assert_eq!(extension_of("name."), Some(String::new()));
    assert_eq!(extension_of(""), None);
}

#[test]
fn url_extension_ignores_query_fragment_and_host() {
    assert_eq!(
        url_extension("https://cdn.example.com/a/b/bg.webm?sig=a.b/c#frag.x"),
        Some("webm".to_string())
    );
    assert_eq!(url_extension("https://cdn.example.com"), None);
    assert_eq!(url_extension("https://cdn.example.com/media/12345"), None);
    assert_eq!(url_extension("https://cdn.example.com/x.jpg#top"), Some("jpg".to_string()));
    assert_eq!(url_extension("local/dir/file.mp4"), Some("mp4".to_string()));
}

#[test]
fn text_helpers() {
    assert!(text_eq("image", "image"));
    assert!(!text_eq("image", "imagE"));
    assert_eq!(chars_of("añb"), vec!['a', 'ñ', 'b']);
    assert_eq!(text_of(&vec!['a', 'b', 'c', 'd'], 1, 3), "bc");
    assert_eq!(concat2("ab", "cd"), "abcd");
    assert_eq!(concat3("a", "", "c"), "ac");
}
