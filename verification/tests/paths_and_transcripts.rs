use dyt::paths::{expand_with_home, shellexpand_path, tilde_rest};
use dyt::transcript::assemble_transcript;

#[test]
fn shellexpand_tilde() {
    let result = shellexpand_path("~/models/ggml.bin");
    assert!(
        !result.starts_with('~'),
        "expected tilde expansion, got: {result}"
    );
    assert!(
        result.ends_with("models/ggml.bin") || result.ends_with("models\\ggml.bin"),
        "expected suffix 'models/ggml.bin', got: {result}"
    );
    if let Some(home) = dirs::home_dir() {
        let home_str = home.to_string_lossy();
        assert!(
            result.starts_with(home_str.as_ref()),
            "expected result to start with home dir {home_str:?}, got: {result}"
        );
    }
}

#[test]
fn shellexpand_absolute_unchanged() {
    let path = "/abs/path/model.bin";
    let result = shellexpand_path(path);
    assert_eq!(result, path, "absolute path should pass through unchanged");
}

#[test]
fn only_a_leading_tilde_slash_is_expanded() {
    assert_eq!(tilde_rest("~/a/b"), Some("a/b"));
    assert_eq!(tilde_rest("~/"), Some(""));
    assert_eq!(tilde_rest("~user/a"), None);
    assert_eq!(tilde_rest("~"), None);
    assert_eq!(tilde_rest("a/~/b"), None);
    assert_eq!(shellexpand_path("~user/a"), "~user/a");
    assert_eq!(shellexpand_path("relative/model.bin"), "relative/model.bin");
}

#[test]
fn no_home_leaves_path_unchanged() {
    assert_eq!(expand_with_home("~/models/x.bin", None), "~/models/x.bin");
    assert_eq!(expand_with_home("/abs/x.bin", Some("/home/u".to_string())), "/abs/x.bin");
}

#[test]
fn home_is_joined_with_the_rest() {
    let home = std::path::PathBuf::from("/home/u");
    let expected = home.join("models/x.bin").to_string_lossy().to_string();
    assert_eq!(expand_with_home("~/models/x.bin", Some("/home/u".to_string())), expected);
    let joined = expand_with_home("~/models/x.bin", Some("/home/u/".to_string()));
    assert_eq!(joined, "/home/u/models/x.bin");
}

#[test]
fn expanding_twice_equals_expanding_once() {
    for path in ["~/models/ggml.bin", "/abs/path/model.bin", "relative.bin", "~/~/x"] {
        let once = shellexpand_path(path);
        assert_eq!(shellexpand_path(&once), once);
    }
}

#[test]
fn empty_home_gives_the_rest() {
    assert_eq!(expand_with_home("~/models/x.bin", Some(String::new())), "models/x.bin");
}

#[test]
fn segments_are_joined_and_trimmed() {
    let segments = vec![
        Some(" Hello".to_string()),
        None,
        Some(" world. ".to_string()),
    ];
    assert_eq!(assemble_transcript(&segments), "Hello world.");
}

#[test]
fn no_segments_give_empty_transcript() {
    assert_eq!(assemble_transcript(&vec![]), "");
    assert_eq!(assemble_transcript(&vec![None, Some("  \n".to_string())]), "");
}

#[test]
fn inner_whitespace_is_kept() {
    let segments = vec![Some("\ta  b".to_string()), Some("c\u{3000}".to_string())];
    assert_eq!(assemble_transcript(&segments), "a  bc");
}

#[test]
fn unicode_white_space_is_trimmed_but_not_zero_width_space() {
    let segments = vec![Some("\u{85}\u{2003}word\u{200B}\u{3000}".to_string())];
    assert_eq!(assemble_transcript(&segments), "word\u{200B}");
}

#[test]
fn rooted_rest_replaces_the_home() {
    let expected = std::path::Path::new("/home/u").join("/x").to_string_lossy().into_owned();
    assert_eq!(expand_with_home("~//x", Some("/home/u".to_string())), expected);
    let once = expand_with_home("~//x", Some("/home/u".to_string()));
    assert_eq!(expand_with_home(&once, Some("/home/u".to_string())), once);
}

#[test]
fn backslash_home_is_extended() {
    let expected = std::path::Path::new("\\\\server\\share\\me")
        .join("models/x.bin")
        .to_string_lossy()
        .into_owned();
    let joined = expand_with_home("~/models/x.bin", Some("\\\\server\\share\\me".to_string()));
    assert_eq!(joined, expected);
    assert!(joined.starts_with("\\\\server\\share\\me"));
    assert!(joined.ends_with("models/x.bin"));
}

#[test]
fn trim_matches_std() {
    for text in ["", "   ", " a ", "\u{85}b\u{2028}", "c\u{200B}", "\t\n x y \r\n", "\u{3000}"] {
        assert_eq!(dyt::transcript::trim_to_string(text), text.trim());
    }
}
