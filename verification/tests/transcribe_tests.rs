use escucha::transcribe::normalize_whitespace;
use escucha::transcribe::{download_size_acceptable, model_path, model_url};

#[test]
fn test_normalize_whitespace_basic() {
    assert_eq!(normalize_whitespace("  hello   world  "), "hello world");
}

#[test]
fn test_normalize_whitespace_empty() {
    assert_eq!(normalize_whitespace(""), "");
}

#[test]
fn test_normalize_whitespace_single_word() {
    assert_eq!(normalize_whitespace("  hello  "), "hello");
}

#[test]
fn test_normalize_whitespace_tabs_newlines() {
    assert_eq!(
        normalize_whitespace("hello\t\n  world\n\nfoo"),
        "hello world foo"
    );
}

#[test]
fn test_normalize_whitespace_already_normal() {
    assert_eq!(normalize_whitespace("hello world"), "hello world");
}

#[test]
fn test_normalize_whitespace_idempotent_example() {
    let once = normalize_whitespace("  a   b\n c ");
    assert_eq!(once, "a b c");
    let twice = normalize_whitespace(&once);
    assert_eq!(twice, once);
}

#[test]
fn test_normalize_whitespace_unicode_spaces() {
    assert_eq!(normalize_whitespace("a\u{a0}\u{2003}b"), "a b");
}

#[test]
fn test_model_path() {
    let path = model_path("base.en");
    assert!(path.contains("ggml-base.en.bin"));
}

#[test]
fn test_model_url() {
    let url = model_url("base.en");
    assert!(url.contains("ggml-base.en.bin"));
    assert!(url.starts_with("https://huggingface.co/"));
}

#[test]
fn test_model_path_large() {
    let path = model_path("large");
    assert!(path.contains("ggml-large.bin"));
}

#[test]
fn test_model_url_exact() {
    assert_eq!(
        model_url("tiny"),
        "https://huggingface.co/ggerganov/whisper.cpp/resolve/main/ggml-tiny.bin"
    );
}

#[test]
fn test_download_size_rule() {
    assert!(!download_size_acceptable(0));
    assert!(!download_size_acceptable(999_999));
    assert!(download_size_acceptable(1_000_000));
    assert!(download_size_acceptable(147_951_465));
}
