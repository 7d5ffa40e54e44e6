use video_sort::fmt::{bold, code, faded, link};

#[test]
fn test_bold() {
    assert_eq!(bold("hello"), "\x1b[1m\x1b[36mhello\x1b[0m");
}

#[test]
fn test_code() {
    assert_eq!(code("hello"), "\x1b[33mhello\x1b[0m");
}

#[test]
fn test_faded() {
    assert_eq!(faded("hello"), "\x1b[2mhello\x1b[0m");
}

#[test]
fn test_link() {
    assert_eq!(link("hello"), "\x1b[34m\x1b[4mhello\x1b[0m");
}

#[test]
fn styles_keep_an_empty_text_between_the_codes() {
    assert_eq!(bold(""), "\x1b[1m\x1b[36m\x1b[0m");
    assert_eq!(faded(""), "\x1b[2m\x1b[0m");
}
