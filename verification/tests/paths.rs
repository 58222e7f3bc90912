use errutil::paths::join_parts;
use errutil::paths::split_slash;
use errutil::text::u32_dec;

#[test]
fn split_three_segments() {
    let parts = split_slash("a/b/c");
    assert_eq!(parts, vec!["a".to_string(), "b".to_string(), "c".to_string()]);
}

#[test]
fn split_single_segment() {
    let parts = split_slash("test");
    assert_eq!(parts, vec!["test".to_string()]);
}

#[test]
fn split_empty_input() {
    let parts = split_slash("");
    assert_eq!(parts, vec!["".to_string()]);
}

#[test]
fn split_keeps_empty_segments() {
    let parts = split_slash("a//b");
    assert_eq!(parts, vec!["a".to_string(), "".to_string(), "b".to_string()]);
    let parts = split_slash("a/");
    assert_eq!(parts, vec!["a".to_string(), "".to_string()]);
    let parts = split_slash("/a");
    assert_eq!(parts, vec!["".to_string(), "a".to_string()]);
}

#[test]
fn join_inverts_split() {
    let parts = split_slash("a/b/c");
    assert_eq!(join_parts(&parts), "a/b/c");
    let parts = split_slash("/weird//spec/");
    assert_eq!(join_parts(&parts), "/weird//spec/");
}

#[test]
fn join_of_explicit_segments() {
    let parts = vec!["base".to_string(), "a".to_string(), "b".to_string()];
    assert_eq!(join_parts(&parts), "base/a/b");
    let parts: Vec<String> = Vec::new();
    assert_eq!(join_parts(&parts), "");
}

#[test]
fn decimal_rendering() {
    assert_eq!(u32_dec(0), "0");
    assert_eq!(u32_dec(7), "7");
    assert_eq!(u32_dec(10), "10");
    assert_eq!(u32_dec(905), "905");
    assert_eq!(u32_dec(4294967295), "4294967295");
}
