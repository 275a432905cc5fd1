use shortlink::path::last_segment_of;

#[test]
fn last_segment_follows_the_last_slash() {
    assert_eq!(last_segment_of("/abc"), "abc");
    assert_eq!(last_segment_of("/a/b"), "b");
    assert_eq!(last_segment_of("//AbC1234"), "AbC1234");
    assert_eq!(last_segment_of("https://short.test//AbC1234"), "AbC1234");
}

#[test]
fn last_segment_of_a_path_without_slash_is_the_path() {
    assert_eq!(last_segment_of("abc"), "abc");
    assert_eq!(last_segment_of("doesnotexist"), "doesnotexist");
}

#[test]
fn last_segment_is_empty_behind_a_trailing_slash() {
    assert_eq!(last_segment_of("/"), "");
    assert_eq!(last_segment_of("/abc/"), "");
    assert_eq!(last_segment_of(""), "");
}

#[test]
fn last_segment_counts_characters_not_bytes() {
    assert_eq!(last_segment_of("/\u{e9}t\u{e9}/\u{fc}ber"), "\u{fc}ber");
    assert_eq!(last_segment_of("\u{1f600}/\u{1f600}"), "\u{1f600}");
}
