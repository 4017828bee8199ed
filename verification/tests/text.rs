use gitlab_xsearch::text::chars_of;
use gitlab_xsearch::text::ends_with;
use gitlab_xsearch::text::leading_segment;

#[test]
fn the_characters_of_a_text_come_in_order() {
    assert_eq!(chars_of(""), Vec::<char>::new());
    assert_eq!(chars_of("a/b"), vec!['a', '/', 'b']);
    assert_eq!(chars_of("é√"), vec!['é', '√']);
}

#[test]
fn the_leading_segment_ends_at_the_first_slash() {
    assert_eq!(leading_segment("my-group/subgroup/test-project"), "my-group");
    assert_eq!(leading_segment("my-group/"), "my-group");
    assert_eq!(leading_segment("my-group"), "my-group");
    assert_eq!(leading_segment("/"), "");
    assert_eq!(leading_segment("//a"), "");
    assert_eq!(leading_segment(""), "");
    assert_eq!(leading_segment("größe/b"), "größe");
}

#[test]
fn the_leading_segment_is_what_split_gives_first() {
    for path in ["", "/", "a", "a/", "/a", "a/b/c", "a//b", "ä/ö"] {
        assert_eq!(leading_segment(path), path.split('/').next().unwrap_or(""));
    }
}

#[test]
fn a_text_ends_with_its_endings_only() {
    let text = chars_of("https://gitlab.com/api/v4");
    assert!(ends_with(&text, &chars_of("/api/v4")));
    assert!(ends_with(&text, &chars_of("")));
    assert!(ends_with(&text, &text));
    assert!(!ends_with(&text, &chars_of("/api/v3")));
    assert!(!ends_with(&text, &chars_of("/api/v4/")));
    assert!(!ends_with(&chars_of("v4"), &chars_of("/api/v4")));
    assert!(!ends_with(&chars_of(""), &chars_of("/")));
}
