use live_docs::text::split_once_last;

#[test]
fn splits_at_the_last_separator() {
    assert_eq!(split_once_last("a/b/c", '/'), Some(("a/b", "c")));
}

#[test]
fn splits_a_manifest_path() {
    assert_eq!(
        split_once_last("/home/me/project/Cargo.toml", '/'),
        Some(("/home/me/project", "Cargo.toml"))
    );
}

#[test]
fn no_separator_gives_none() {
    assert_eq!(split_once_last("Cargo.toml", '/'), None);
}

#[test]
fn empty_text_gives_none() {
    assert_eq!(split_once_last("", '/'), None);
}

#[test]
fn separator_at_the_end_leaves_an_empty_right_half() {
    assert_eq!(split_once_last("abc/", '/'), Some(("abc", "")));
}

#[test]
fn separator_at_the_start_leaves_an_empty_left_half() {
    assert_eq!(split_once_last("/abc", '/'), Some(("", "abc")));
}

#[test]
fn lone_separator_gives_two_empty_halves() {
    assert_eq!(split_once_last("/", '/'), Some(("", "")));
}

#[test]
fn splits_around_a_wide_separator() {
    assert_eq!(split_once_last("grüße→welt→ende", '→'), Some(("grüße→welt", "ende")));
}

#[test]
fn wide_characters_before_the_separator_are_kept_whole() {
    assert_eq!(split_once_last("日本語/ドキュメント", '/'), Some(("日本語", "ドキュメント")));
}

#[test]
fn halves_joined_by_the_separator_give_the_text_back() {
    let text = "one.two.three.four";
    let (left, right) = split_once_last(text, '.').unwrap();
    assert_eq!(format!("{left}.{right}"), text);
    assert!(!right.contains('.'));
}
