use talan::display_title;

#[test]
fn title_path_prefix_is_stripped() {
    let r = display_title(&b"/path/to/App"[..]);
    assert_eq!(r, b"App".to_vec());
}

#[test]
fn title_without_slash_is_verbatim() {
    let r = display_title(&b"App"[..]);
    assert_eq!(r, b"App".to_vec());
}

#[test]
fn title_trailing_slash_leaves_nothing() {
    let r = display_title(&b"dir/"[..]);
    assert_eq!(r, Vec::<u8>::new());
}

#[test]
fn title_empty_stays_empty() {
    let r = display_title(&b""[..]);
    assert_eq!(r, Vec::<u8>::new());
}

#[test]
fn title_keeps_only_last_component() {
    let r = display_title(&b"a/b/c"[..]);
    assert_eq!(r, b"c".to_vec());
}
