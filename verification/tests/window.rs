use gloof::window::tagged_title;

#[test]
fn the_tag_follows_the_name() {
    assert_eq!(tagged_title("xterm"), "xterm [glOOF]");
}

#[test]
fn an_empty_name_gets_the_tag_alone() {
    assert_eq!(tagged_title(""), " [glOOF]");
}

#[test]
fn a_tagged_name_is_tagged_again() {
    assert_eq!(tagged_title("demo [glOOF]"), "demo [glOOF] [glOOF]");
}
