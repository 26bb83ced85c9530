use bzn::lines::split_lines;

#[test]
fn lines_split_at_line_feeds() {
    assert_eq!(split_lines("1,2,3\n4,5,6"), vec!["1,2,3", "4,5,6"]);
}

#[test]
fn final_line_ending_is_optional() {
    assert_eq!(split_lines("a\nb\n"), vec!["a", "b"]);
    assert_eq!(split_lines("a\nb"), vec!["a", "b"]);
}

#[test]
fn carriage_return_belongs_to_the_line_ending() {
    assert_eq!(split_lines("a\r\nb\r\n"), vec!["a", "b"]);
    assert_eq!(split_lines("a\rb\n"), vec!["a\rb"]);
    assert_eq!(split_lines("tail\r"), vec!["tail\r"]);
}

#[test]
fn empty_text_has_no_lines() {
    assert_eq!(split_lines(""), Vec::<String>::new());
}

#[test]
fn blank_lines_are_kept() {
    assert_eq!(split_lines("\n\nx\n"), vec!["", "", "x"]);
}
