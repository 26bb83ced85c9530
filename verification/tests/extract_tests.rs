use bzn::extract::extract_fragment;

#[test]
fn fragment_is_the_first_tag_pair() {
    let body = "<html><main>one</main><main>two</main></html>";
    assert_eq!(extract_fragment(body), Some("<main>one</main>"));
}

#[test]
fn fragment_may_span_lines() {
    let body = "<html>\n<main>line one\nline two</main>\n</html>";
    assert_eq!(extract_fragment(body), Some("<main>line one\nline two</main>"));
}

#[test]
fn no_opening_tag_means_no_fragment() {
    assert_eq!(extract_fragment("<html></main></html>"), None);
}

#[test]
fn no_closing_tag_means_no_fragment() {
    assert_eq!(extract_fragment("<html><main>unfinished</html>"), None);
}

#[test]
fn closing_tag_before_opening_tag_does_not_count() {
    assert_eq!(extract_fragment("</main><main>late"), None);
}

#[test]
fn empty_fragment_is_still_a_fragment() {
    assert_eq!(extract_fragment("<main></main>"), Some("<main></main>"));
}

#[test]
fn fragment_with_non_ascii_content() {
    let body = "préambule<main>réponse: étoile</main>fin";
    assert_eq!(extract_fragment(body), Some("<main>réponse: étoile</main>"));
}

#[test]
fn empty_body_has_no_fragment() {
    assert_eq!(extract_fragment(""), None);
}
