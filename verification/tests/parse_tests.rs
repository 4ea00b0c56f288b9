use image_retriever::parse::parse_requests;

fn parsed(input: &str) -> Vec<String> {
    parse_requests(String::from(input))
}

#[test]
fn segments_between_line_endings_in_order() {
    assert_eq!(parsed("a\r\nb\n\nc"), vec!["a", "b", "c"]);
}

#[test]
fn single_url_without_newline_is_one_element() {
    assert_eq!(parsed("http://x.com/a.png"), vec!["http://x.com/a.png"]);
}

#[test]
fn carriage_return_run_belongs_to_line_ending() {
    assert_eq!(parsed("a\r\r\nb"), vec!["a", "b"]);
}

#[test]
fn trailing_newline_leaves_no_empty_segment() {
    assert_eq!(parsed("a\n"), vec!["a"]);
}

#[test]
fn only_line_endings_yield_no_requests() {
    assert_eq!(parsed("\n\r\n"), Vec::<String>::new());
}

#[test]
fn carriage_return_without_newline_is_kept() {
    assert_eq!(parsed("a\r"), vec!["a\r"]);
}

#[test]
fn final_segment_keeps_its_carriage_returns() {
    assert_eq!(parsed("a\nb\r"), vec!["a", "b\r"]);
}

#[test]
fn empty_segments_in_the_middle_are_dropped() {
    assert_eq!(parsed("one\n\n\ntwo"), vec!["one", "two"]);
}
