use image_retriever::ImageType;
use image_retriever::classify;
use image_retriever::names::base_name;
use image_retriever::names::clean_name;
use image_retriever::names::determine_file_name;
use image_retriever::names::resolve_name;

fn resolved(url: &str, kind: ImageType) -> String {
    resolve_name(&String::from(url), kind)
}

#[test]
fn classify_matches_the_fixed_table() {
    assert_eq!(classify("image/jpeg"), ImageType::Jpeg);
    assert_eq!(classify("image/png"), ImageType::Png);
    assert_eq!(classify("image/tiff"), ImageType::Tiff);
    assert_eq!(classify("text/html"), ImageType::Other);
}

#[test]
fn classify_is_case_sensitive() {
    assert_eq!(classify("image/PNG"), ImageType::Other);
    assert_eq!(classify("Image/jpeg"), ImageType::Other);
    assert_eq!(classify(""), ImageType::Other);
}

#[test]
fn query_strings_are_stripped() {
    assert_eq!(resolved("http://x.com/a.png?w=100", ImageType::Png), "a.png");
}

#[test]
fn jpeg_uppercase_suffix_is_normalized() {
    assert_eq!(resolved("http://x.com/a.JPG", ImageType::Jpeg), "a.jpg");
}

#[test]
fn jpeg_long_spelling_is_normalized() {
    assert_eq!(resolved("http://x.com/a.jpeg", ImageType::Jpeg), "a.jpg");
}

#[test]
fn correctly_suffixed_name_is_a_fixed_point() {
    assert_eq!(resolved("photo.png", ImageType::Png), "photo.png");
    let once = resolved("photo.png", ImageType::Png);
    assert_eq!(resolved(&once, ImageType::Png), once);
}

#[test]
fn missing_suffix_is_appended() {
    assert_eq!(resolved("http://x.com/file", ImageType::Tiff), "file.tiff");
    assert_eq!(resolved("http://x.com/file", ImageType::Png), "file.png");
    assert_eq!(resolved("http://x.com/file", ImageType::Jpeg), "file.jpg");
}

#[test]
fn uppercase_suffix_is_replaced_in_the_base_name() {
    assert_eq!(resolved("http://x.com/A.JPG/b.JPG", ImageType::Jpeg), "b.jpg");
}

#[test]
fn suffix_in_an_earlier_segment_does_not_count() {
    // Only the base name is inspected: `.JPG` in a directory segment
    // neither triggers replacement nor suppresses appending.
    assert_eq!(resolved("http://x.com/A.JPG/b", ImageType::Jpeg), "b.jpg");
}

#[test]
fn suffix_hidden_in_query_does_not_count() {
    // The containment check runs on the cleaned base name, so a suffix
    // sitting only in the query string does not suppress appending.
    assert_eq!(resolved("http://x.com/a?name=.png", ImageType::Png), "a.png");
    assert_eq!(
        determine_file_name(&String::from("http://x.com/a?name=.png"), ".png"),
        "a.png"
    );
}

#[test]
fn determine_file_name_takes_the_last_segment() {
    assert_eq!(
        determine_file_name(&String::from("http://x.com/a/pic.png"), ".png"),
        "pic.png"
    );
    assert_eq!(
        determine_file_name(&String::from("http://x.com/a/pic"), ".png"),
        "pic.png"
    );
}

#[test]
fn clean_name_cuts_at_the_first_question_mark() {
    assert_eq!(clean_name("a.png?w=1&h=2"), "a.png");
    assert_eq!(clean_name("a.png"), "a.png");
    assert_eq!(clean_name("?everything"), "");
}

#[test]
fn base_name_is_the_substring_after_the_final_slash() {
    assert_eq!(base_name("http://x.com/a/b.png"), "b.png");
    assert_eq!(base_name("plain"), "plain");
    assert_eq!(base_name("dir/"), "");
}
