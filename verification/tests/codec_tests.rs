use iiif_forager::iiif::BaseUrls;
use iiif_forager::source::ManifestSource;
use iiif_forager::text::{replace_str_all, usize_to_string};

fn source() -> ManifestSource {
    ManifestSource::new(
        "/data".to_string(),
        BaseUrls::new(
            "http://pres.example".to_string(),
            "http://img.example".to_string(),
        ),
        "-".to_string(),
    )
}

#[test]
fn replace_single_separator() {
    assert_eq!(replace_str_all("books-section1", "-", "/"), "books/section1");
}

#[test]
fn replace_every_occurrence() {
    assert_eq!(replace_str_all("a-b-c-d", "-", "/"), "a/b/c/d");
}

#[test]
fn replace_multichar_separator() {
    assert_eq!(replace_str_all("a--b--c", "--", "/"), "a/b/c");
}

#[test]
fn replace_without_occurrence_is_identity() {
    assert_eq!(replace_str_all("plain", "-", "/"), "plain");
}

#[test]
fn replace_empty_input() {
    assert_eq!(replace_str_all("", "-", "/"), "");
}

#[test]
fn replace_scans_left_to_right_without_overlap() {
    assert_eq!(replace_str_all("aaa", "aa", "x"), "xa");
}

#[test]
fn path_for_id_joins_base_and_decoded_segments() {
    let src = source();
    assert_eq!(src.path_for_id("books-section1"), "/data/books/section1");
    assert_eq!(src.path_for_id("books"), "/data/books");
}

#[test]
fn encode_id_concatenates_verbatim() {
    let src = source();
    assert_eq!(
        src.encode_id("books-section1", "page1.jpg"),
        "books-section1-page1.jpg"
    );
}

#[test]
fn decode_then_encode_round_trips() {
    let decoded = replace_str_all("books-section1", "-", "/");
    assert_eq!(replace_str_all(&decoded, "/", "-"), "books-section1");

    let decoded = replace_str_all("a__b__c", "__", "/");
    assert_eq!(replace_str_all(&decoded, "/", "__"), "a__b__c");
}

#[test]
fn round_trip_holds_for_separator_containing_slash() {
    let decoded = replace_str_all("xa/y", "a/", "/");
    assert_eq!(decoded, "x/y");
    assert_eq!(replace_str_all(&decoded, "/", "a/"), "xa/y");
}

#[test]
fn usize_to_string_renders_decimal() {
    assert_eq!(usize_to_string(0), "0");
    assert_eq!(usize_to_string(7), "7");
    assert_eq!(usize_to_string(10), "10");
    assert_eq!(usize_to_string(100), "100");
    assert_eq!(usize_to_string(12345), "12345");
}
