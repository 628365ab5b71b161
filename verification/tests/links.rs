use std::ops::Range;

use app_iced::bridge::CodeSpan;
use app_iced::links::{
    body_parts, body_segments, carve_segments, find_url, lang_of, line_segments, linkify,
    local_code, LinkSpan,
};

fn texts(spans: &[LinkSpan]) -> Vec<&str> {
    spans.iter().map(|s| s.text.as_str()).collect()
}

#[test]
fn linkify_returns_none_without_url() {
    assert!(linkify("salut, ça va ? rien à voir").is_none());
    assert!(linkify("").is_none());
    // Bare "www." with nothing behind it is not a link.
    assert!(linkify("regarde www. et dis-moi").is_none());
}

#[test]
fn linkify_extracts_https_url_with_context() {
    let spans = linkify("voici https://example.com/a?b=1 le lien").unwrap();
    assert_eq!(texts(&spans), ["voici ", "https://example.com/a?b=1", " le lien"]);
    assert_eq!(spans[1].link.as_deref(), Some("https://example.com/a?b=1"));
    assert_eq!(spans[0].link, None);
}

#[test]
fn linkify_handles_www_and_strips_trailing_punctuation() {
    let spans = linkify("va sur www.rust-lang.org, c'est top.").unwrap();
    assert_eq!(texts(&spans), ["va sur ", "www.rust-lang.org", ", c'est top."]);
    assert_eq!(spans[1].link.as_deref(), Some("www.rust-lang.org"));
}

#[test]
fn linkify_finds_multiple_urls() {
    let spans = linkify("http://a.io et www.b.io").unwrap();
    let links: Vec<&str> = spans.iter().filter_map(|s| s.link.as_deref()).collect();
    assert_eq!(links, ["http://a.io", "www.b.io"]);
}

#[test]
fn linkify_keeps_bare_www_as_text_before_a_link() {
    let spans = linkify("www. puis https://x.fr!").unwrap();
    assert_eq!(texts(&spans), ["www.", " puis ", "https://x.fr", "!"]);
}

#[test]
fn find_url_gives_the_byte_offset() {
    assert_eq!(find_url("é https://a.b"), Some(3));
    assert_eq!(find_url("see www.x.y and http://z"), Some(4));
    assert_eq!(find_url("nothing"), None);
}

#[test]
fn carving_splits_and_restyles() {
    let mut segs = vec![(0usize, 10usize, 0u8)];
    carve_segments(&mut segs, 2, 5, 1);
    assert_eq!(segs, vec![(0, 2, 0), (2, 5, 1), (5, 10, 0)]);
    // A non-default style wins over a later carve.
    carve_segments(&mut segs, 4, 7, 2);
    assert_eq!(segs, vec![(0, 2, 0), (2, 4, 1), (4, 5, 1), (5, 7, 2), (7, 10, 0)]);
    // An empty range changes nothing.
    let before = segs.clone();
    carve_segments(&mut segs, 6, 6, 1);
    assert_eq!(segs, before);
}

fn inline(start: usize, end: usize) -> CodeSpan {
    CodeSpan { start, end, block: None }
}

fn block(start: usize, end: usize, lang: &str) -> CodeSpan {
    CodeSpan { start, end, block: Some(lang.to_string()) }
}

#[test]
fn local_code_is_relative_to_the_part() {
    let code = vec![inline(2, 6), block(0, 3, "rs"), inline(8, 20), inline(30, 31)];
    assert_eq!(local_code(&code, &(4..12)), vec![(0, 2), (4, 8)]);
    assert!(local_code(&code, &(6..8)).is_empty());
}

#[test]
fn lang_of_finds_the_starting_block() {
    let code = vec![inline(0, 4), block(5, 9, "rust"), block(10, 12, "")];
    assert_eq!(lang_of(&code, &(5..9)), Some("rust".to_string()));
    assert_eq!(lang_of(&code, &(10..12)), None);
    assert_eq!(lang_of(&code, &(0..4)), None);
}

#[test]
fn body_parts_alternate_text_and_blocks() {
    let t = "abc let x = 1; def";
    let code = vec![block(4, 14, "rs"), inline(15, 18)];
    let parts = body_parts(t, &code);
    assert_eq!(parts, vec![(0..4, false), (4..14, true), (14..18, false)]);
    assert_eq!(body_parts("", &Vec::new()), Vec::<(Range<usize>, bool)>::new());
    // A block running past the text is ignored.
    assert_eq!(body_parts("ab", &vec![block(0, 5, "")]), vec![(0..2, false)]);
}

#[test]
fn line_segments_mark_emoji_runs() {
    assert_eq!(line_segments("plain"), None);
    let parts = line_segments("hi 😀!").unwrap();
    assert_eq!(parts, vec![(0..3, false), (3..7, true), (7..8, false)]);
}

#[test]
fn body_segments_style_code_and_emoji() {
    assert_eq!(body_segments("plain https://a.b", &Vec::new()), None);
    let segs = body_segments("ab 😀 cd", &vec![(8, 20)]).unwrap();
    assert_eq!(segs, vec![(0, 3, 0), (3, 7, 2), (7, 8, 0), (8, 10, 1)]);
}
