use rusty_gemini::error::GeminiErrorKind;
use rusty_gemini::stream::StreamDecoder;

#[test]
fn framed_array_yields_two_items_then_terminates() {
    let mut decoder = StreamDecoder::new();
    assert!(!decoder.is_finished());
    assert_eq!(decoder.accept(b"[{\"a\":1}"), Some(Ok("{\"a\":1}".to_string())));
    assert!(!decoder.is_finished());
    assert_eq!(decoder.accept(b",{\"a\":2}"), Some(Ok("{\"a\":2}".to_string())));
    assert!(!decoder.is_finished());
    assert_eq!(decoder.accept(b"]"), None);
    assert!(decoder.is_finished());
}

#[test]
fn nothing_is_emitted_after_the_end() {
    let mut decoder = StreamDecoder::new();
    assert_eq!(decoder.accept(b"]"), None);
    assert!(decoder.is_finished());
    assert_eq!(decoder.accept(b",{\"a\":3}"), None);
    assert_eq!(decoder.accept(&[0xff, 0xfe]), None);
    assert_eq!(decoder.read_failure("reset"), None);
    assert!(decoder.is_finished());
}

#[test]
fn bare_opening_bracket_ends_the_sequence() {
    let mut decoder = StreamDecoder::new();
    assert_eq!(decoder.accept(b"["), None);
    assert!(decoder.is_finished());
    assert_eq!(decoder.accept(b"{\"a\":1}"), None);
}

#[test]
fn exactly_one_character_is_dropped() {
    let mut decoder = StreamDecoder::new();
    assert_eq!(decoder.accept(b"{\"a\":1}"), Some(Ok("\"a\":1}".to_string())));
    assert_eq!(decoder.accept(b",,x"), Some(Ok(",x".to_string())));
    assert_eq!(decoder.accept("\u{e9}{}".as_bytes()), Some(Ok("{}".to_string())));
    assert_eq!(decoder.accept(", \u{4e16}\u{754c}".as_bytes()), Some(Ok(" \u{4e16}\u{754c}".to_string())));
    assert!(!decoder.is_finished());
}

#[test]
fn chunk_that_is_not_text_is_a_failure_and_does_not_end_the_sequence() {
    let mut decoder = StreamDecoder::new();
    let item = decoder.accept(&[b',', 0xff, 0xfe]).unwrap().unwrap_err();
    assert_eq!(item.kind, GeminiErrorKind::Other);
    assert_eq!(item.message, "stream chunk is not valid UTF-8");
    assert!(!decoder.is_finished());
    assert_eq!(decoder.accept(b",{}"), Some(Ok("{}".to_string())));
}

#[test]
fn empty_chunk_is_a_failure_and_does_not_end_the_sequence() {
    let mut decoder = StreamDecoder::new();
    let item = decoder.accept(b"").unwrap().unwrap_err();
    assert_eq!(item.kind, GeminiErrorKind::Other);
    assert_eq!(item.message, "stream chunk is empty");
    assert!(!decoder.is_finished());
}

#[test]
fn read_failure_is_a_single_failure_with_its_message() {
    let decoder = StreamDecoder::new();
    let item = decoder.read_failure("connection reset").unwrap();
    assert_eq!(item.kind, GeminiErrorKind::Other);
    assert_eq!(item.message, "connection reset");
    assert!(!decoder.is_finished());
}
