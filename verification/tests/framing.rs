use deepseek_tui::client::framing::{LineSplitter, NdjsonDecoder, SseDecoder};

#[test]
fn lines_are_split_across_chunks_and_lose_their_cr() {
    let mut s = LineSplitter::new();
    assert!(s.push_chunk(b"hel").is_empty());
    assert_eq!(s.push_chunk(b"lo\r\nwor"), vec!["hello".to_string()]);
    assert_eq!(
        s.push_chunk(b"ld\n\nx"),
        vec!["world".to_string(), "".to_string()]
    );
    assert_eq!(s.push_chunk(b"\n"), vec!["x".to_string()]);
}

#[test]
fn invalid_utf8_is_replaced() {
    let mut s = LineSplitter::new();
    assert_eq!(s.push_chunk(b"a\xffb\n"), vec!["a\u{fffd}b".to_string()]);
}

#[test]
fn sse_events_end_at_blank_lines() {
    let mut d = SseDecoder::new();
    assert!(d
        .push_chunk(b"event: message_start\ndata: {\"type\":")
        .is_empty());
    let out = d.push_chunk(b"\"ping\"}\n\n\ndata: a\ndata: b\n\n");
    assert_eq!(out, vec!["{\"type\":\"ping\"}".to_string(), "ab".to_string()]);
    assert_eq!(d.push_line("data: tail"), None);
    assert_eq!(d.push_line(""), Some("tail".to_string()));
    assert_eq!(d.push_line(""), None);
}

#[test]
fn ndjson_records_skip_blank_lines() {
    let mut d = NdjsonDecoder::new();
    assert_eq!(
        d.push_chunk(b"{\"a\":1}\n\n{\"b\""),
        vec!["{\"a\":1}".to_string()]
    );
    assert_eq!(d.push_chunk(b":2}\r\n"), vec!["{\"b\":2}".to_string()]);
}
