use grok_search::sse::{data_field_of, read_line, take_lines, LineEvent, StreamAccumulator, MAX_CONTENT_BYTES};

fn run(chunks: &[&[u8]]) -> (Vec<u8>, bool, bool) {
    let mut acc = StreamAccumulator::new();
    for c in chunks {
        if acc.feed(c) {
            break;
        }
    }
    let done = acc.done;
    let truncated = acc.truncated;
    (acc.into_text(), done, truncated)
}

#[test]
fn single_delta_then_done() {
    let (text, done, truncated) = run(&[
        b"data: {\"choices\":[{\"delta\":{\"content\":\"ab\"}}]}\n",
        b"data: [DONE]\n",
    ]);
    assert_eq!(text, b"ab");
    assert!(done);
    assert!(!truncated);
}

#[test]
fn split_line_matches_unsplit() {
    let whole: &[u8] = b"data: {\"choices\":[{\"delta\":{\"content\":\"hello\"}}]}\ndata: [DONE]\n";
    let a = run(&[whole]);
    let b = run(&[b"data: {\"cho", b"ices\":[{\"delta\":{\"content\":\"hello\"}}]}\n", b"data: [DONE]\n"]);
    let bytes: Vec<&[u8]> = whole.chunks(1).collect();
    let c = run(&bytes);
    assert_eq!(a, b);
    assert_eq!(a, c);
    assert_eq!(a.0, b"hello");
}

#[test]
fn several_choices_and_lines_are_concatenated() {
    let (text, done, _) = run(&[
        b"data: {\"choices\":[{\"delta\":{\"content\":\"a\"}},{\"delta\":{}},{\"delta\":{\"content\":\"b\"}}]}\n",
        b": keep-alive\n\n",
        b"event: ping\n",
        b"data: {\"choices\":[{\"delta\":{\"content\":\"\xc3\xa9\"}}]}\r\n",
        b"data: [DONE]\n",
        b"data: {\"choices\":[{\"delta\":{\"content\":\"ignored\"}}]}\n",
    ]);
    assert_eq!(text, "abé".as_bytes());
    assert!(done);
}

#[test]
fn malformed_json_is_skipped() {
    let (text, done, _) = run(&[
        b"data: {not json\n",
        b"data:\n",
        b"data: {\"choices\":[{\"delta\":{\"content\":\"ok\"}}]}\n",
    ]);
    assert_eq!(text, b"ok");
    assert!(!done);
}

#[test]
fn stream_without_done_returns_text_and_drops_partial_line() {
    let (text, done, truncated) = run(&[
        b"data: {\"choices\":[{\"delta\":{\"content\":\"x\"}}]}\n",
        b"data: {\"choices\":[{\"delta\":{\"content\":\"y\"}}]}",
    ]);
    assert_eq!(text, b"x");
    assert!(!done);
    assert!(!truncated);
}

#[test]
fn done_stops_in_the_middle_of_a_chunk() {
    let mut acc = StreamAccumulator::new();
    let finished = acc.feed(b"data: [DONE]\ndata: {\"choices\":[{\"delta\":{\"content\":\"z\"}}]}\n");
    assert!(finished);
    assert!(acc.done);
    assert!(acc.into_text().is_empty());
}

#[test]
fn oversized_text_is_truncated_to_the_cap() {
    let big = "a".repeat(MAX_CONTENT_BYTES + 10);
    let line = format!("data: {{\"choices\":[{{\"delta\":{{\"content\":\"{}\"}}}}]}}\n", big);
    let mut acc = StreamAccumulator::new();
    let mut chunk = line.into_bytes();
    chunk.extend_from_slice(b"data: {\"choices\":[{\"delta\":{\"content\":\"more\"}}]}\n");
    let finished = acc.feed(&chunk);
    assert!(finished);
    assert!(acc.truncated);
    assert!(!acc.done);
    let text = acc.into_text();
    assert_eq!(text.len(), MAX_CONTENT_BYTES);
    assert_eq!(MAX_CONTENT_BYTES, 10 * 1024 * 1024);
    assert!(text.iter().all(|&b| b == b'a'));
}

#[test]
fn text_at_the_cap_is_kept_whole() {
    let big = "b".repeat(MAX_CONTENT_BYTES);
    let line = format!("data: {{\"choices\":[{{\"delta\":{{\"content\":\"{}\"}}}}]}}\n", big);
    let mut acc = StreamAccumulator::new();
    assert!(!acc.feed(line.as_bytes()));
    assert!(!acc.truncated);
    assert_eq!(acc.into_text().len(), MAX_CONTENT_BYTES);
}

#[test]
fn take_lines_splits_and_keeps_the_rest() {
    let mut buffer = b"da".to_vec();
    let lines = take_lines(&mut buffer, b"ta: 1\n\nda");
    assert_eq!(lines, vec![b"data: 1\n".to_vec(), b"\n".to_vec()]);
    assert_eq!(buffer, b"da");
    let lines = take_lines(&mut buffer, b"ta: 2\n");
    assert_eq!(lines, vec![b"data: 2\n".to_vec()]);
    assert!(buffer.is_empty());
}

#[test]
fn data_field_extraction() {
    assert_eq!(data_field_of(b"  data:   x y  \n"), Some("x y".to_string()));
    assert_eq!(data_field_of(b"data:\n"), Some(String::new()));
    assert_eq!(data_field_of(b": comment\n"), None);
    assert_eq!(data_field_of(b"event: x\n"), None);
    assert_eq!(data_field_of(b"   \n"), None);
    assert_eq!(data_field_of(b"data: a\xffb\n"), Some("a\u{fffd}b".to_string()));
}

#[test]
fn read_line_kinds() {
    assert!(matches!(read_line(b"data: [DONE]\n"), LineEvent::Done));
    assert!(matches!(read_line(b"data: [DONE]x\n"), LineEvent::Skip));
    assert!(matches!(read_line(b"data: {\"a\":1}\n"), LineEvent::Event(_)));
    assert!(matches!(read_line(b"data: {\"a\":\n"), LineEvent::Skip));
}
