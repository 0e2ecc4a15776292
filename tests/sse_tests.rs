use composite_llm::sse::{parse_sse_events, SseAction, SseFramer};

const EVENT: &[u8] = b"data: {\"candidates\":[{\"content\":{\"role\":\"model\",\"parts\":[{\"text\":\"Hi\"}]},\"finishReason\":\"STOP\"}],\"usageMetadata\":{\"promptTokenCount\":1,\"candidatesTokenCount\":1,\"totalTokenCount\":2}}\n\n";

#[test]
fn test_parse_sse_events() {
    let (responses, remaining) = parse_sse_events(EVENT);
    assert_eq!(responses.len(), 1);
    assert!(remaining.is_empty());
    let v: serde_json::Value = serde_json::from_slice(&responses[0]).unwrap();
    assert_eq!(v["candidates"][0]["finishReason"], "STOP");
}

#[test]
fn no_boundary_keeps_whole_buffer() {
    let data = b"data: {\"a\":1}\ndata: {\"b\":2}";
    let (events, rest) = parse_sse_events(data);
    assert!(events.is_empty());
    assert_eq!(rest, data.to_vec());
    let (events, rest) = parse_sse_events(b"");
    assert!(events.is_empty());
    assert!(rest.is_empty());
}

#[test]
fn partial_event_is_carried_over() {
    let data = b"data: {\"a\":1}\n\ndata: {\"b\"";
    let (events, rest) = parse_sse_events(data);
    assert_eq!(events, vec![b"{\"a\":1}".to_vec()]);
    assert_eq!(rest, b"data: {\"b\"".to_vec());
}

#[test]
fn non_data_lines_are_ignored_and_lines_trimmed() {
    let data = b"event: x\r\n  data: {\"a\":1}  \r\n: comment\ndata:{\"no\":0}\n\n";
    let (events, rest) = parse_sse_events(data);
    assert_eq!(events, vec![b"{\"a\":1}".to_vec()]);
    assert!(rest.is_empty());
}

fn run(chunks: &[&[u8]]) -> Vec<Vec<u8>> {
    let mut f = SseFramer::new();
    let mut out = Vec::new();
    let mut i = 0;
    loop {
        match f.next_action() {
            SseAction::Emit(p) => out.push(p),
            SseAction::Fetch => {
                if i < chunks.len() {
                    f.on_bytes(chunks[i]);
                    i += 1;
                } else {
                    f.on_end();
                }
            }
            SseAction::End => break,
        }
    }
    out
}

#[test]
fn chunking_does_not_change_payloads() {
    let stream: &[u8] = b"data: {\"n\":1}\n\ndata: {\"n\":2}\n\n\ndata: {\"n\":3}\n\ndata: {\"tail\":4}\n";
    let whole = run(&[stream]);
    assert_eq!(whole, vec![b"{\"n\":1}".to_vec(), b"{\"n\":2}".to_vec(), b"{\"n\":3}".to_vec()]);
    for cut in 0..=stream.len() {
        assert_eq!(run(&[&stream[..cut], &stream[cut..]]), whole);
    }
    let bytes: Vec<&[u8]> = stream.chunks(1).collect();
    assert_eq!(run(&bytes), whole);
    let threes: Vec<&[u8]> = stream.chunks(3).collect();
    assert_eq!(run(&threes), whole);
}

#[test]
fn final_pass_at_end_of_stream() {
    let out = run(&[b"data: {\"x\":1}\n", b"\n"]);
    assert_eq!(out, vec![b"{\"x\":1}".to_vec()]);
    let out = run(&[b"data: {\"x\":1}"]);
    assert!(out.is_empty());
}

#[test]
fn failure_ends_the_stream() {
    let mut f = SseFramer::new();
    f.on_bytes(b"data: 1\n\ndata: 2");
    f.on_failure();
    assert!(f.is_done());
    assert!(matches!(f.next_action(), SseAction::Emit(ref p) if p == b"1"));
    assert!(matches!(f.next_action(), SseAction::End));
}
