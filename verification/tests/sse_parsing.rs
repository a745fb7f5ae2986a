use stratum::llm::LlmError;
use stratum::sse::{event_delimiter, parse_sse_event, stream_eof_error, SseEvent, SseParser};

#[test]
fn delimiters_are_blank_lines_in_either_line_ending() {
    assert_eq!(event_delimiter(b"data: a\n\nrest"), Some((7, 2)));
    assert_eq!(event_delimiter(b"data: a\r\n\r\nrest"), Some((7, 4)));
    assert_eq!(event_delimiter(b"data: a\n"), None);
}

#[test]
fn frames_decode_to_data_done_or_nothing() {
    assert_eq!(
        parse_sse_event(b"data: {\"a\":1}".to_vec()).unwrap(),
        Some(SseEvent::Data("{\"a\":1}".to_string()))
    );
    assert_eq!(parse_sse_event(b"data: [DONE]".to_vec()).unwrap(), Some(SseEvent::Done));
    assert_eq!(parse_sse_event(b": comment\nevent: ping".to_vec()).unwrap(), None);
    assert_eq!(
        parse_sse_event(b"data: one\ndata: two".to_vec()).unwrap(),
        Some(SseEvent::Data("one\ntwo".to_string()))
    );
    assert_eq!(
        parse_sse_event(b"data:x\r".to_vec()).unwrap(),
        Some(SseEvent::Data("x".to_string()))
    );
}

#[test]
fn invalid_utf8_frames_are_stream_errors() {
    let error = parse_sse_event(vec![b'd', b'a', b't', b'a', b':', 0xff]).unwrap_err();
    match error {
        LlmError::Stream { message } => assert!(message.contains("utf-8")),
        other => panic!("unexpected error {other:?}"),
    }
}

#[test]
fn the_parser_buffers_incomplete_frames_across_chunks() {
    let mut parser = SseParser::new();
    let first = parser.push(b"data: hel");
    assert!(first.is_empty());
    assert!(parser.has_pending());
    let second = parser.push(b"lo\n\ndata: [DONE]\n\n");
    assert_eq!(second.len(), 2);
    assert_eq!(second[0].as_ref().unwrap(), &SseEvent::Data("hello".to_string()));
    assert_eq!(second[1].as_ref().unwrap(), &SseEvent::Done);
    assert!(!parser.has_pending());
}

#[test]
fn eof_errors_carry_their_message() {
    match stream_eof_error("stream ended") {
        LlmError::Stream { message } => assert_eq!(message, "stream ended"),
        other => panic!("unexpected error {other:?}"),
    }
}

#[test]
fn a_final_line_keeps_all_but_one_carriage_return() {
    assert_eq!(
        parse_sse_event(b"data: x\r\r".to_vec()).unwrap(),
        Some(SseEvent::Data("x\r".to_string()))
    );
    assert_eq!(
        parse_sse_event(b"data: x\r\r\ndata: y".to_vec()).unwrap(),
        Some(SseEvent::Data("x\ny".to_string()))
    );
}

#[test]
fn reading_in_two_pushes_matches_one_push() {
    let stream: &[u8] = b"data: a\n\n: note\n\ndata: b\r\n\r\ndata: [DONE]\n\ndata: tail";
    let mut whole = SseParser::new();
    let all_at_once = whole.push(stream);
    for cut in 0..stream.len() {
        let mut split = SseParser::new();
        let mut events = split.push(&stream[..cut]);
        events.extend(split.push(&stream[cut..]));
        assert_eq!(events.len(), all_at_once.len());
        for (left, right) in events.iter().zip(all_at_once.iter()) {
            assert_eq!(left.as_ref().unwrap(), right.as_ref().unwrap());
        }
        assert_eq!(split.has_pending(), whole.has_pending());
    }
    assert_eq!(all_at_once.len(), 3);
}

#[test]
fn valid_streams_read_the_same_at_every_boundary() {
    let stream: &[u8] = b"data: x\r\n\r\ndata: y\n\n: ping\n\ndata: [DONE]\n\n";
    let mut whole = SseParser::new();
    let all: Vec<SseEvent> = whole.push(stream).into_iter().map(|e| e.unwrap()).collect();
    for cut in 0..=stream.len() {
        let mut split = SseParser::new();
        let mut events: Vec<SseEvent> = split.push(&stream[..cut]).into_iter().map(|e| e.unwrap()).collect();
        events.extend(split.push(&stream[cut..]).into_iter().map(|e| e.unwrap()));
        assert_eq!(events, all);
        assert_eq!(split.has_pending(), whole.has_pending());
    }
}
