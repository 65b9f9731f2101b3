use venkyai::ai::streaming::{read_line, read_payload, read_stream, StreamConsumer, StreamEvent, StreamOutcome, STREAM_START};
use venkyai::json::JsonValue;

fn token(text: &str) -> StreamEvent {
    StreamEvent::Token(text.to_string())
}

fn end(text: &str) -> StreamEvent {
    StreamEvent::End(text.to_string())
}

#[test]
fn token_split_across_two_reads_is_emitted_once() {
    let mut consumer = StreamConsumer::new();
    let first = consumer.feed(b"data: {\"token\":\"he");
    assert_eq!(first, Vec::<StreamEvent>::new());
    assert!(!consumer.is_finished());
    let second = consumer.feed(b"llo\"}\n\ndata: [DONE]\n");
    assert_eq!(second, vec![token("hello"), end("hello")]);
    assert!(consumer.is_finished());
    assert_eq!(consumer.aggregate(), "hello");
}

#[test]
fn every_split_point_gives_the_same_events() {
    let whole: &[u8] = b"data: {\"token\":\"hello\"}\n\ndata: [DONE]\n";
    let mut reference = StreamConsumer::new();
    let expected = reference.feed(whole);
    assert_eq!(expected, vec![token("hello"), end("hello")]);
    for cut in 0..=whole.len() {
        let mut consumer = StreamConsumer::new();
        let mut events = consumer.feed(&whole[..cut]);
        events.extend(consumer.feed(&whole[cut..]));
        assert_eq!(events, expected, "cut at {}", cut);
        assert_eq!(consumer.aggregate(), "hello");
        assert!(consumer.is_finished());
    }
}

#[test]
fn split_inside_a_multibyte_character_loses_nothing() {
    let whole = "data: {\"token\":\"caf\u{e9} \u{1f600}\"}\n".as_bytes();
    for cut in 0..=whole.len() {
        let mut consumer = StreamConsumer::new();
        let mut events = consumer.feed(&whole[..cut]);
        events.extend(consumer.feed(&whole[cut..]));
        assert_eq!(events, vec![token("caf\u{e9} \u{1f600}")], "cut at {}", cut);
    }
}

#[test]
fn chat_completion_chunks_yield_their_contents_in_order() {
    let mut consumer = StreamConsumer::new();
    let events = consumer.feed(
        b"data: {\"choices\":[{\"delta\":{\"content\":\"Hel\"},\"finish_reason\":null}]}\n\
          data: {\"choices\":[{\"delta\":{\"content\":\"lo\"},\"finish_reason\":null}]}\n",
    );
    assert_eq!(events, vec![token("Hel"), token("lo")]);
    assert!(!consumer.is_finished());
    let events = consumer.feed(b"data: {\"choices\":[{\"delta\":{},\"finish_reason\":\"stop\"}]}\n");
    assert_eq!(events, vec![end("Hello")]);
    assert!(consumer.is_finished());
}

#[test]
fn completion_marker_ends_the_stream_and_later_lines_are_ignored() {
    let mut consumer = StreamConsumer::new();
    let events = consumer.feed(
        b"data: {\"token\":\"a\"}\ndata: {\"token\":\"b\",\"done\":true}\ndata: {\"token\":\"c\"}\n",
    );
    assert_eq!(events, vec![token("a"), token("b"), end("ab")]);
    assert_eq!(consumer.feed(b"data: {\"token\":\"d\"}\n"), Vec::<StreamEvent>::new());
    assert_eq!(consumer.aggregate(), "ab");
    assert_eq!(consumer.close(), None);
}

#[test]
fn a_choice_that_finishes_hides_the_choices_after_it() {
    let payload = JsonValue::parse(
        "{\"choices\":[{\"delta\":{\"content\":\"x\"},\"finish_reason\":\"stop\"},{\"delta\":{\"content\":\"y\"}}]}",
    )
    .unwrap();
    assert_eq!(read_payload(&payload), (vec!["x".to_string()], true));
}

#[test]
fn blank_untagged_and_malformed_lines_are_skipped() {
    let mut consumer = StreamConsumer::new();
    let events = consumer.feed(
        b"\n: comment\nevent: ping\ndata: {not json}\ndata: 17\n  data: {\"token\":\"ok\"}  \r\n",
    );
    assert_eq!(events, vec![token("ok")]);
    assert!(!consumer.is_finished());
}

#[test]
fn stream_that_stops_without_a_signal_closes_with_what_was_read() {
    let mut consumer = StreamConsumer::new();
    assert_eq!(consumer.feed(b"data: {\"token\":\"par\"}\ndata: {\"token\":\"tial"), vec![token("par")]);
    assert_eq!(consumer.close(), Some(end("par")));
    assert!(consumer.is_finished());
    assert_eq!(consumer.aggregate(), "par");
    assert_eq!(consumer.close(), None);
}

#[test]
fn read_line_tells_sentinel_payload_and_noise_apart() {
    assert_eq!(read_line(b"data: [DONE]"), (Vec::<String>::new(), true));
    assert_eq!(read_line(b"data: [DONE] "), (Vec::<String>::new(), true));
    assert_eq!(read_line(b"data:[DONE]"), (Vec::<String>::new(), false));
    assert_eq!(read_line(b"data: {\"token\":\"t\"}"), (vec!["t".to_string()], false));
    assert_eq!(read_line(b"data: {\"token\":5}"), (Vec::<String>::new(), false));
    assert_eq!(read_line(b"data: {\"done\":true}"), (Vec::<String>::new(), true));
    assert_eq!(read_line(b"data: {\"done\":false}"), (Vec::<String>::new(), false));
    assert_eq!(read_line(b""), (Vec::<String>::new(), false));
}

#[test]
fn json_parse_reads_members_and_rejects_malformed_text() {
    let doc = JsonValue::parse("{\"token\":\"hello\",\"n\":12,\"list\":[true,null]}").expect("valid JSON");
    assert_eq!(doc.member("token").and_then(|v| v.text()).map(|s| s.as_str()), Some("hello"));
    assert_eq!(doc.member("n"), Some(&JsonValue::Number("12".to_string())));
    assert_eq!(
        doc.member("list"),
        Some(&JsonValue::Array(vec![JsonValue::Bool(true), JsonValue::Null]))
    );
    assert!(doc.member("other").is_none());
    assert!(JsonValue::parse("{\"token\":").is_none());
    assert!(JsonValue::parse("[DONE]").is_none());
    assert_eq!(JsonValue::parse("\"x\""), Some(JsonValue::Text("x".to_string())));
}

#[test]
fn whole_stream_gives_each_token_then_the_end_once() {
    let reads = vec![b"data: {\"token\":\"he".to_vec(), b"llo\"}\n\ndata: [DONE]\n".to_vec()];
    assert_eq!(
        read_stream(&reads),
        StreamOutcome { events: vec![token("hello"), end("hello")], text: "hello".to_string() }
    );
    let unfinished = vec![b"data: {\"token\":\"a\"}\n".to_vec(), b"data: {\"tok".to_vec()];
    assert_eq!(
        read_stream(&unfinished),
        StreamOutcome { events: vec![token("a"), end("a")], text: "a".to_string() }
    );
    assert_eq!(read_stream(&vec![]), StreamOutcome { events: vec![end("")], text: String::new() });
}

#[test]
fn however_the_stream_is_cut_the_outcome_is_the_same() {
    let whole: &[u8] =
        b"data: {\"token\":\"one \"}\r\n\r\ndata: {\"choices\":[{\"delta\":{\"content\":\"two\"}}]}\ndata: [DONE]\ndata: {\"token\":\"x\"}\n";
    let expected = read_stream(&vec![whole.to_vec()]);
    assert_eq!(expected.events, vec![token("one "), token("two"), end("one two")]);
    for size in 1..=whole.len() {
        let reads: Vec<Vec<u8>> = whole.chunks(size).map(|c| c.to_vec()).collect();
        assert_eq!(read_stream(&reads), expected, "reads of {} bytes", size);
    }
}

#[test]
fn events_are_notified_under_their_names() {
    assert_eq!(STREAM_START, "llm-stream-start");
    assert_eq!(token("t").name(), "llm-token");
    assert_eq!(end("all").name(), "llm-stream-end");
    assert_eq!(token("t").payload(), "t");
    assert_eq!(end("all").payload(), "all");
}
