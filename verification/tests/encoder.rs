use chat_api_mock::model::PartialMessage;
use chat_api_mock::model::Source;

fn sample_source() -> Source {
    Source {
        ordinal: 1,
        index: -42,
        citation: String::from("say \"hi\""),
        url: String::from("https://example.test/a?b=c"),
        origin_text: String::from("line one\nline two"),
    }
}

/// The JSON payload between the `data: ` line prefix and the blank line.
fn data_of(frame: &str) -> &str {
    let body = frame
        .strip_prefix("event: message\ndata: ")
        .expect("frame must start with the SSE header");
    body.strip_suffix("\n\n").expect("frame must end with a blank line")
}

#[test]
fn done_frame_exact_bytes() {
    let frame = PartialMessage::done().message();
    assert_eq!(
        frame,
        "event: message\ndata: {\"content\":null,\"source\":null,\"finished\":\"DONE\"}\n\n"
    );
}

#[test]
fn content_frame_exact_bytes() {
    let frame = PartialMessage::content(String::from("Hello")).message();
    assert_eq!(
        frame,
        "event: message\ndata: {\"content\":\"Hello\",\"source\":null,\"finished\":null}\n\n"
    );
}

#[test]
fn source_frame_exact_bytes() {
    let frame = PartialMessage::source(sample_source()).message();
    assert_eq!(
        frame,
        "event: message\ndata: {\"content\":null,\"source\":{\"ordinal\":1,\"index\":-42,\"citation\":\"say \\\"hi\\\"\",\"url\":\"https://example.test/a?b=c\",\"origin_text\":\"line one\\nline two\"},\"finished\":null}\n\n"
    );
}

#[test]
fn control_characters_are_escaped() {
    let frame = PartialMessage::content(String::from("a\tb\r\u{8}\u{c}\u{1f}\u{1}c")).message();
    assert_eq!(
        frame,
        "event: message\ndata: {\"content\":\"a\\tb\\r\\b\\f\\u001f\\u0001c\",\"source\":null,\"finished\":null}\n\n"
    );
}

#[test]
fn non_ascii_text_passes_through() {
    let frame = PartialMessage::content(String::from("caf\u{e9} “quoted”")).message();
    assert_eq!(
        frame,
        "event: message\ndata: {\"content\":\"caf\u{e9} “quoted”\",\"source\":null,\"finished\":null}\n\n"
    );
}

#[test]
fn extreme_indices_encode_exactly() {
    let mut source = sample_source();
    source.index = i64::MIN;
    let min_frame = PartialMessage::source(source).message();
    assert!(min_frame.contains("\"index\":-9223372036854775808,"));
    let mut source = sample_source();
    source.index = i64::MAX;
    let max_frame = PartialMessage::source(source).message();
    assert!(max_frame.contains("\"index\":9223372036854775807,"));
}

#[test]
fn done_frame_round_trips_through_json() {
    let frame = PartialMessage::done().message();
    let value: serde_json::Value = serde_json::from_str(data_of(&frame)).unwrap();
    assert!(value.get("content").unwrap().is_null());
    assert!(value.get("source").unwrap().is_null());
    assert_eq!(value.get("finished").unwrap().as_str(), Some("DONE"));
    assert_eq!(value.as_object().unwrap().len(), 3);
}

#[test]
fn content_frame_round_trips_through_json() {
    let text = "fragment with \"quotes\", a \\ backslash,\nand caf\u{e9}";
    let frame = PartialMessage::content(String::from(text)).message();
    let value: serde_json::Value = serde_json::from_str(data_of(&frame)).unwrap();
    assert_eq!(value.get("content").unwrap().as_str(), Some(text));
    assert!(value.get("source").unwrap().is_null());
    assert!(value.get("finished").unwrap().is_null());
}

#[test]
fn source_frame_round_trips_through_json() {
    let frame = PartialMessage::source(sample_source()).message();
    let value: serde_json::Value = serde_json::from_str(data_of(&frame)).unwrap();
    assert!(value.get("content").unwrap().is_null());
    assert!(value.get("finished").unwrap().is_null());
    let source = value.get("source").unwrap();
    assert_eq!(source.get("ordinal").unwrap().as_u64(), Some(1));
    assert_eq!(source.get("index").unwrap().as_i64(), Some(-42));
    assert_eq!(source.get("citation").unwrap().as_str(), Some("say \"hi\""));
    assert_eq!(
        source.get("url").unwrap().as_str(),
        Some("https://example.test/a?b=c")
    );
    assert_eq!(
        source.get("origin_text").unwrap().as_str(),
        Some("line one\nline two")
    );
}

#[test]
fn each_frame_kind_has_exactly_one_non_null_field() {
    let frames = vec![
        PartialMessage::done().message(),
        PartialMessage::content(String::from("word")).message(),
        PartialMessage::source(sample_source()).message(),
    ];
    for frame in frames {
        let value: serde_json::Value = serde_json::from_str(data_of(&frame)).unwrap();
        let present = ["content", "source", "finished"]
            .iter()
            .filter(|key| !value.get(**key).unwrap().is_null())
            .count();
        assert_eq!(present, 1);
    }
}
