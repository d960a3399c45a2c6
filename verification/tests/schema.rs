use chat_api_mock::model::Message;
use chat_api_mock::schema::assistant_message_schema_example;
use chat_api_mock::schema::assistant_partial_message_schema_example;
use chat_api_mock::schema::conversation_schema_example;
use chat_api_mock::schema::source_schema_example;
use chat_api_mock::schema::user_message_schema_example;

#[test]
fn source_example_fields() {
    let source = source_schema_example();
    assert_eq!(source.ordinal, 0);
    assert_eq!(source.index, 987087);
    assert_eq!(source.url, "https://en.wikipedia.org/wiki/Bogonam-Foulb\u{e9}");
    assert!(source.citation.starts_with("Bogonam-Foulb\u{e9}. 2023, December 1."));
    assert!(source.origin_text.ends_with("It has a population of 205."));
}

#[test]
fn user_message_example_shape() {
    match user_message_schema_example() {
        Message::User(text) => assert_eq!(text, "String"),
        Message::Assistant(_, _) => panic!("expected a user message"),
    }
}

#[test]
fn assistant_message_example_shape() {
    match assistant_message_schema_example() {
        Message::Assistant(text, sources) => {
            assert_eq!(text, "String");
            assert_eq!(sources.len(), 4);
            for source in &sources {
                assert_eq!(source.index, 987087);
            }
        }
        Message::User(_) => panic!("expected an assistant message"),
    }
}

#[test]
fn conversation_example_shape() {
    let conversation = conversation_schema_example();
    assert_eq!(conversation.0.len(), 2);
    assert!(matches!(conversation.0[0], Message::User(_)));
    assert!(matches!(conversation.0[1], Message::Assistant(_, _)));
}

#[test]
fn partial_message_example_fills_every_field() {
    let example = assistant_partial_message_schema_example();
    assert_eq!(example.content.as_deref(), Some(" fragment"));
    assert_eq!(example.finished.as_deref(), Some(""));
    assert_eq!(example.source.unwrap().index, 987087);
}
