use chat_api_mock::fixture::get_sources_list;
use chat_api_mock::fixture::message_content;
use chat_api_mock::script::reply_frames;
use chat_api_mock::script::scripted_events;
use chat_api_mock::split::split_message;

#[test]
fn sources_list_has_ascending_ordinals_and_extreme_indices() {
    let sources = get_sources_list();
    assert_eq!(sources.len(), 4);
    for (k, source) in sources.iter().enumerate() {
        assert_eq!(source.ordinal, k);
        assert_eq!(source.url, "https://answers.quantarchive.com/");
    }
    assert_eq!(sources[0].index, 98346);
    assert_eq!(sources[1].index, i64::MAX);
    assert_eq!(sources[2].index, i64::MIN);
    assert_eq!(sources[3].index, 0);
    assert_eq!(sources[0].origin_text, "consectetur adipiscing elit");
}

#[test]
fn script_orders_sources_then_words_then_done() {
    let events = scripted_events();
    let words = split_message(message_content());
    assert_eq!(events.len(), 4 + words.len() + 1);
    for (i, event) in events.iter().enumerate().take(4) {
        assert!(event.content.is_none());
        assert!(event.finished.is_none());
        let source = event.source.as_ref().unwrap();
        assert_eq!(source.ordinal, i);
    }
    for (j, word) in words.iter().enumerate() {
        let event = &events[4 + j];
        assert!(event.source.is_none());
        assert!(event.finished.is_none());
        assert_eq!(event.content.as_ref().unwrap(), word);
    }
    let last = events.last().unwrap();
    assert!(last.content.is_none());
    assert!(last.source.is_none());
    assert_eq!(last.finished.as_deref(), Some("DONE"));
}

#[test]
fn script_fragments_rejoin_to_the_fixture_text() {
    let events = scripted_events();
    let fragments: Vec<String> = events.iter().filter_map(|e| e.content.clone()).collect();
    assert_eq!(fragments.join(" "), message_content());
}

#[test]
fn separate_replies_are_byte_identical() {
    let first = reply_frames();
    let second = reply_frames();
    assert_eq!(first, second);
}

#[test]
fn reply_frames_match_the_scripted_events() {
    let events = scripted_events();
    let frames = reply_frames();
    assert_eq!(frames.len(), events.len());
    for (event, frame) in events.iter().zip(frames.iter()) {
        assert_eq!(&event.message(), frame);
    }
}

#[test]
fn reply_stream_shape_for_an_accepted_conversation() {
    let frames = reply_frames();
    let words = split_message(message_content());
    for (k, frame) in frames.iter().enumerate().take(4) {
        assert!(frame.starts_with("event: message\ndata: {\"content\":null,\"source\":{\"ordinal\":"));
        assert!(frame.contains(&format!("\"ordinal\":{},", k)));
    }
    for (j, word) in words.iter().enumerate() {
        let frame = &frames[4 + j];
        assert_eq!(
            frame,
            &format!(
                "event: message\ndata: {{\"content\":\"{}\",\"source\":null,\"finished\":null}}\n\n",
                word
            )
        );
    }
    assert_eq!(
        frames.last().unwrap(),
        "event: message\ndata: {\"content\":null,\"source\":null,\"finished\":\"DONE\"}\n\n"
    );
}

#[test]
fn split_keeps_empty_fragments_like_str_split() {
    let empty: Vec<String> = split_message("");
    assert_eq!(empty, vec![String::new()]);
    assert_eq!(split_message("a b"), vec!["a", "b"]);
    assert_eq!(split_message("a  b"), vec!["a", "", "b"]);
    assert_eq!(split_message(" a "), vec!["", "a", ""]);
    let reference: Vec<&str> = message_content().split(' ').collect();
    assert_eq!(split_message(message_content()), reference);
}
