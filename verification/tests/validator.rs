use chat_api_mock::model::Conversation;
use chat_api_mock::model::Message;
use chat_api_mock::validate::Engine;
use chat_api_mock::validate::ErrorKind;

fn user(text: &str) -> Message {
    Message::User(String::from(text))
}

fn assistant(text: &str) -> Message {
    Message::Assistant(String::from(text), Vec::new())
}

#[test]
fn empty_history_is_rejected() {
    let verdict = Engine.streaming_conversation_validator(&Conversation(Vec::new()));
    assert_eq!(verdict, Err(ErrorKind::EmptyHistory));
}

#[test]
fn empty_history_message_text() {
    assert_eq!(
        ErrorKind::EmptyHistory.message(),
        "Error: There is no Message to respond to."
    );
}

#[test]
fn assistant_last_is_rejected() {
    let conversation = Conversation(vec![user("Hello"), assistant("Hi there")]);
    let verdict = Engine.streaming_conversation_validator(&conversation);
    assert_eq!(verdict, Err(ErrorKind::LastMessageNotFromUser));
}

#[test]
fn assistant_last_message_text() {
    assert_eq!(
        ErrorKind::LastMessageNotFromUser.message(),
        "Error: The last message must be from the user."
    );
}

#[test]
fn error_trigger_lowercase_is_rejected() {
    let verdict = Engine.streaming_conversation_validator(&Conversation(vec![user("error")]));
    assert_eq!(verdict, Err(ErrorKind::RejectedInput));
}

#[test]
fn error_trigger_capitalised_is_rejected() {
    let verdict = Engine.streaming_conversation_validator(&Conversation(vec![user("Error")]));
    assert_eq!(verdict, Err(ErrorKind::RejectedInput));
}

#[test]
fn error_trigger_uppercase_is_rejected() {
    let verdict = Engine.streaming_conversation_validator(&Conversation(vec![user("ERROR")]));
    assert_eq!(verdict, Err(ErrorKind::RejectedInput));
}

#[test]
fn rejected_input_message_text() {
    assert_eq!(
        ErrorKind::RejectedInput.message(),
        "Error: Something catastrophic happened. You did this."
    );
}

#[test]
fn error_with_trailing_space_is_accepted() {
    let verdict = Engine.streaming_conversation_validator(&Conversation(vec![user("error ")]));
    assert_eq!(verdict, Ok(()));
}

#[test]
fn error_with_suffix_is_accepted() {
    let verdict = Engine.streaming_conversation_validator(&Conversation(vec![user("errorx")]));
    assert_eq!(verdict, Ok(()));
}

#[test]
fn ordinary_user_message_is_accepted() {
    let verdict = Engine.streaming_conversation_validator(&Conversation(vec![user("Hello")]));
    assert_eq!(verdict, Ok(()));
}

#[test]
fn only_the_last_message_is_inspected() {
    let conversation = Conversation(vec![user("error"), assistant("ERROR"), user("Hello")]);
    let verdict = Engine.streaming_conversation_validator(&conversation);
    assert_eq!(verdict, Ok(()));
}
