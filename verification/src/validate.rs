//! The conversation validator: decides, before any streaming begins,
//! whether a conversation is eligible for a reply.

use vstd::prelude::*;

use crate::model::Conversation;
use crate::model::MessageModel;

verus! {

/// Why a conversation was rejected.
#[derive(Clone, Copy, Debug, PartialEq, Eq, Structural)]
pub enum ErrorKind {
    /// The conversation has no messages at all.
    EmptyHistory,
    /// The most recent message is an assistant message, so there is no
    /// pending user turn to reply to.
    LastMessageNotFromUser,
    /// The last user message is the literal trigger `"error"`
    /// (case-insensitively), a deliberate hook to simulate backend failure.
    RejectedInput,
}

impl ErrorKind {
    /// The human-readable text surfaced to the caller for this rejection.
    pub fn message(&self) -> (r: String)
        ensures
            *self == ErrorKind::EmptyHistory ==> r@ == "Error: There is no Message to respond to."@,
            *self == ErrorKind::LastMessageNotFromUser ==> r@
                == "Error: The last message must be from the user."@,
            *self == ErrorKind::RejectedInput ==> r@
                == "Error: Something catastrophic happened. You did this."@,
    {
        match self {
            ErrorKind::EmptyHistory => String::from_str("Error: There is no Message to respond to."),
            ErrorKind::LastMessageNotFromUser => String::from_str(
                "Error: The last message must be from the user.",
            ),
            ErrorKind::RejectedInput => String::from_str(
                "Error: Something catastrophic happened. You did this.",
            ),
        }
    }
}

/// What `str::to_lowercase` returns for a given character sequence.
/// The mapping is fixed by the Unicode tables compiled into the standard
/// library; it depends on the characters alone.
pub uninterp spec fn lower_of(s: Seq<char>) -> Seq<char>;

/// Relies on `str::to_lowercase`: the Unicode lowercase of the input,
/// a function of the input characters alone.
#[verifier::external_body]
pub(crate) fn lowercase(s: &str) -> (r: String)
    ensures
        r@ == lower_of(s@),
{
    s.to_lowercase()
}

/// Whether a lowercased user text is the rejection trigger.
pub open spec fn is_error_trigger(lowered: Seq<char>) -> bool {
    lowered == "error"@
}

/// Decides whether an already-lowercased user text triggers rejection.
pub fn text_triggers_rejection(lowered: &String) -> (r: bool)
    ensures
        r == is_error_trigger(lowered@),
{
    let trigger: String = String::from_str("error");
    *lowered == trigger
}

/// The validation verdict for a whole history: the first applicable rule
/// wins, and only the last message is ever inspected.
pub open spec fn validate_spec(history: Seq<MessageModel>) -> Result<(), ErrorKind> {
    if history.len() == 0 {
        Err(ErrorKind::EmptyHistory)
    } else {
        match history.last() {
            MessageModel::Assistant(_, _) => Err(ErrorKind::LastMessageNotFromUser),
            MessageModel::User(text) => if is_error_trigger(lower_of(text)) {
                Err(ErrorKind::RejectedInput)
            } else {
                Ok(())
            },
        }
    }
}

/// Every conversation with an empty history is rejected as `EmptyHistory`.
pub proof fn lemma_empty_history_rejected(history: Seq<MessageModel>)
    requires
        history.len() == 0,
    ensures
        validate_spec(history) == Err::<(), ErrorKind>(ErrorKind::EmptyHistory),
{
}

/// Every conversation whose last message is an assistant message is
/// rejected as `LastMessageNotFromUser`.
pub proof fn lemma_assistant_last_rejected(history: Seq<MessageModel>)
    requires
        history.len() > 0,
        history.last() is Assistant,
    ensures
        validate_spec(history) == Err::<(), ErrorKind>(ErrorKind::LastMessageNotFromUser),
{
}

/// A conversation ending in a user message is rejected as `RejectedInput`
/// exactly when the text lowercases to the trigger `"error"`, and accepted
/// otherwise; nothing but the last message matters.
pub proof fn lemma_user_last_verdict(history: Seq<MessageModel>, text: Seq<char>)
    requires
        history.len() > 0,
        history.last() == MessageModel::User(text),
    ensures
        is_error_trigger(lower_of(text)) ==> validate_spec(history) == Err::<
            (),
            ErrorKind,
        >(ErrorKind::RejectedInput),
        !is_error_trigger(lower_of(text)) ==> validate_spec(history) == Ok::<(), ErrorKind>(()),
{
}

/// Only the last message matters: two nonempty histories with the same
/// last message get the same verdict.
pub proof fn lemma_only_last_message_matters(a: Seq<MessageModel>, b: Seq<MessageModel>)
    requires
        a.len() > 0,
        b.len() > 0,
        a.last() == b.last(),
    ensures
        validate_spec(a) == validate_spec(b),
{
}

/// The mock reply engine. It carries no state: the reply is a fixture and
/// the validator is a pure predicate over the conversation.
pub struct Engine;

impl Engine {
    /// Validates a conversation: rejects an empty history, a history whose
    /// last message is from the assistant, and a last user message equal,
    /// case-insensitively, to the literal `"error"`; accepts everything
    /// else without inspecting older messages.
    pub fn streaming_conversation_validator(&self, conversation: &Conversation) -> (r: Result<
        (),
        ErrorKind,
    >)
        ensures
            r == validate_spec(conversation@),
    {
        let history = &conversation.0;
        let n = history.len();
        if n == 0 {
            assert(conversation@.len() == 0);
            return Err(ErrorKind::EmptyHistory);
        }
        assert(conversation@.last() == history[n - 1]@);
        match &history[n - 1] {
            crate::model::Message::Assistant(_, _) => Err(ErrorKind::LastMessageNotFromUser),
            crate::model::Message::User(text) => {
                let lowered = lowercase(text.as_str());
                if text_triggers_rejection(&lowered) {
                    Err(ErrorKind::RejectedInput)
                } else {
                    Ok(())
                }
            },
        }
    }
}

} // verus!
