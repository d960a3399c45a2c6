//! The data model: messages, sources, conversations and the wire-level
//! event payload, together with their mathematical views.

use vstd::prelude::*;

verus! {

/// Mathematical view of a [`Source`]: every text field as a sequence of
/// characters, the numbers as unbounded integers.
pub ghost struct SourceModel {
    pub ordinal: nat,
    pub index: int,
    pub citation: Seq<char>,
    pub url: Seq<char>,
    pub origin_text: Seq<char>,
}

/// One citation record attached to an assistant reply.
///
/// `ordinal` is the zero-based position of the source in the reply's
/// citation list; `index` is an opaque identifier where any value is legal.
pub struct Source {
    pub ordinal: usize,
    pub index: i64,
    pub citation: String,
    pub url: String,
    pub origin_text: String,
}

impl View for Source {
    type V = SourceModel;

    open spec fn view(&self) -> SourceModel {
        SourceModel {
            ordinal: self.ordinal as nat,
            index: self.index as int,
            citation: self.citation@,
            url: self.url@,
            origin_text: self.origin_text@,
        }
    }
}

/// Mathematical view of a [`Message`].
pub ghost enum MessageModel {
    User(Seq<char>),
    Assistant(Seq<char>, Seq<SourceModel>),
}

/// One turn of a conversation: either a user message or an assistant
/// message with its citation list.
pub enum Message {
    User(String),
    Assistant(String, Vec<Source>),
}

impl View for Message {
    type V = MessageModel;

    open spec fn view(&self) -> MessageModel {
        match self {
            Message::User(text) => MessageModel::User(text@),
            Message::Assistant(text, sources) => MessageModel::Assistant(
                text@,
                sources@.map_values(|s: Source| s@),
            ),
        }
    }
}

/// The full chat history, most recent message last.
pub struct Conversation(pub Vec<Message>);

impl View for Conversation {
    type V = Seq<MessageModel>;

    open spec fn view(&self) -> Seq<MessageModel> {
        self.0@.map_values(|m: Message| m@)
    }
}

/// Mathematical view of a [`PartialMessage`].
pub ghost struct PartialMessageModel {
    pub content: Option<Seq<char>>,
    pub source: Option<SourceModel>,
    pub finished: Option<Seq<char>>,
}

/// The wire-level event payload: exactly one of `content`, `source` or
/// `finished` is meant to be present; the constructors below keep it so.
pub struct PartialMessage {
    pub content: Option<String>,
    pub source: Option<Source>,
    pub finished: Option<String>,
}

impl View for PartialMessage {
    type V = PartialMessageModel;

    open spec fn view(&self) -> PartialMessageModel {
        PartialMessageModel {
            content: match self.content {
                Some(ref text) => Some(text@),
                None => None,
            },
            source: match self.source {
                Some(ref s) => Some(s@),
                None => None,
            },
            finished: match self.finished {
                Some(ref text) => Some(text@),
                None => None,
            },
        }
    }
}

impl PartialMessage {
    /// The terminal event: `finished` holds the literal `"DONE"`.
    pub fn done() -> (r: Self)
        ensures
            r@.content is None,
            r@.source is None,
            r@.finished == Some("DONE"@),
    {
        Self { content: None, source: None, finished: Some(String::from_str("DONE")) }
    }

    /// A source-citation event carrying `source`.
    pub fn source(source: Source) -> (r: Self)
        ensures
            r@.content is None,
            r@.source == Some(source@),
            r@.finished is None,
    {
        Self { content: None, source: Some(source), finished: None }
    }

    /// A content-fragment event carrying one piece of reply text.
    pub fn content(content: String) -> (r: Self)
        ensures
            r@.content == Some(content@),
            r@.source is None,
            r@.finished is None,
    {
        Self { content: Some(content), source: None, finished: None }
    }
}

} // verus!
