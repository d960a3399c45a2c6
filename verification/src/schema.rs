//! Example values for the API documentation: one sample of each entity,
//! pinned exactly by their contracts.

use vstd::prelude::*;

use crate::model::Conversation;
use crate::model::Message;
use crate::model::MessageModel;
use crate::model::PartialMessage;
use crate::model::PartialMessageModel;
use crate::model::Source;
use crate::model::SourceModel;

verus! {

/// The source shown in the documentation examples.
pub open spec fn source_example_model() -> SourceModel {
    SourceModel {
        ordinal: 0,
        index: 987087,
        citation: "Bogonam-Foulbé. 2023, December 1. In Wikipedia. Retrieved December 1, 2023, from https://en.wikipedia.org/wiki/Bogonam-Foulbé"@,
        url: "https://en.wikipedia.org/wiki/Bogonam-Foulbé"@,
        origin_text: "Bogonam-Foulbé is a village in the Kongoussi Department of Bam Province in northern Burkina Faso. It has a population of 205."@,
    }
}

/// The assistant message shown in the documentation examples: a sample
/// text with four copies of the example source.
pub open spec fn assistant_message_example_model() -> MessageModel {
    MessageModel::Assistant(
        "String"@,
        seq![
            source_example_model(),
            source_example_model(),
            source_example_model(),
            source_example_model(),
        ],
    )
}

/// An example source for the documentation.
pub fn source_schema_example() -> (r: Source)
    ensures
        r@ == source_example_model(),
{
    Source {
        ordinal: 0,
        index: 987087,
        citation: String::from_str(
            "Bogonam-Foulbé. 2023, December 1. In Wikipedia. Retrieved December 1, 2023, from https://en.wikipedia.org/wiki/Bogonam-Foulbé",
        ),
        url: String::from_str("https://en.wikipedia.org/wiki/Bogonam-Foulbé"),
        origin_text: String::from_str(
            "Bogonam-Foulbé is a village in the Kongoussi Department of Bam Province in northern Burkina Faso. It has a population of 205.",
        ),
    }
}

/// An example user message for the documentation.
pub fn user_message_schema_example() -> (r: Message)
    ensures
        r@ == MessageModel::User("String"@),
{
    Message::User(String::from_str("String"))
}

/// An example assistant message for the documentation.
pub fn assistant_message_schema_example() -> (r: Message)
    ensures
        r@ == assistant_message_example_model(),
{
    let mut sources: Vec<Source> = Vec::new();
    sources.push(source_schema_example());
    sources.push(source_schema_example());
    sources.push(source_schema_example());
    sources.push(source_schema_example());
    proof {
        assert(sources@.map_values(|s: Source| s@) =~= seq![
            source_example_model(),
            source_example_model(),
            source_example_model(),
            source_example_model(),
        ]);
    }
    Message::Assistant(String::from_str("String"), sources)
}

/// An example conversation for the documentation: one user turn, one
/// assistant turn.
pub fn conversation_schema_example() -> (r: Conversation)
    ensures
        r@ == seq![MessageModel::User("String"@), assistant_message_example_model()],
{
    let mut messages: Vec<Message> = Vec::new();
    messages.push(user_message_schema_example());
    messages.push(assistant_message_schema_example());
    proof {
        assert(messages@.map_values(|m: Message| m@) =~= seq![
            MessageModel::User("String"@),
            assistant_message_example_model(),
        ]);
    }
    Conversation(messages)
}

/// An example event payload for the documentation. Unlike real events it
/// fills all three fields at once, to show each field's shape.
pub fn assistant_partial_message_schema_example() -> (r: PartialMessage)
    ensures
        r@ == (PartialMessageModel {
            content: Some(" fragment"@),
            source: Some(source_example_model()),
            finished: Some(""@),
        }),
{
    PartialMessage {
        content: Some(String::from_str(" fragment")),
        source: Some(source_schema_example()),
        finished: Some(String::from_str("")),
    }
}

} // verus!
