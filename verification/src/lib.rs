//! A mock streaming chat engine.
//!
//! The library holds the verified core of a streaming chat endpoint: the
//! conversation validator, the Server-Sent-Events wire encoder for reply
//! events, the fixture reply script, and the proofs tying them together.
//! An HTTP front end can drive these from ordinary code.

pub mod decode;
pub mod encode;
pub mod fixture;
pub mod model;
pub mod schema;
pub mod script;
pub mod split;
pub mod validate;

pub use model::Conversation;
pub use model::Message;
pub use model::MessageModel;
pub use model::PartialMessage;
pub use model::PartialMessageModel;
pub use model::Source;
pub use model::SourceModel;
pub use validate::Engine;
pub use validate::ErrorKind;
