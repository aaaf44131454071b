//! The parsed shape of a transaction-query response: typed events with
//! ordered attribute lists, messages with funds, per-message logs, and
//! the response around them. All fields are plain values; the `msg`
//! payload of a message and the extension options, which are arbitrary
//! JSON, are carried as their JSON text.

use vstd::prelude::*;

verus! {

/// One key/value pair of an event. Either side may be base64-encoded
/// binary masquerading as text, or plain text.
pub struct Attribute {
    pub key: String,
    pub value: String,
}

/// A tagged, ordered list of attributes emitted during transaction
/// execution. The type `"tx"` is a sentinel meaning "skip this event".
pub struct Event {
    pub event_type: String,
    pub attributes: Vec<Attribute>,
}

/// One coin amount attached to a message.
pub struct Fund {
    pub denom: String,
    pub amount: String,
}

/// One message of the transaction body.
pub struct Message {
    pub type_: String,
    pub sender: String,
    pub contract: String,
    /// The message payload, arbitrary JSON, as its JSON text.
    pub msg: String,
    pub funds: Vec<Fund>,
}

/// The body of the wrapped transaction.
pub struct Body {
    pub messages: Vec<Message>,
    pub memo: String,
    pub timeout_height: String,
    pub extension_options: Vec<String>,
    pub non_critical_extension_options: Vec<String>,
}

/// The wrapped transaction: its type tag and body.
pub struct Tx {
    pub type_: String,
    pub body: Body,
}

/// The execution trace of one message, at the matching index of the
/// response's log list.
pub struct Log {
    pub msg_index: u64,
    pub log: String,
    pub events: Vec<Event>,
}

/// A full transaction-query response.
pub struct TransactionResponse {
    pub code: i64,
    pub codespace: String,
    pub data: String,
    pub events: Vec<Event>,
    pub tx: Tx,
    pub logs: Vec<Log>,
}

} // verus!
