//! The records of a stored conversation.

use vstd::prelude::*;

verus! {

/// A conversation: its identifier and when it was begun.
#[derive(Debug, Clone, PartialEq, Eq)]
pub struct Conversation {
    pub id: String,
    pub created_at: String,
}

/// One message of a conversation.
#[derive(Debug, Clone, PartialEq, Eq)]
pub struct Message {
    pub id: String,
    pub conversation_id: String,
    /// Who spoke: `"user"` or `"assistant"`.
    pub role: String,
    pub content: String,
    pub timestamp: String,
}

} // verus!
