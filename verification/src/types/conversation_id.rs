//! The chat backend's conversation identifier.

use vstd::prelude::*;

verus! {

/// Identifies one conversation on the chat backend.
#[derive(Debug)]
pub struct ConversationId(String);

impl ConversationId {
    pub fn new(value: String) -> (r: ConversationId)
        ensures
            r@ == value@,
    {
        ConversationId(value)
    }

    pub fn value(&self) -> (r: &str)
        ensures
            r@ == self@,
    {
        self.0.as_str()
    }
}

impl Clone for ConversationId {
    fn clone(&self) -> (r: Self)
        ensures
            r == *self,
    {
        ConversationId(self.0.clone())
    }
}

impl View for ConversationId {
    type V = Seq<char>;

    closed spec fn view(&self) -> Seq<char> {
        self.0@
    }
}

} // verus!
