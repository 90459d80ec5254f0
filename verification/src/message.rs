//! One captured log message.

use crate::level::Level;
use vstd::prelude::*;

verus! {

/// A severity together with the fully formatted text of one record. Made
/// once, when the record is captured, and never changed afterwards.
#[derive(Debug)]
pub struct Message {
    level: Level,
    message: String,
}

impl View for Message {
    type V = (Level, Seq<char>);

    closed spec fn view(&self) -> (Level, Seq<char>) {
        (self.level, self.message@)
    }
}

impl Clone for Message {
    /// An independent copy with the same severity and the same text.
    fn clone(&self) -> (r: Self)
        ensures
            r@ == self@,
    {
        Message { level: self.level, message: self.message.clone() }
    }
}

impl Message {
    /// Captures `message` under the severity `level`.
    pub fn new(level: Level, message: String) -> (r: Self)
        ensures
            r@ == (level, message@),
    {
        Message { level, message }
    }

    /// The severity that the message was captured with.
    pub fn level(&self) -> (r: Level)
        ensures
            r == self@.0,
    {
        self.level
    }

    /// The formatted text of the message.
    pub fn message(&self) -> (r: &str)
        ensures
            r@ == self@.1,
    {
        self.message.as_str()
    }
}

/// What a history holds: the view of each message, in order.
pub open spec fn history_of(messages: Seq<Message>) -> Seq<(Level, Seq<char>)> {
    messages.map_values(|m: Message| m@)
}

} // verus!
