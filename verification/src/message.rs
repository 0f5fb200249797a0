//! The value types stored in the chat log, and the system announcement text.

use vstd::prelude::*;
use vstd::string::StringExecFns;

use crate::clock;

verus! {

/// A chat message as submitted by a client (or synthesized for system
/// announcements): an author name and a body of text. The core treats both
/// fields as opaque text and performs no validation on them.
#[derive(Debug)]
pub struct Message {
    pub author: String,
    pub text: String,
}

impl Message {
    /// Builds a message from the two fields.
    pub fn new(author: String, text: String) -> (m: Message)
        ensures
            m.author@ == author@,
            m.text@ == text@,
    {
        Message { author, text }
    }

    /// Returns a copy equal to this message.
    pub fn duplicate(&self) -> (m: Message)
        ensures
            m == *self,
    {
        Message { author: self.author.clone(), text: self.text.clone() }
    }
}

/// A message wrapped with the time at which the store captured it, in
/// milliseconds since the Unix epoch. Entries are immutable once created.
#[derive(Debug)]
pub struct ChatLogEntry {
    pub msg: Message,
    pub timestamp_millis: i64,
}

impl ChatLogEntry {
    /// Wraps a message with the current time. Nothing is known of the clock
    /// value itself; the log enforces monotonicity when it stores entries.
    pub fn new(msg: Message) -> (e: ChatLogEntry)
        ensures
            e.msg == msg,
    {
        ChatLogEntry { msg, timestamp_millis: clock::now_timestamp_millis() }
    }

    /// Returns a copy equal to this entry.
    pub fn duplicate(&self) -> (e: ChatLogEntry)
        ensures
            e == *self,
    {
        ChatLogEntry { msg: self.msg.duplicate(), timestamp_millis: self.timestamp_millis }
    }
}

/// The author name under which session announcements are recorded.
pub open spec fn system_author() -> Seq<char> {
    "SYSTEM"@
}

/// The text of the announcement recorded when `name` logs on.
pub open spec fn announcement_text(name: Seq<char>) -> Seq<char> {
    "`"@ + name + "` has logged on."@
}

/// Builds the system message announcing that `name` has logged on.
pub fn announcement_message(name: &str) -> (m: Message)
    ensures
        m.author@ == system_author(),
        m.text@ == announcement_text(name@),
{
    let mut text = String::from_str("`");
    text.append(name);
    text.append("` has logged on.");
    Message { author: String::from_str("SYSTEM"), text }
}

/// The response shape of a history listing: the entries, oldest first.
#[derive(Debug)]
pub struct MessageListResponse {
    messages: Vec<ChatLogEntry>,
}

impl MessageListResponse {
    /// The entries carried by the response.
    pub closed spec fn messages_view(&self) -> Seq<ChatLogEntry> {
        self.messages@
    }

    /// Builds a response holding a copy of the given entries.
    pub fn new(messages: &[ChatLogEntry]) -> (r: MessageListResponse)
        ensures
            r.messages_view() == messages@,
    {
        let n: usize = messages.len();
        let mut copied: Vec<ChatLogEntry> = Vec::new();
        let mut i: usize = 0;
        while i < n
            invariant
                i <= n,
                n == messages@.len(),
                copied@ == messages@.take(i as int),
            decreases n - i,
        {
            copied.push(messages[i].duplicate());
            proof {
                assert(messages@.take(i + 1 as int) =~= messages@.take(i as int).push(
                    messages@[i as int],
                ));
            }
            i += 1;
        }
        proof {
            assert(messages@.take(n as int) =~= messages@);
        }
        MessageListResponse { messages: copied }
    }

    /// Read access to the entries, oldest first.
    pub fn messages(&self) -> (r: &Vec<ChatLogEntry>)
        ensures
            r@ == self.messages_view(),
    {
        &self.messages
    }
}

} // verus!
