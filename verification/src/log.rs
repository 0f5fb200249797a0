//! The append-only chat log: the single source of truth for entry ordering.

use vstd::prelude::*;

use crate::clock;
use crate::message::{announcement_message, announcement_text, system_author, ChatLogEntry,
    Message};

verus! {

/// Entries appear in timestamp order: append order and timestamp order agree.
pub open spec fn timestamps_ordered(s: Seq<ChatLogEntry>) -> bool {
    forall|i: int, j: int|
        0 <= i <= j < s.len() ==> s[i].timestamp_millis <= s[j].timestamp_millis
}

/// `post` is `pre` with exactly one entry carrying `msg` appended at the end.
pub open spec fn appended_one(
    pre: Seq<ChatLogEntry>,
    post: Seq<ChatLogEntry>,
    msg: Message,
) -> bool {
    &&& post.len() == pre.len() + 1
    &&& post.subrange(0, pre.len() as int) == pre
    &&& post.last().msg == msg
}

/// `post` is `pre` after appending one entry per message of `msgs`, in order.
pub open spec fn appended_all(
    pre: Seq<ChatLogEntry>,
    post: Seq<ChatLogEntry>,
    msgs: Seq<Message>,
) -> bool
    decreases msgs.len(),
{
    if msgs.len() == 0 {
        post == pre
    } else {
        exists|mid: Seq<ChatLogEntry>|
            #[trigger] appended_one(mid, post, msgs.last()) && appended_all(
                pre,
                mid,
                msgs.drop_last(),
            )
    }
}

/// The ordered, append-only sequence of chat log entries. Timestamps are
/// captured at append time and never decrease along the log, even if the
/// wall clock moves backwards between appends.
pub struct ChatLog {
    entries: Vec<ChatLogEntry>,
}

impl View for ChatLog {
    type V = Seq<ChatLogEntry>;

    closed spec fn view(&self) -> Seq<ChatLogEntry> {
        self.entries@
    }
}

impl ChatLog {
    /// The log's ordering invariant.
    pub open spec fn wf(&self) -> bool {
        timestamps_ordered(self@)
    }

    /// An empty log.
    pub fn new() -> (log: ChatLog)
        ensures
            log@ == Seq::<ChatLogEntry>::empty(),
            log.wf(),
    {
        ChatLog { entries: Vec::new() }
    }

    /// Wraps `msg` with the current time and adds it at the end. Exactly one
    /// entry is appended; every existing entry is preserved in place; the new
    /// entry's timestamp is no earlier than any already stored.
    pub fn append(&mut self, msg: Message)
        requires
            old(self).wf(),
        ensures
            final(self).wf(),
            appended_one(old(self)@, final(self)@, msg),
            old(self)@.len() > 0 ==> final(self)@.last().timestamp_millis
                >= old(self)@.last().timestamp_millis,
    {
        let now: i64 = clock::now_timestamp_millis();
        let n: usize = self.entries.len();
        let ts: i64 = if n > 0 {
            let last_ts: i64 = self.entries[n - 1].timestamp_millis;
            if last_ts > now {
                last_ts
            } else {
                now
            }
        } else {
            now
        };
        self.entries.push(ChatLogEntry { msg, timestamp_millis: ts });
        proof {
            assert(self.entries@.subrange(0, old(self)@.len() as int) =~= old(self)@);
        }
    }

    /// Appends the system entry announcing that `name` has logged on.
    pub fn announce_login(&mut self, name: &str)
        requires
            old(self).wf(),
        ensures
            final(self).wf(),
            final(self)@.len() == old(self)@.len() + 1,
            final(self)@.subrange(0, old(self)@.len() as int) == old(self)@,
            final(self)@.last().msg.author@ == system_author(),
            final(self)@.last().msg.text@ == announcement_text(name@),
    {
        let msg = announcement_message(name);
        self.append(msg);
    }

    /// Returns a copy of the full history, oldest first: exactly the entries
    /// of the log, in the order they were appended.
    pub fn snapshot(&self) -> (r: Vec<ChatLogEntry>)
        ensures
            r@ == self@,
    {
        let n: usize = self.entries.len();
        let mut out: Vec<ChatLogEntry> = Vec::new();
        let mut i: usize = 0;
        while i < n
            invariant
                i <= n,
                n == self.entries@.len(),
                out@ == self.entries@.take(i as int),
            decreases n - i,
        {
            out.push(self.entries[i].duplicate());
            proof {
                assert(self.entries@.take(i + 1 as int) =~= self.entries@.take(i as int).push(
                    self.entries@[i as int],
                ));
            }
            i += 1;
        }
        proof {
            assert(self.entries@.take(n as int) =~= self.entries@);
        }
        out
    }

    /// The number of entries currently stored.
    pub fn len(&self) -> (n: usize)
        ensures
            n == self@.len(),
    {
        self.entries.len()
    }
}

/// A snapshot taken after a sequence of appends has completed accounts for
/// every append: it holds the prior history unchanged, followed by exactly
/// one entry per appended message, in append order, with no duplication and
/// no loss.
pub proof fn lemma_appends_accounted(
    pre: Seq<ChatLogEntry>,
    post: Seq<ChatLogEntry>,
    msgs: Seq<Message>,
)
    requires
        appended_all(pre, post, msgs),
    ensures
        post.len() == pre.len() + msgs.len(),
        post.subrange(0, pre.len() as int) == pre,
        forall|k: int| 0 <= k < msgs.len() ==> post[pre.len() + k].msg == msgs[k],
    decreases msgs.len(),
{
    if msgs.len() == 0 {
        assert(post.subrange(0, pre.len() as int) =~= pre);
    } else {
        let mid = choose|mid: Seq<ChatLogEntry>|
            #[trigger] appended_one(mid, post, msgs.last()) && appended_all(
                pre,
                mid,
                msgs.drop_last(),
            );
        lemma_appends_accounted(pre, mid, msgs.drop_last());
        assert(post.subrange(0, mid.len() as int) == mid);
        assert forall|i: int| 0 <= i < mid.len() implies post[i] == mid[i] by {
            assert(post.subrange(0, mid.len() as int)[i] == post[i]);
        }
        assert(post.subrange(0, pre.len() as int) =~= pre);
        assert forall|k: int| 0 <= k < msgs.len() implies post[pre.len() + k].msg == msgs[k] by {
            if k < msgs.len() - 1 {
                assert(mid[pre.len() + k].msg == msgs.drop_last()[k]);
            } else {
                assert(post[pre.len() + k] == post.last());
            }
        }
    }
}

/// No appends at all leave the log as it was.
pub proof fn lemma_appended_all_empty(s: Seq<ChatLogEntry>)
    ensures
        appended_all(s, s, Seq::<Message>::empty()),
{
}

/// One more completed append extends the account of a sequence of appends.
pub proof fn lemma_appended_all_step(
    pre: Seq<ChatLogEntry>,
    mid: Seq<ChatLogEntry>,
    post: Seq<ChatLogEntry>,
    msgs: Seq<Message>,
    msg: Message,
)
    requires
        appended_all(pre, mid, msgs),
        appended_one(mid, post, msg),
    ensures
        appended_all(pre, post, msgs.push(msg)),
{
    assert(msgs.push(msg).drop_last() =~= msgs);
    assert(msgs.push(msg).last() == msg);
}

/// Reading the history is idempotent: two snapshots of the same log value,
/// with no append in between, are equal ordered sequences.
pub proof fn lemma_snapshot_idempotent(
    log: ChatLog,
    first: Seq<ChatLogEntry>,
    second: Seq<ChatLogEntry>,
)
    requires
        first == log@,
        second == log@,
    ensures
        first == second,
{
}

} // verus!
