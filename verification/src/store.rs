//! The shared, concurrency-safe chat store: a reader-writer lock around the
//! append-only log, usable by any number of concurrent callers through `&self`.

use vstd::prelude::*;
use vstd::rwlock::{RwLock, RwLockPredicate};

use crate::log::{timestamps_ordered, ChatLog};
use crate::message::{announcement_message, ChatLogEntry, Message};

verus! {

/// The lock invariant: every log value stored in the lock is well formed,
/// so every reader observes entries in timestamp order.
pub struct OrderedLogPred {}

impl RwLockPredicate<ChatLog> for OrderedLogPred {
    open spec fn inv(self, log: ChatLog) -> bool {
        log.wf()
    }
}

/// Data storage for the chats. All mutation is serialized through one
/// exclusive lock around the log; readers copy the history while holding a
/// read lock and release it before doing anything else, so the lock is held
/// only for the duration of one append or one copy, never for I/O.
///
/// None of the operations can fail, and none has a precondition: the lock
/// invariant carries the log's well-formedness from call to call.
pub struct ChatStorage {
    entries: RwLock<ChatLog, OrderedLogPred>,
}

impl ChatStorage {
    /// An empty store.
    pub fn new() -> ChatStorage {
        ChatStorage { entries: RwLock::new(ChatLog::new(), Ghost(OrderedLogPred {})) }
    }

    /// Wraps `msg` with the current time and appends it to the shared log.
    /// Always succeeds; the entry becomes visible to every snapshot taken
    /// after this call completes.
    pub fn publish_message(&self, msg: Message) {
        let (mut log, handle) = self.entries.acquire_write();
        log.append(msg);
        handle.release_write(log);
    }

    /// Appends the system entry announcing that `name` has logged on.
    pub fn announce_login(&self, name: &str) {
        let msg = announcement_message(name);
        self.publish_message(msg);
    }

    /// Returns a copy of the full history, oldest first, reflecting every
    /// append that completed before this call began. The copy is taken under
    /// a read lock, so no concurrent append is ever half visible.
    pub fn all_messages(&self) -> (r: Vec<ChatLogEntry>)
        ensures
            timestamps_ordered(r@),
    {
        let handle = self.entries.acquire_read();
        let r = handle.borrow().snapshot();
        handle.release_read();
        r
    }
}

} // verus!
