//! The session announcer: couples name assignment to the chat log. A new
//! session obtains a name from the generator, records a system entry that
//! the name has logged on, and hands the same name back to the caller.

use vstd::prelude::*;

use crate::log::ChatLog;
use crate::message::{announcement_text, system_author};
use crate::namegen::{is_matching_name, lists_paired, no_pair_matches, NameError, NameGenerator};
use crate::store::ChatStorage;

verus! {

/// Assigns a name for a new session and announces it in the given log:
/// exactly one entry is appended, authored by the system, whose text
/// announces precisely the returned name. When the generator reports a
/// word-list mismatch, the log is left untouched and the error is passed on.
pub fn announce_session(generator: &NameGenerator, log: &mut ChatLog) -> (r: Result<
    String,
    NameError,
>)
    requires
        old(log).wf(),
    ensures
        final(log).wf(),
        r is Ok ==> is_matching_name(
            generator.adjective_words(),
            generator.animal_words(),
            r->Ok_0@,
        ),
        r is Ok ==> final(log)@.len() == old(log)@.len() + 1,
        r is Ok ==> final(log)@.subrange(0, old(log)@.len() as int) == old(log)@,
        r is Ok ==> final(log)@.last().msg.author@ == system_author(),
        r is Ok ==> final(log)@.last().msg.text@ == announcement_text(r->Ok_0@),
        r is Err ==> final(log)@ == old(log)@,
        lists_paired(generator.adjective_words(), generator.animal_words()) ==> r is Ok,
        no_pair_matches(generator.adjective_words(), generator.animal_words()) ==> r is Err,
{
    match generator.get_name() {
        Ok(name) => {
            log.announce_login(name.as_str());
            Ok(name)
        },
        Err(e) => Err(e),
    }
}

/// The same assignment against the shared store: the announcement entry goes
/// through the store's lock, so this can be called concurrently with posts
/// and reads. The name is assigned first and returned even though nothing
/// more can be said about the shared history it was recorded in.
pub fn announce_session_shared(generator: &NameGenerator, storage: &ChatStorage) -> (r: Result<
    String,
    NameError,
>)
    ensures
        r is Ok ==> is_matching_name(
            generator.adjective_words(),
            generator.animal_words(),
            r->Ok_0@,
        ),
        lists_paired(generator.adjective_words(), generator.animal_words()) ==> r is Ok,
        no_pair_matches(generator.adjective_words(), generator.animal_words()) ==> r is Err,
{
    match generator.get_name() {
        Ok(name) => {
            storage.announce_login(name.as_str());
            Ok(name)
        },
        Err(e) => Err(e),
    }
}

} // verus!
