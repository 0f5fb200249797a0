//! Core of a small in-memory chat service: an append-only, timestamp-ordered
//! message log behind a reader-writer lock, and a randomized display-name
//! generator that pairs an adjective with an animal sharing its first letter.

mod clock;
mod log;
mod message;
mod namegen;
mod rng;
mod session;
mod store;
mod wordlist;

pub use log::{
    appended_all, appended_one, lemma_appended_all_empty, lemma_appended_all_step,
    lemma_appends_accounted, lemma_snapshot_idempotent, timestamps_ordered, ChatLog,
};
pub use message::{
    announcement_message, announcement_text, system_author, ChatLogEntry, Message,
    MessageListResponse,
};
pub use namegen::{
    animal_has_match, first_letter_matches, is_matching_name, lists_paired, no_pair_matches,
    NameError, NameGenerator, MAX_NAME_ATTEMPTS,
};
pub use session::{announce_session, announce_session_shared};
pub use store::ChatStorage;
pub use wordlist::{
    is_blank_text, is_space_char, lower_of, sanitize_lines, sanitized_words, words_nonempty,
};
