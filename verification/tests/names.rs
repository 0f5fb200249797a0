use chatroom::{announce_session, announce_session_shared, ChatLog, ChatStorage, NameError,
    NameGenerator};

fn word_vec(words: &[&str]) -> Vec<String> {
    words.iter().map(|w| String::from(*w)).collect()
}

#[test]
fn matched_lists_always_name_the_one_animal() {
    let generator = NameGenerator::new(word_vec(&["brave", "bold"]), word_vec(&["bear"]));
    for _ in 0..50 {
        let name = generator.get_name().expect("paired lists must yield a name");
        assert!(name == "brave bear" || name == "bold bear");
    }
}

#[test]
fn names_pair_words_with_equal_first_letters() {
    let adjectives = ["angry", "brave", "calm"];
    let animals = ["ant", "bear", "cat"];
    let generator = NameGenerator::new(word_vec(&adjectives), word_vec(&animals));
    for _ in 0..50 {
        let name = generator.get_name().expect("paired lists must yield a name");
        let (adjective, animal) = name.split_once(' ').expect("name has one space");
        assert!(adjectives.contains(&adjective));
        assert!(animals.contains(&animal));
        assert_eq!(
            adjective.chars().next().unwrap(),
            animal.chars().next().unwrap()
        );
    }
}

#[test]
fn mismatched_lists_report_the_mismatch() {
    let generator = NameGenerator::new(word_vec(&["apple"]), word_vec(&["bear"]));
    assert_eq!(generator.get_name(), Err(NameError::WordListMismatch));
}

#[test]
fn announce_session_returns_the_announced_name() {
    let generator = NameGenerator::new(word_vec(&["brave", "bold"]), word_vec(&["bear"]));
    let mut log = ChatLog::new();
    let name = announce_session(&generator, &mut log).expect("paired lists must yield a name");
    let snapshot = log.snapshot();
    assert_eq!(snapshot.len(), 1);
    assert_eq!(snapshot[0].msg.author, "SYSTEM");
    assert_eq!(snapshot[0].msg.text, format!("`{}` has logged on.", name));
}

#[test]
fn announce_session_shared_records_one_entry() {
    let generator = NameGenerator::new(word_vec(&["calm"]), word_vec(&["cat"]));
    let storage = ChatStorage::new();
    let name =
        announce_session_shared(&generator, &storage).expect("paired lists must yield a name");
    assert_eq!(name, "calm cat");
    let snapshot = storage.all_messages();
    assert_eq!(snapshot.len(), 1);
    assert_eq!(snapshot[0].msg.author, "SYSTEM");
    assert_eq!(snapshot[0].msg.text, "`calm cat` has logged on.");
}

#[test]
fn announce_session_mismatch_leaves_log_unchanged() {
    let generator = NameGenerator::new(word_vec(&["apple"]), word_vec(&["bear"]));
    let mut log = ChatLog::new();
    let outcome = announce_session(&generator, &mut log);
    assert_eq!(outcome, Err(NameError::WordListMismatch));
    assert_eq!(log.snapshot().len(), 0);
}
