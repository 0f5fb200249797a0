//! The display-name generator: a random adjective paired with a random
//! animal whose first letters agree.

use vstd::prelude::*;
use vstd::string::StringExecFns;

use crate::rng::random_index;
use crate::wordlist::words_nonempty;

verus! {

/// The number of random animal draws `get_name` makes before it reports a
/// word-list mismatch instead of retrying forever.
pub const MAX_NAME_ATTEMPTS: usize = 64;

/// The adjective's first letter equals the animal's first letter.
pub open spec fn first_letter_matches(adjective: Seq<char>, animal: Seq<char>) -> bool {
    adjective.len() > 0 && animal.len() > 0 && adjective[0] == animal[0]
}

/// Some adjective of the list opens with the animal's first letter.
pub open spec fn animal_has_match(adjectives: Seq<Seq<char>>, animal: Seq<char>) -> bool {
    exists|i: int|
        0 <= i < adjectives.len() && first_letter_matches(#[trigger] adjectives[i], animal)
}

/// The pairing invariant the word-list operator must uphold: every animal
/// has at least one adjective sharing its first letter.
pub open spec fn lists_paired(adjectives: Seq<Seq<char>>, animals: Seq<Seq<char>>) -> bool {
    forall|j: int| 0 <= j < animals.len() ==> animal_has_match(adjectives, #[trigger] animals[j])
}

/// The opposite extreme: no animal has any matching adjective at all.
pub open spec fn no_pair_matches(adjectives: Seq<Seq<char>>, animals: Seq<Seq<char>>) -> bool {
    forall|j: int| 0 <= j < animals.len() ==> !animal_has_match(adjectives, #[trigger] animals[j])
}

/// `name` is `"<adjective> <animal>"` for some adjective and animal of the
/// lists whose first letters agree.
pub open spec fn is_matching_name(
    adjectives: Seq<Seq<char>>,
    animals: Seq<Seq<char>>,
    name: Seq<char>,
) -> bool {
    exists|i: int, j: int|
        0 <= i < adjectives.len() && 0 <= j < animals.len() && first_letter_matches(
            #[trigger] adjectives[i],
            #[trigger] animals[j],
        ) && name == adjectives[i] + seq![' '] + animals[j]
}

/// The generator's one error: the two word lists are mismatched, so the
/// bounded retry loop could not find a pair with matching first letters.
#[derive(Debug, PartialEq, Eq)]
pub enum NameError {
    WordListMismatch,
}

/// Produces display names from two fixed word lists of lowercase, non-blank
/// words, supplied once at construction and never mutated. The random source
/// is the operating system's, which keeps no in-process state, so the
/// generator is freely shared across concurrent callers.
pub struct NameGenerator {
    adjectives: Vec<String>,
    animals: Vec<String>,
}

impl NameGenerator {
    /// The adjective list, one word per element.
    pub closed spec fn adjective_words(&self) -> Seq<Seq<char>> {
        self.adjectives.deep_view()
    }

    /// The animal list, one word per element.
    pub closed spec fn animal_words(&self) -> Seq<Seq<char>> {
        self.animals.deep_view()
    }

    #[verifier::type_invariant]
    spec fn wf(&self) -> bool {
        &&& self.adjectives@.len() > 0
        &&& self.animals@.len() > 0
        &&& words_nonempty(self.adjective_words())
        &&& words_nonempty(self.animal_words())
    }

    /// Builds a generator over the two word lists. Both lists must be
    /// non-empty and hold non-empty words; the loader guarantees this and
    /// treats a missing list as a fatal startup error.
    pub fn new(adjectives: Vec<String>, animals: Vec<String>) -> (generator: NameGenerator)
        requires
            adjectives@.len() > 0,
            animals@.len() > 0,
            words_nonempty(adjectives.deep_view()),
            words_nonempty(animals.deep_view()),
        ensures
            generator.adjective_words() == adjectives.deep_view(),
            generator.animal_words() == animals.deep_view(),
    {
        NameGenerator { adjectives, animals }
    }

    /// Draws a random animal, filters the adjectives to those opening with
    /// the animal's first letter, and returns a random one of them paired
    /// with the animal. An animal without a match causes a retry with a new
    /// random animal; after `MAX_NAME_ATTEMPTS` failed draws the generator
    /// reports the word-list mismatch instead of looping forever.
    ///
    /// Under the pairing invariant every draw succeeds, so the result is
    /// then always a name; and a name, whenever returned, always pairs words
    /// of the two lists with equal first letters.
    pub fn get_name(&self) -> (r: Result<String, NameError>)
        ensures
            r is Ok ==> is_matching_name(self.adjective_words(), self.animal_words(), r->Ok_0@),
            lists_paired(self.adjective_words(), self.animal_words()) ==> r is Ok,
            no_pair_matches(self.adjective_words(), self.animal_words()) ==> r is Err,
    {
        proof {
            use_type_invariant(self);
        }
        let ghost adjs = self.adjective_words();
        let ghost anims = self.animal_words();
        let mut attempt: usize = 0;
        while attempt < MAX_NAME_ATTEMPTS
            invariant
                self.wf(),
                adjs == self.adjective_words(),
                anims == self.animal_words(),
                attempt > 0 ==> !lists_paired(adjs, anims),
            decreases MAX_NAME_ATTEMPTS - attempt,
        {
            let j: usize = random_index(self.animals.len());
            let animal: &String = &self.animals[j];
            proof {
                assert(anims[j as int] == animal@);
                assert(anims[j as int].len() > 0);
            }
            let first: char = animal.as_str().get_char(0);
            let m: usize = self.adjectives.len();
            let mut candidates: Vec<usize> = Vec::new();
            let mut idx: usize = 0;
            while idx < m
                invariant
                    self.wf(),
                    adjs == self.adjective_words(),
                    anims == self.animal_words(),
                    idx <= m,
                    m == self.adjectives@.len(),
                    j < self.animals@.len(),
                    anims[j as int].len() > 0,
                    first == anims[j as int][0],
                    forall|t: int|
                        0 <= t < candidates@.len() ==> #[trigger] candidates@[t] < m
                            && first_letter_matches(adjs[candidates@[t] as int], anims[j as int]),
                    forall|k: int|
                        0 <= k < idx && first_letter_matches(#[trigger] adjs[k], anims[j as int])
                            ==> candidates@.contains(k as usize),
                decreases m - idx,
            {
                proof {
                    assert(adjs[idx as int] == self.adjectives@[idx as int]@);
                    assert(adjs[idx as int].len() > 0);
                }
                let ghost previous = candidates@;
                let adjective_first: char = self.adjectives[idx].as_str().get_char(0);
                if adjective_first == first {
                    candidates.push(idx);
                }
                proof {
                    assert forall|k: int|
                        0 <= k < idx + 1 && first_letter_matches(
                            #[trigger] adjs[k],
                            anims[j as int],
                        ) implies candidates@.contains(k as usize) by {
                        if k < idx {
                            let t: int = choose|t: int|
                                0 <= t < previous.len() && previous[t] == k as usize;
                            assert(candidates@[t] == k as usize);
                        } else {
                            assert(candidates@.last() == k as usize);
                        }
                    }
                }
                idx += 1;
            }
            if candidates.len() > 0 {
                let k: usize = random_index(candidates.len());
                let chosen: usize = candidates[k];
                let adjective: &String = &self.adjectives[chosen];
                let mut name: String = adjective.clone();
                name.append(" ");
                name.append(animal.as_str());
                proof {
                    reveal_strlit(" ");
                    assert(" "@ =~= seq![' ']);
                    assert(adjs[chosen as int] == adjective@);
                    assert(name@ == adjs[chosen as int] + seq![' '] + anims[j as int]);
                    assert(is_matching_name(adjs, anims, name@));
                    assert(animal_has_match(adjs, anims[j as int]));
                    assert(!no_pair_matches(adjs, anims));
                }
                return Ok(name);
            }
            proof {
                assert forall|i: int|
                    0 <= i < adjs.len() implies !first_letter_matches(
                    #[trigger] adjs[i],
                    anims[j as int],
                ) by {
                    if first_letter_matches(adjs[i], anims[j as int]) {
                        assert(candidates@.contains(i as usize));
                    }
                }
                assert(!animal_has_match(adjs, anims[j as int]));
                assert(!lists_paired(adjs, anims));
            }
            attempt += 1;
        }
        Err(NameError::WordListMismatch)
    }
}

} // verus!
