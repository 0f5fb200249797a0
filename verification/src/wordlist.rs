//! Preparation of the two word lists: raw file lines become lowercase,
//! non-blank words. Reading the files themselves is the caller's concern;
//! this module takes the lines as plain values.

use vstd::prelude::*;

verus! {

/// What `str::to_lowercase` returns for the given characters. The mapping is
/// a function of the characters alone, so it is only named here; the one
/// fact stated of it is in the wrapper below.
pub uninterp spec fn lower_of(s: Seq<char>) -> Seq<char>;

/// The characters with Unicode's White_Space property, the set `str::trim`
/// strips: a line of these alone is what the loader drops as blank.
pub open spec fn is_space_char(c: char) -> bool {
    ||| c == ' '
    ||| c == '\t'
    ||| c == '\n'
    ||| c == '\r'
    ||| c == '\u{b}'
    ||| c == '\u{c}'
    ||| c == '\u{85}'
    ||| c == '\u{a0}'
    ||| c == '\u{1680}'
    ||| (0x2000 <= c as u32 && c as u32 <= 0x200a)
    ||| c == '\u{2028}'
    ||| c == '\u{2029}'
    ||| c == '\u{202f}'
    ||| c == '\u{205f}'
    ||| c == '\u{3000}'
}

/// A line is blank when every character of it is whitespace; in particular
/// the empty line is blank.
pub open spec fn is_blank_text(s: Seq<char>) -> bool {
    forall|i: int| 0 <= i < s.len() ==> is_space_char(#[trigger] s[i])
}

/// Every word of the list is non-empty.
pub open spec fn words_nonempty(words: Seq<Seq<char>>) -> bool {
    forall|i: int| 0 <= i < words.len() ==> (#[trigger] words[i]).len() > 0
}

/// The cleaned form of a list of raw lines: blank lines are dropped and the
/// remaining lines are lowercased, in their original order.
pub open spec fn sanitized_words(lines: Seq<Seq<char>>) -> Seq<Seq<char>>
    decreases lines.len(),
{
    if lines.len() == 0 {
        Seq::empty()
    } else {
        let rest = sanitized_words(lines.drop_last());
        if is_blank_text(lines.last()) {
            rest
        } else {
            rest.push(lower_of(lines.last()))
        }
    }
}

/// Relies on `str::to_lowercase`: the result depends on the characters
/// alone, and every character lowercases to at least one character, so a
/// non-empty string stays non-empty.
#[verifier::external_body]
fn to_lowercase(s: &str) -> (r: String)
    ensures
        r@ == lower_of(s@),
        s@.len() > 0 ==> r@.len() > 0,
{
    s.to_lowercase()
}

/// Decides whether one character counts as whitespace.
fn is_space(c: char) -> (r: bool)
    ensures
        r == is_space_char(c),
{
    c == ' ' || c == '\t' || c == '\n' || c == '\r' || c == '\u{b}' || c == '\u{c}'
        || c == '\u{85}' || c == '\u{a0}' || c == '\u{1680}' || (0x2000 <= c as u32 && c
        as u32 <= 0x200a) || c == '\u{2028}' || c == '\u{2029}' || c == '\u{202f}' || c
        == '\u{205f}' || c == '\u{3000}'
}

/// Decides whether a line is blank, character by character.
fn is_blank(s: &str) -> (r: bool)
    ensures
        r == is_blank_text(s@),
{
    let n: usize = s.unicode_len();
    let mut i: usize = 0;
    while i < n
        invariant
            i <= n,
            n == s@.len(),
            forall|k: int| 0 <= k < i ==> is_space_char(#[trigger] s@[k]),
        decreases n - i,
    {
        let c: char = s.get_char(i);
        if !is_space(c) {
            return false;
        }
        i += 1;
    }
    true
}

/// Turns raw word-list lines into the words the name generator uses: blank
/// lines are omitted and the text is forced to lowercase. Every returned
/// word is non-empty.
pub fn sanitize_lines(lines: Vec<String>) -> (words: Vec<String>)
    ensures
        words.deep_view() == sanitized_words(lines.deep_view()),
        words_nonempty(words.deep_view()),
{
    let n: usize = lines.len();
    let mut out: Vec<String> = Vec::new();
    let mut i: usize = 0;
    while i < n
        invariant
            i <= n,
            n == lines@.len(),
            out.deep_view() == sanitized_words(lines.deep_view().take(i as int)),
            words_nonempty(out.deep_view()),
        decreases n - i,
    {
        let ghost prefix = lines.deep_view().take(i as int);
        let line: &String = &lines[i];
        proof {
            assert(lines.deep_view().take(i + 1 as int).drop_last() =~= prefix);
            assert(lines.deep_view().take(i + 1 as int).last() == line@);
        }
        if !is_blank(line.as_str()) {
            let word = to_lowercase(line.as_str());
            proof {
                // a non-blank line has a character, so its lowercase form
                // is non-empty
                assert(line@.len() > 0);
            }
            out.push(word);
            proof {
                assert(out.deep_view() =~= sanitized_words(lines.deep_view().take(i + 1 as int)));
            }
        } else {
            proof {
                assert(out.deep_view() =~= sanitized_words(lines.deep_view().take(i + 1 as int)));
            }
        }
        i += 1;
    }
    proof {
        assert(lines.deep_view().take(n as int) =~= lines.deep_view());
    }
    out
}

} // verus!
