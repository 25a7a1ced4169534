//! The shape of a guess: five characters, every one of them lowercase.
use vstd::prelude::*;
use vstd::string::StrSliceExecFns;

verus! {

/// The number of characters in a word of the game.
pub const WORD_LENGTH: usize = 5;

/// Whether `char::is_lowercase` holds of `c`: whether Unicode gives the
/// character the property `Lowercase`.
pub uninterp spec fn char_is_lowercase(c: char) -> bool;

/// `char::is_lowercase` of the standard library. What it answers depends on
/// the character alone; the answer is known here only by its name.
pub assume_specification[ char::is_lowercase ](c: char) -> (r: bool)
    ensures
        r == char_is_lowercase(c),
;

/// Every character of `word` is lowercase.
pub open spec fn all_lowercase(word: Seq<char>) -> bool {
    forall|i: int| 0 <= i < word.len() ==> char_is_lowercase(#[trigger] word[i])
}

/// A word that may be sent to the oracle: exactly five lowercase characters.
pub open spec fn valid_word(word: Seq<char>) -> bool {
    word.len() == WORD_LENGTH && all_lowercase(word)
}

/// The rule on a guess, given what is known of each of its characters:
/// `lowercase[i]` tells whether the character at place `i` is lowercase.
pub open spec fn shape_accepted(lowercase: Seq<bool>) -> bool {
    lowercase.len() == WORD_LENGTH && forall|i: int| 0 <= i < lowercase.len() ==> lowercase[i]
}

/// For each character of `word`, whether it is lowercase.
pub open spec fn lowercase_marks(word: Seq<char>) -> Seq<bool> {
    Seq::new(word.len(), |i: int| char_is_lowercase(word[i]))
}

/// Decides the rule on a guess from the marks of its characters.
pub fn accepts_shape(lowercase: &Vec<bool>) -> (r: bool)
    ensures
        r == shape_accepted(lowercase@),
{
    if lowercase.len() != WORD_LENGTH {
        return false;
    }
    let mut i: usize = 0;
    while i < lowercase.len()
        invariant
            i <= lowercase.len(),
            forall|j: int| 0 <= j < i ==> lowercase[j],
        decreases lowercase.len() - i,
    {
        if !lowercase[i] {
            return false;
        }
        i += 1;
    }
    true
}

/// Marks each character of `word` as lowercase or not.
pub fn mark_lowercase(word: &str) -> (r: Vec<bool>)
    ensures
        r@ == lowercase_marks(word@),
{
    let n: usize = word.unicode_len();
    let mut marks: Vec<bool> = Vec::new();
    let mut i: usize = 0;
    while i < n
        invariant
            n == word@.len(),
            i <= n,
            marks@ == lowercase_marks(word@.subrange(0, i as int)),
        decreases n - i,
    {
        let c: char = word.get_char(i);
        marks.push(c.is_lowercase());
        i += 1;
        assert(marks@ =~= lowercase_marks(word@.subrange(0, i as int)));
    }
    assert(word@.subrange(0, n as int) =~= word@);
    marks
}

/// A valid word is one whose marks meet the rule.
pub proof fn lemma_valid_word_by_marks(word: Seq<char>)
    ensures
        valid_word(word) == shape_accepted(lowercase_marks(word)),
{
    let marks = lowercase_marks(word);
    if valid_word(word) {
        assert forall|i: int| 0 <= i < marks.len() implies marks[i] by {
            assert(char_is_lowercase(word[i]));
        }
    }
    if shape_accepted(marks) {
        assert forall|i: int| 0 <= i < word.len() implies char_is_lowercase(
            #[trigger] word[i],
        ) by {
            assert(marks[i]);
        }
    }
}

/// Decides whether `word` may be sent to the oracle.
pub fn is_valid_word(word: &str) -> (r: bool)
    ensures
        r == valid_word(word@),
{
    if word.unicode_len() != WORD_LENGTH {
        return false;
    }
    let marks = mark_lowercase(word);
    proof {
        lemma_valid_word_by_marks(word@);
    }
    accepts_shape(&marks)
}

} // verus!
