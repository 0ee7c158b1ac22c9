//! Pig latin: a word is turned round at its first vowel.

use vstd::prelude::*;

verus! {

/// The letters that count as vowels: the five lower-case vowels and `y`.
pub open spec fn vowel(c: char) -> bool {
    c == 'a' || c == 'e' || c == 'i' || c == 'o' || c == 'u' || c == 'y'
}

/// The index of the first vowel of `s`, if it has one.
pub open spec fn first_vowel(s: Seq<char>) -> Option<int>
    decreases s.len(),
{
    if s.len() == 0 {
        None
    } else if vowel(s.last()) {
        match first_vowel(s.drop_last()) {
            Some(i) => Some(i),
            None => Some(s.len() - 1),
        }
    } else {
        first_vowel(s.drop_last())
    }
}

/// The pig-latin form of `s`.
///
/// A word that starts with a vowel gets `-hay` at its end. Any other word
/// with a vowel is split before its first vowel: the second part comes
/// first, then `-`, the first part, and `ay`. A word without a vowel,
/// the empty one too, stays as it is.
pub open spec fn pig_latin(s: Seq<char>) -> Seq<char> {
    match first_vowel(s) {
        None => s,
        Some(i) => if i == 0 {
            s + "-hay"@
        } else {
            s.skip(i) + "-"@ + s.take(i) + "ay"@
        },
    }
}

/// What `first_vowel` finds is a vowel with none before it, and it finds
/// nothing only where there is no vowel at all.
pub proof fn lemma_first_vowel(s: Seq<char>)
    ensures
        match first_vowel(s) {
            Some(i) => 0 <= i < s.len() && vowel(s[i]) && forall|j: int|
                0 <= j < i ==> !vowel(s[j]),
            None => forall|j: int| 0 <= j < s.len() ==> !vowel(s[j]),
        },
    decreases s.len(),
{
    if s.len() > 0 {
        let front = s.drop_last();
        lemma_first_vowel(front);
        assert forall|j: int| 0 <= j < front.len() implies front[j] == s[j] by {}
    }
}

/// Whether `c` is a vowel.
pub fn is_vowel(c: char) -> (yes: bool)
    ensures
        yes == vowel(c),
{
    c == 'a' || c == 'e' || c == 'i' || c == 'o' || c == 'u' || c == 'y'
}

/// Translates one word to pig latin.
pub fn anslatetray(ingstray: &str) -> (translated: String)
    ensures
        translated@ == pig_latin(ingstray@),
{
    let total = ingstray.unicode_len();
    let mut position: usize = 0;
    let mut index: Option<usize> = None;
    for c in it: ingstray.chars()
        invariant
            it.seq() == ingstray@,
            total == ingstray@.len(),
            position == it.index(),
            index matches Some(i) ==> first_vowel(ingstray@.take(position as int)) == Some(
                i as int,
            ),
            index is None ==> first_vowel(ingstray@.take(position as int)) is None,
    {
        proof {
            let longer = ingstray@.take(position + 1);
            assert(longer.drop_last() == ingstray@.take(position as int));
            lemma_first_vowel(ingstray@.take(position as int));
        }
        if index.is_none() && is_vowel(c) {
            index = Some(position);
        }
        position += 1;
    }
    proof {
        assert(ingstray@.take(total as int) == ingstray@);
        lemma_first_vowel(ingstray@);
    }
    match index {
        None => ingstray.to_string(),
        Some(0) => {
            let mut out = ingstray.to_string();
            out.append("-hay");
            out
        },
        Some(i) => {
            proof {
                assert(ingstray@.subrange(i as int, total as int) == ingstray@.skip(i as int));
                assert(ingstray@.subrange(0, i as int) == ingstray@.take(i as int));
            }
            let mut out = ingstray.substring_char(i, total).to_string();
            out.append("-");
            out.append(ingstray.substring_char(0, i));
            out.append("ay");
            out
        },
    }
}

} // verus!
