//! Decimal digits, and what a string holds besides them.

use vstd::prelude::*;

verus! {

/// Whether `c` is one of the ten decimal digits `0` to `9`.
pub open spec fn is_digit(c: char) -> bool {
    '0' <= c <= '9'
}

/// Whether every character of `s` is a decimal digit.
pub open spec fn all_digits(s: Seq<char>) -> bool {
    forall|i: int| 0 <= i < s.len() ==> is_digit(#[trigger] s[i])
}

/// The characters of `s` that are not decimal digits, in the order in which
/// they occur in `s`, each as often as it occurs.
pub open spec fn non_digits(s: Seq<char>) -> Seq<char> {
    s.filter(|c: char| !is_digit(c))
}

/// The empty string holds nothing but decimal digits.
pub proof fn lemma_non_digits_of_empty()
    ensures
        non_digits(Seq::empty()) == Seq::<char>::empty(),
{
    Seq::<char>::empty().lemma_filter_len(|c: char| !is_digit(c));
}

/// Appending a character to a string appends it to the string's non-digits
/// if it is none itself, and leaves them as they are if it is a digit.
pub proof fn lemma_non_digits_push(s: Seq<char>, c: char)
    ensures
        non_digits(s.push(c)) == if is_digit(c) {
            non_digits(s)
        } else {
            non_digits(s).push(c)
        },
{
    s.lemma_filter_push(c, |c: char| !is_digit(c));
}

/// A string holds no character other than decimal digits exactly when all
/// of its characters are decimal digits.
pub proof fn lemma_non_digits_empty(s: Seq<char>)
    ensures
        non_digits(s).len() == 0 <==> all_digits(s),
    decreases s.len(),
{
    if s.len() == 0 {
        assert(s == Seq::<char>::empty());
        lemma_non_digits_of_empty();
    } else {
        let front = s.drop_last();
        assert(s == front.push(s.last()));
        lemma_non_digits_empty(front);
        lemma_non_digits_push(front, s.last());
        if all_digits(s) {
            assert forall|i: int| 0 <= i < front.len() implies is_digit(#[trigger] front[i]) by {
                assert(front[i] == s[i]);
            }
        }
        if non_digits(s).len() == 0 {
            assert forall|i: int| 0 <= i < s.len() implies is_digit(#[trigger] s[i]) by {
                if i < front.len() {
                    assert(s[i] == front[i]);
                }
            }
        }
    }
}

/// Tells whether `c` is a decimal digit.
pub fn is_decimal_digit(c: char) -> (digit: bool)
    ensures
        digit == is_digit(c),
{
    '0' <= c && c <= '9'
}

/// Collects the characters of `string` that are not decimal digits.
pub fn non_digit_chars(string: &str) -> (chars: Vec<char>)
    ensures
        chars@ == non_digits(string@),
{
    let mut chars: Vec<char> = Vec::new();
    proof {
        assert(string@.take(0) == Seq::<char>::empty());
        lemma_non_digits_of_empty();
    }
    for c in it: string.chars()
        invariant
            it.seq() == string@,
            chars@ == non_digits(string@.take(it.index() as int)),
    {
        proof {
            let seen = string@.take(it.index() as int);
            assert(string@.take(it.index() + 1) == seen.push(c));
            lemma_non_digits_push(seen, c);
        }
        if !is_decimal_digit(c) {
            chars.push(c);
        }
    }
    proof {
        assert(string@.take(string@.len() as int) == string@);
    }
    chars
}

} // verus!
