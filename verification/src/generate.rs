use rand::Rng;
use vstd::prelude::*;

use crate::charset::{
    body_alphabet, body_char_ok, first_alphabet, first_char_ok, is_digit_char, is_letter_char,
    is_lower_char, is_upper_char, lemma_body_alphabet_ok, lemma_first_alphabet_ok,
    spec_body_alphabet,
};
use crate::config::{Case, NumberPlacement};

verus! {

/// Relies on rand::Rng::gen_range over `0..n` through rand::thread_rng: the
/// result is drawn uniformly from the range, so it is always below `n`; the
/// call panics only on an empty range, which `n >= 1` rules out.
#[verifier::external_body]
fn random_index(n: usize) -> (r: usize)
    requires
        n >= 1,
    ensures
        r < n,
{
    rand::thread_rng().gen_range(0..n)
}

/// Relies on String's FromIterator over char: collecting characters yields
/// the string of exactly those characters, in order.
#[verifier::external_body]
fn chars_to_string(v: Vec<char>) -> (r: String)
    ensures
        r@ == v@,
{
    v.into_iter().collect()
}

/// Generates a random string of exactly `len` characters. The first
/// character is drawn uniformly from the first-position alphabet, every
/// later character uniformly and independently from the body alphabet.
pub fn rand_string(len: usize, case: Case, number_placement: NumberPlacement) -> (r: String)
    requires
        len >= 1,
    ensures
        r@.len() == len,
        first_char_ok(case, number_placement, r@[0]),
        forall|i: int| 1 <= i < r@.len() ==> body_char_ok(case, number_placement, #[trigger] r@[i]),
{
    proof {
        lemma_body_alphabet_ok(case, number_placement);
        lemma_first_alphabet_ok(case, number_placement);
    }
    let body = body_alphabet(case, number_placement);
    let first = first_alphabet(case, number_placement);
    let mut chars: Vec<char> = Vec::new();
    let fi = random_index(first.len());
    chars.push(first[fi]);
    let mut k: usize = 1;
    while k < len
        invariant
            1 <= k <= len,
            chars@.len() == k,
            body@ == spec_body_alphabet(case, number_placement),
            body@.len() >= 26,
            first_char_ok(case, number_placement, chars@[0]),
            forall|i: int|
                1 <= i < k ==> body_char_ok(case, number_placement, #[trigger] chars@[i]),
        decreases len - k,
    {
        proof {
            lemma_body_alphabet_ok(case, number_placement);
        }
        let bi = random_index(body.len());
        chars.push(body[bi]);
        k = k + 1;
    }
    chars_to_string(chars)
}

/// Unless digits are allowed anywhere, a string whose first character the
/// first-position alphabet admits never starts with a digit.
pub proof fn lemma_first_char_never_digit(case: Case, numbers: NumberPlacement, s: Seq<char>)
    requires
        numbers != NumberPlacement::Anywhere,
        s.len() >= 1,
        first_char_ok(case, numbers, s[0]),
    ensures
        !is_digit_char(s[0]),
{
}

/// When digits are excluded, no character of a string built from the two
/// alphabets is a digit.
pub proof fn lemma_no_digits_at_all(case: Case, numbers: NumberPlacement, s: Seq<char>)
    requires
        numbers == NumberPlacement::NoNumbers,
        s.len() >= 1,
        first_char_ok(case, numbers, s[0]),
        forall|i: int| 1 <= i < s.len() ==> body_char_ok(case, numbers, #[trigger] s[i]),
    ensures
        forall|i: int| 0 <= i < s.len() ==> !is_digit_char(#[trigger] s[i]),
{
}

/// Every letter of a string built from the two alphabets follows the chosen
/// case: all lowercase under `Lowercase`, all uppercase under `Uppercase`.
pub proof fn lemma_letters_follow_case(case: Case, numbers: NumberPlacement, s: Seq<char>)
    requires
        s.len() >= 1,
        first_char_ok(case, numbers, s[0]),
        forall|i: int| 1 <= i < s.len() ==> body_char_ok(case, numbers, #[trigger] s[i]),
    ensures
        case == Case::Lowercase ==> forall|i: int|
            0 <= i < s.len() && is_letter_char(#[trigger] s[i]) ==> is_lower_char(s[i]),
        case == Case::Uppercase ==> forall|i: int|
            0 <= i < s.len() && is_letter_char(#[trigger] s[i]) ==> is_upper_char(s[i]),
{
}

} // verus!
