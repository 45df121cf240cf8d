use vstd::prelude::*;

use crate::config::{Case, NumberPlacement};

verus! {

/// `c` is an ASCII lowercase letter.
pub open spec fn is_lower_char(c: char) -> bool {
    97 <= c as u32 <= 122
}

/// `c` is an ASCII uppercase letter.
pub open spec fn is_upper_char(c: char) -> bool {
    65 <= c as u32 <= 90
}

/// `c` is an ASCII decimal digit.
pub open spec fn is_digit_char(c: char) -> bool {
    48 <= c as u32 <= 57
}

/// `c` is an ASCII letter.
pub open spec fn is_letter_char(c: char) -> bool {
    is_lower_char(c) || is_upper_char(c)
}

/// `c` is a letter the chosen case admits.
pub open spec fn case_allows(case: Case, c: char) -> bool {
    match case {
        Case::Lowercase => is_lower_char(c),
        Case::Uppercase => is_upper_char(c),
        Case::Mixed => is_letter_char(c),
    }
}

/// `c` may stand anywhere after the first position of the generated string.
pub open spec fn body_char_ok(case: Case, numbers: NumberPlacement, c: char) -> bool {
    case_allows(case, c) || (numbers != NumberPlacement::NoNumbers && is_digit_char(c))
}

/// `c` may stand in the first position of the generated string.
pub open spec fn first_char_ok(case: Case, numbers: NumberPlacement, c: char) -> bool {
    case_allows(case, c) || (numbers == NumberPlacement::Anywhere && is_digit_char(c))
}

/// The ASCII lowercase letters, in order.
pub open spec fn lower_chars() -> Seq<char> {
    Seq::new(26, |i: int| ((97 + i) as u8) as char)
}

/// The ASCII uppercase letters, in order.
pub open spec fn upper_chars() -> Seq<char> {
    Seq::new(26, |i: int| ((65 + i) as u8) as char)
}

/// The ASCII decimal digits, in order.
pub open spec fn digit_chars() -> Seq<char> {
    Seq::new(10, |i: int| ((48 + i) as u8) as char)
}

/// The letters the chosen case admits, in order.
pub open spec fn letter_chars(case: Case) -> Seq<char> {
    match case {
        Case::Lowercase => lower_chars(),
        Case::Uppercase => upper_chars(),
        Case::Mixed => lower_chars() + upper_chars(),
    }
}

/// The alphabet every position after the first draws from: the letters the
/// case admits, followed by the digits whenever digits are allowed at all.
pub open spec fn spec_body_alphabet(case: Case, numbers: NumberPlacement) -> Seq<char> {
    if numbers == NumberPlacement::NoNumbers {
        letter_chars(case)
    } else {
        letter_chars(case) + digit_chars()
    }
}

/// The alphabet the first position draws from: the body alphabet when digits
/// may stand anywhere, the letters alone otherwise.
pub open spec fn spec_first_alphabet(case: Case, numbers: NumberPlacement) -> Seq<char> {
    if numbers == NumberPlacement::Anywhere {
        spec_body_alphabet(case, numbers)
    } else {
        letter_chars(case)
    }
}

/// Pushes the ASCII lowercase letters onto `v`, in order.
fn push_lower(v: &mut Vec<char>)
    ensures
        final(v)@ == old(v)@ + lower_chars(),
{
    let mut i: u8 = 0;
    while i < 26
        invariant
            i <= 26,
            v@ == old(v)@ + lower_chars().take(i as int),
        decreases 26 - i,
    {
        v.push((97 + i) as char);
        i = i + 1;
        proof {
            assert(v@ =~= old(v)@ + lower_chars().take(i as int));
        }
    }
    proof {
        assert(v@ =~= old(v)@ + lower_chars());
    }
}

/// Pushes the ASCII uppercase letters onto `v`, in order.
fn push_upper(v: &mut Vec<char>)
    ensures
        final(v)@ == old(v)@ + upper_chars(),
{
    let mut i: u8 = 0;
    while i < 26
        invariant
            i <= 26,
            v@ == old(v)@ + upper_chars().take(i as int),
        decreases 26 - i,
    {
        v.push((65 + i) as char);
        i = i + 1;
        proof {
            assert(v@ =~= old(v)@ + upper_chars().take(i as int));
        }
    }
    proof {
        assert(v@ =~= old(v)@ + upper_chars());
    }
}

/// Pushes the ASCII decimal digits onto `v`, in order.
fn push_digits(v: &mut Vec<char>)
    ensures
        final(v)@ == old(v)@ + digit_chars(),
{
    let mut i: u8 = 0;
    while i < 10
        invariant
            i <= 10,
            v@ == old(v)@ + digit_chars().take(i as int),
        decreases 10 - i,
    {
        v.push((48 + i) as char);
        i = i + 1;
        proof {
            assert(v@ =~= old(v)@ + digit_chars().take(i as int));
        }
    }
    proof {
        assert(v@ =~= old(v)@ + digit_chars());
    }
}

/// Builds the alphabet for every position after the first.
pub fn body_alphabet(case: Case, numbers: NumberPlacement) -> (r: Vec<char>)
    ensures
        r@ == spec_body_alphabet(case, numbers),
{
    let mut v: Vec<char> = Vec::new();
    match case {
        Case::Lowercase => push_lower(&mut v),
        Case::Uppercase => push_upper(&mut v),
        Case::Mixed => {
            push_lower(&mut v);
            push_upper(&mut v);
        },
    }
    match numbers {
        NumberPlacement::NoNumbers => {},
        _ => push_digits(&mut v),
    }
    proof {
        assert(v@ =~= spec_body_alphabet(case, numbers));
    }
    v
}

/// Builds the alphabet for the first position.
pub fn first_alphabet(case: Case, numbers: NumberPlacement) -> (r: Vec<char>)
    ensures
        r@ == spec_first_alphabet(case, numbers),
{
    match numbers {
        NumberPlacement::Anywhere => body_alphabet(case, numbers),
        _ => {
            let mut v: Vec<char> = Vec::new();
            match case {
                Case::Lowercase => push_lower(&mut v),
                Case::Uppercase => push_upper(&mut v),
                Case::Mixed => {
                    push_lower(&mut v);
                    push_upper(&mut v);
                },
            }
            proof {
                assert(v@ =~= spec_first_alphabet(case, numbers));
            }
            v
        },
    }
}

/// The body alphabet is never empty, and every character in it may stand in
/// the body of the generated string.
pub proof fn lemma_body_alphabet_ok(case: Case, numbers: NumberPlacement)
    ensures
        spec_body_alphabet(case, numbers).len() >= 26,
        forall|i: int|
            0 <= i < spec_body_alphabet(case, numbers).len() ==> body_char_ok(
                case,
                numbers,
                #[trigger] spec_body_alphabet(case, numbers)[i],
            ),
{
}

/// The first-position alphabet is never empty, and every character in it may
/// stand first in the generated string.
pub proof fn lemma_first_alphabet_ok(case: Case, numbers: NumberPlacement)
    ensures
        spec_first_alphabet(case, numbers).len() >= 26,
        forall|i: int|
            0 <= i < spec_first_alphabet(case, numbers).len() ==> first_char_ok(
                case,
                numbers,
                #[trigger] spec_first_alphabet(case, numbers)[i],
            ),
{
}

/// Every letter the chosen case admits occurs among its letters.
pub proof fn lemma_letter_chars_complete(case: Case, c: char)
    requires
        case_allows(case, c),
    ensures
        letter_chars(case).contains(c),
{
    if is_lower_char(c) {
        let i: int = c as u32 - 97;
        if case == Case::Lowercase || case == Case::Mixed {
            assert(letter_chars(case)[i] == c);
        }
    }
    if is_upper_char(c) {
        let i: int = c as u32 - 65;
        if case == Case::Uppercase {
            assert(letter_chars(case)[i] == c);
        }
        if case == Case::Mixed {
            assert(letter_chars(case)[26 + i] == c);
        }
    }
}

/// The body alphabet is complete: every character admissible in the body of
/// the generated string occurs in it, so no admissible character is ever out
/// of reach of the draw.
pub proof fn lemma_body_alphabet_complete(case: Case, numbers: NumberPlacement, c: char)
    requires
        body_char_ok(case, numbers, c),
    ensures
        spec_body_alphabet(case, numbers).contains(c),
{
    let s = spec_body_alphabet(case, numbers);
    if case_allows(case, c) {
        lemma_letter_chars_complete(case, c);
        let i = choose|i: int|
            0 <= i < letter_chars(case).len() && letter_chars(case)[i] == c;
        assert(s[i] == c);
    } else {
        let i: int = letter_chars(case).len() + (c as u32 - 48);
        assert(s[i] == c);
    }
}

/// The first-position alphabet is complete: every character admissible in
/// the first position of the generated string occurs in it.
pub proof fn lemma_first_alphabet_complete(case: Case, numbers: NumberPlacement, c: char)
    requires
        first_char_ok(case, numbers, c),
    ensures
        spec_first_alphabet(case, numbers).contains(c),
{
    if numbers == NumberPlacement::Anywhere {
        lemma_body_alphabet_complete(case, numbers, c);
    } else {
        lemma_letter_chars_complete(case, c);
    }
}

} // verus!
