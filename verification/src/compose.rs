use vstd::prelude::*;
use vstd::string::StringExecFns;

use crate::charset::{is_digit_char, is_lower_char};
use crate::config::Position;

verus! {

/// `c` may appear in a slug: a lowercase ASCII letter, a digit, or a hyphen.
pub open spec fn is_slug_char(c: char) -> bool {
    is_lower_char(c) || is_digit_char(c) || c == '-'
}

/// The random string joined with the base name, if one was given: the base
/// name comes first under `Prepend` and last under `Append`, with a hyphen
/// between the two parts.
pub open spec fn spec_compose(
    rand: Seq<char>,
    name: Option<Seq<char>>,
    position: Position,
) -> Seq<char> {
    match name {
        Some(n) => match position {
            Position::Prepend => n + seq!['-'] + rand,
            Position::Append => rand + seq!['-'] + n,
        },
        None => rand,
    }
}

/// Joins the random string and the optional base name in the requested order.
pub fn compose(rand: String, name: Option<String>, position: Position) -> (r: String)
    ensures
        r@ == spec_compose(rand@, name.deep_view(), position),
{
    proof {
        reveal_strlit("-");
        assert("-"@ =~= seq!['-']);
    }
    match name {
        Some(n) => match position {
            Position::Prepend => {
                let mut out = n;
                out.append("-");
                out.append(rand.as_str());
                out
            },
            Position::Append => {
                let mut out = rand;
                out.append("-");
                out.append(n.as_str());
                out
            },
        },
        None => rand,
    }
}

/// What slug normalization makes of `s`: a pure function of the characters
/// of `s` alone.
pub uninterp spec fn slug_of(s: Seq<char>) -> Seq<char>;

/// Relies on slug::slugify: the result depends on the input characters
/// alone, and consists only of lowercase ASCII letters, digits and hyphens.
#[verifier::external_body]
fn slugify_str(s: &str) -> (r: String)
    ensures
        r@ == slug_of(s@),
        forall|i: int| 0 <= i < r@.len() ==> is_slug_char(#[trigger] r@[i]),
{
    slug::slugify(s)
}

/// The printed line: the random string joined with the optional base name,
/// normalized into slug form.
pub fn slug_line(rand: String, name: Option<String>, position: Position) -> (r: String)
    ensures
        r@ == slug_of(spec_compose(rand@, name.deep_view(), position)),
        forall|i: int| 0 <= i < r@.len() ==> is_slug_char(#[trigger] r@[i]),
{
    let joined = compose(rand, name, position);
    slugify_str(joined.as_str())
}

} // verus!
