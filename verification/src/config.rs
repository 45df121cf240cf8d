use vstd::prelude::*;
use vstd::string::StringExecFns;

verus! {

/// Where the base name is placed relative to the random string.
#[derive(Clone, Copy, Debug, PartialEq, Eq, Structural)]
pub enum Position {
    /// Prepend the base name
    Prepend,
    /// Append the base name
    Append,
}

/// Letter case of the generated string.
#[derive(Clone, Copy, Debug, PartialEq, Eq, Structural)]
pub enum Case {
    /// All lowercase letters
    Lowercase,
    /// All uppercase letters
    Uppercase,
    /// Mixed uppercase and lowercase letters
    Mixed,
}

/// Where digits may appear in the generated string.
#[derive(Clone, Copy, Debug, PartialEq, Eq, Structural)]
pub enum NumberPlacement {
    /// No numbers
    NoNumbers,
    /// Allow numbers anywhere
    Anywhere,
    /// Anywhere but first
    NotFirst,
}

impl Position {
    /// The hyphenated lowercase name of this variant.
    pub open spec fn spec_name(self) -> Seq<char> {
        match self {
            Position::Prepend => "prepend"@,
            Position::Append => "append"@,
        }
    }

    /// The command-line name of this variant.
    pub fn name(&self) -> (r: &'static str)
        ensures
            r@ == self.spec_name(),
    {
        match self {
            Position::Prepend => "prepend",
            Position::Append => "append",
        }
    }

    /// The variant whose name is `s`, if there is one.
    pub fn from_name(s: &String) -> (r: Option<Position>)
        ensures
            match r {
                Some(p) => s@ == p.spec_name(),
                None => forall|p: Position| s@ != #[trigger] p.spec_name(),
            },
    {
        let prepend: String = String::from_str("prepend");
        let append: String = String::from_str("append");
        if *s == prepend {
            Some(Position::Prepend)
        } else if *s == append {
            Some(Position::Append)
        } else {
            None
        }
    }
}

/// Each position variant has a name of its own, so the name determines the
/// variant: parsing a printed name gives back the variant it was printed from.
pub proof fn lemma_position_name_injective(a: Position, b: Position)
    ensures
        a.spec_name() == b.spec_name() ==> a == b,
{
    reveal_strlit("prepend");
    reveal_strlit("append");
    assert("prepend"@.len() == 7);
    assert("append"@.len() == 6);
}

impl Case {
    /// The hyphenated lowercase name of this variant.
    pub open spec fn spec_name(self) -> Seq<char> {
        match self {
            Case::Lowercase => "lowercase"@,
            Case::Uppercase => "uppercase"@,
            Case::Mixed => "mixed"@,
        }
    }

    /// The command-line name of this variant.
    pub fn name(&self) -> (r: &'static str)
        ensures
            r@ == self.spec_name(),
    {
        match self {
            Case::Lowercase => "lowercase",
            Case::Uppercase => "uppercase",
            Case::Mixed => "mixed",
        }
    }

    /// The variant whose name is `s`, if there is one.
    pub fn from_name(s: &String) -> (r: Option<Case>)
        ensures
            match r {
                Some(c) => s@ == c.spec_name(),
                None => forall|c: Case| s@ != #[trigger] c.spec_name(),
            },
    {
        let lowercase: String = String::from_str("lowercase");
        let uppercase: String = String::from_str("uppercase");
        let mixed: String = String::from_str("mixed");
        if *s == lowercase {
            Some(Case::Lowercase)
        } else if *s == uppercase {
            Some(Case::Uppercase)
        } else if *s == mixed {
            Some(Case::Mixed)
        } else {
            None
        }
    }
}

/// Each case variant has a name of its own, so the name determines the
/// variant: parsing a printed name gives back the variant it was printed from.
pub proof fn lemma_case_name_injective(a: Case, b: Case)
    ensures
        a.spec_name() == b.spec_name() ==> a == b,
{
    reveal_strlit("lowercase");
    reveal_strlit("uppercase");
    reveal_strlit("mixed");
    assert("lowercase"@[0] == 'l');
    assert("uppercase"@[0] == 'u');
    assert("mixed"@.len() == 5);
    assert("lowercase"@.len() == 9);
    assert("uppercase"@.len() == 9);
}

impl NumberPlacement {
    /// The hyphenated lowercase name of this variant.
    pub open spec fn spec_name(self) -> Seq<char> {
        match self {
            NumberPlacement::NoNumbers => "none"@,
            NumberPlacement::Anywhere => "anywhere"@,
            NumberPlacement::NotFirst => "not-first"@,
        }
    }

    /// The command-line name of this variant.
    pub fn name(&self) -> (r: &'static str)
        ensures
            r@ == self.spec_name(),
    {
        match self {
            NumberPlacement::NoNumbers => "none",
            NumberPlacement::Anywhere => "anywhere",
            NumberPlacement::NotFirst => "not-first",
        }
    }

    /// The variant whose name is `s`, if there is one.
    pub fn from_name(s: &String) -> (r: Option<NumberPlacement>)
        ensures
            match r {
                Some(n) => s@ == n.spec_name(),
                None => forall|n: NumberPlacement| s@ != #[trigger] n.spec_name(),
            },
    {
        let none: String = String::from_str("none");
        let anywhere: String = String::from_str("anywhere");
        let not_first: String = String::from_str("not-first");
        if *s == none {
            Some(NumberPlacement::NoNumbers)
        } else if *s == anywhere {
            Some(NumberPlacement::Anywhere)
        } else if *s == not_first {
            Some(NumberPlacement::NotFirst)
        } else {
            None
        }
    }
}

/// Each placement variant has a name of its own, so the name determines the
/// variant: parsing a printed name gives back the variant it was printed from.
pub proof fn lemma_number_placement_name_injective(a: NumberPlacement, b: NumberPlacement)
    ensures
        a.spec_name() == b.spec_name() ==> a == b,
{
    reveal_strlit("none");
    reveal_strlit("anywhere");
    reveal_strlit("not-first");
    assert("none"@.len() == 4);
    assert("anywhere"@.len() == 8);
    assert("not-first"@.len() == 9);
}

} // verus!
