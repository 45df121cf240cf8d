use randslug::config::{Case, NumberPlacement, Position};

#[test]
fn names() {
    assert_eq!(Position::Prepend.name(), "prepend");
    assert_eq!(Position::Append.name(), "append");
    assert_eq!(Case::Lowercase.name(), "lowercase");
    assert_eq!(Case::Uppercase.name(), "uppercase");
    assert_eq!(Case::Mixed.name(), "mixed");
    assert_eq!(NumberPlacement::NoNumbers.name(), "none");
    assert_eq!(NumberPlacement::Anywhere.name(), "anywhere");
    assert_eq!(NumberPlacement::NotFirst.name(), "not-first");
}

#[test]
fn position_name_round_trip() {
    for &p in [Position::Prepend, Position::Append].iter() {
        let name = String::from(p.name());
        assert_eq!(Position::from_name(&name), Some(p));
    }
    assert_eq!(Position::from_name(&String::from("sideways")), None);
}

#[test]
fn case_name_round_trip() {
    for &c in [Case::Lowercase, Case::Uppercase, Case::Mixed].iter() {
        let name = String::from(c.name());
        assert_eq!(Case::from_name(&name), Some(c));
    }
    assert_eq!(Case::from_name(&String::from("camel")), None);
}

#[test]
fn number_placement_name_round_trip() {
    let all = [
        NumberPlacement::NoNumbers,
        NumberPlacement::Anywhere,
        NumberPlacement::NotFirst,
    ];
    for &n in all.iter() {
        let name = String::from(n.name());
        assert_eq!(NumberPlacement::from_name(&name), Some(n));
    }
    assert_eq!(NumberPlacement::from_name(&String::from("last")), None);
}
