use randslug::config::{Case, NumberPlacement};
use randslug::generate::rand_string;

const CASES: [Case; 3] = [Case::Lowercase, Case::Uppercase, Case::Mixed];
const PLACEMENTS: [NumberPlacement; 3] = [
    NumberPlacement::NoNumbers,
    NumberPlacement::Anywhere,
    NumberPlacement::NotFirst,
];

#[test]
fn length_matches_for_all_combinations() {
    for &case in CASES.iter() {
        for &numbers in PLACEMENTS.iter() {
            for &len in [1usize, 2, 8, 32].iter() {
                let s = rand_string(len, case, numbers);
                assert_eq!(s.chars().count(), len);
            }
        }
    }
}

#[test]
fn first_char_never_digit_unless_anywhere() {
    for &case in CASES.iter() {
        for &numbers in [NumberPlacement::NoNumbers, NumberPlacement::NotFirst].iter() {
            for _ in 0..50 {
                let s = rand_string(8, case, numbers);
                let first = s.chars().next().unwrap();
                assert!(!first.is_ascii_digit());
            }
        }
    }
}

#[test]
fn no_digits_when_numbers_excluded() {
    for &case in CASES.iter() {
        for _ in 0..50 {
            let s = rand_string(8, case, NumberPlacement::NoNumbers);
            assert!(s.chars().all(|c| !c.is_ascii_digit()));
        }
    }
}

#[test]
fn letters_follow_case() {
    for &numbers in PLACEMENTS.iter() {
        for _ in 0..50 {
            let s = rand_string(8, Case::Lowercase, numbers);
            assert!(s
                .chars()
                .all(|c| !c.is_ascii_alphabetic() || c.is_ascii_lowercase()));
            let s = rand_string(8, Case::Uppercase, numbers);
            assert!(s
                .chars()
                .all(|c| !c.is_ascii_alphabetic() || c.is_ascii_uppercase()));
            let s = rand_string(8, Case::Mixed, numbers);
            assert!(s.chars().all(|c| c.is_ascii_alphanumeric()));
        }
    }
}

#[test]
fn repeated_calls_differ() {
    let a = rand_string(16, Case::Lowercase, NumberPlacement::NotFirst);
    let b = rand_string(16, Case::Lowercase, NumberPlacement::NotFirst);
    assert_ne!(a, b);
}

#[test]
fn scenario_lowercase_not_first() {
    let s = rand_string(8, Case::Lowercase, NumberPlacement::NotFirst);
    let chars: Vec<char> = s.chars().collect();
    assert_eq!(chars.len(), 8);
    assert!(chars[0].is_ascii_lowercase());
    assert!(chars[1..]
        .iter()
        .all(|c| c.is_ascii_lowercase() || c.is_ascii_digit()));
}

#[test]
fn scenario_uppercase_none() {
    let s = rand_string(5, Case::Uppercase, NumberPlacement::NoNumbers);
    let chars: Vec<char> = s.chars().collect();
    assert_eq!(chars.len(), 5);
    assert!(chars.iter().all(|c| c.is_ascii_uppercase()));
}

#[test]
fn scenario_mixed_anywhere() {
    let s = rand_string(6, Case::Mixed, NumberPlacement::Anywhere);
    let chars: Vec<char> = s.chars().collect();
    assert_eq!(chars.len(), 6);
    assert!(chars.iter().all(|c| c.is_ascii_alphanumeric()));
}
