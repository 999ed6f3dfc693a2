use star_tec_backend::text::{chars_before, chars_of, digit_text, name_before, push_decimal};

fn decimal(n: u128) -> String {
    let mut out = String::new();
    push_decimal(&mut out, n);
    out
}

#[test]
fn digits_are_single_characters() {
    assert_eq!(digit_text(0), "0");
    assert_eq!(digit_text(5), "5");
    assert_eq!(digit_text(9), "9");
}

#[test]
fn decimal_of_small_numbers() {
    assert_eq!(decimal(0), "0");
    assert_eq!(decimal(2), "2");
    assert_eq!(decimal(9), "9");
    assert_eq!(decimal(10), "10");
    assert_eq!(decimal(11), "11");
}

#[test]
fn decimal_of_large_numbers() {
    assert_eq!(decimal(1234567890), "1234567890");
    assert_eq!(decimal(u64::MAX as u128), "18446744073709551615");
    assert_eq!(decimal(u128::MAX), u128::MAX.to_string());
}

#[test]
fn decimal_is_appended_to_what_is_there() {
    let mut out = String::from("name = $");
    push_decimal(&mut out, 12);
    assert_eq!(out, "name = $12");
}

#[test]
fn chars_of_keeps_every_character() {
    assert_eq!(chars_of(""), Vec::<char>::new());
    assert_eq!(chars_of("abc"), vec!['a', 'b', 'c']);
    assert_eq!(chars_of("añ€"), vec!['a', 'ñ', '€']);
}

#[test]
fn the_first_difference_decides() {
    assert!(name_before("Alpha", "Beta"));
    assert!(!name_before("Beta", "Alpha"));
    assert!(name_before("abc", "abd"));
    assert!(!name_before("abd", "abc"));
}

#[test]
fn a_proper_prefix_comes_first() {
    assert!(name_before("", "a"));
    assert!(name_before("Team", "Team 2"));
    assert!(!name_before("Team 2", "Team"));
}

#[test]
fn no_name_comes_before_itself() {
    assert!(!name_before("", ""));
    assert!(!name_before("Startup", "Startup"));
}

#[test]
fn upper_case_comes_before_lower_case() {
    assert!(name_before("Zeta", "alpha"));
    assert!(!name_before("alpha", "Zeta"));
}

#[test]
fn names_are_ordered_as_strings_are() {
    let names = ["", "a", "A", "ab", "b", "Zeta", "alpha", "é", "e", "eé", "€", "z", "Team 10", "Team 2"];
    for a in names.iter() {
        for b in names.iter() {
            assert_eq!(name_before(a, b), a < b, "{:?} before {:?}", a, b);
        }
    }
}

#[test]
fn chars_before_agrees_with_name_before() {
    let a = vec!['a', 'b'];
    let b = vec!['a', 'c'];
    assert!(chars_before(&a, &b));
    assert!(!chars_before(&b, &a));
    assert!(!chars_before(&a, &a));
}
