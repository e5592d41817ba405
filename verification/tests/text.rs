use fastsim_vehicle::text::{
    chars_of, contains, ends_with, find, parse_u32, replace, split, starts_with, text_of,
    upper_chars,
};

fn c(s: &str) -> Vec<char> {
    s.chars().collect()
}

#[test]
fn chars_and_text_round_trip() {
    assert_eq!(chars_of("S60 B5"), c("S60 B5"));
    assert_eq!(text_of(&c("S60 B5")), "S60 B5");
    assert_eq!(text_of(&chars_of("")), "");
}

#[test]
fn upper_case_of_a_name() {
    assert_eq!(upper_chars("Prius Prime"), c("PRIUS PRIME"));
    assert_eq!(upper_chars("ev6 4wd"), c("EV6 4WD"));
}

#[test]
fn find_gives_the_first_position() {
    assert_eq!(find(&c("Manual 6-spd"), &c("-spd")), Some(8));
    assert_eq!(find(&c("abcabc"), &c("bc")), Some(1));
    assert_eq!(find(&c("abc"), &c("")), Some(0));
    assert_eq!(find(&c("abc"), &c("abcd")), None);
    assert_eq!(find(&c(""), &c("a")), None);
}

#[test]
fn contains_and_ends() {
    assert!(contains(&c("Tier 2 Cold CO Fuel"), &c("Cold CO")));
    assert!(!contains(&c("Tier 2 Cert Gasoline"), &c("Cold CO")));
    assert!(starts_with(&c("Automatic (S8)"), &c("Automatic")));
    assert!(!starts_with(&c("Automatic (S8)"), &c("Semi-Automatic")));
    assert!(starts_with(&c("abc"), &c("")));
    assert!(ends_with(&c("NVVXJ02.0U73"), &c("VVXJ02.0U73")));
    assert!(!ends_with(&c("U73"), &c("VVXJ02.0U73")));
    assert!(ends_with(&c("abc"), &c("")));
}

#[test]
fn split_on_single_spaces() {
    assert_eq!(split(&c("S60 B5 AWD")), vec![c("S60"), c("B5"), c("AWD")]);
    assert_eq!(split(&c("")), vec![c("")]);
    assert_eq!(split(&c("a  b")), vec![c("a"), c(""), c("b")]);
    assert_eq!(split(&c(" a ")), vec![c(""), c("a"), c("")]);
}

#[test]
fn replace_every_occurrence() {
    assert_eq!(replace(&c("RAV4 4WD"), &c("4WD"), &c("AWD")), c("RAV4 AWD"));
    assert_eq!(replace(&c("4WD4WD"), &c("4WD"), &c("AWD")), c("AWDAWD"));
    assert_eq!(replace(&c("aaa"), &c("aa"), &c("b")), c("ba"));
    assert_eq!(replace(&c("abc"), &c(""), &c("x")), c("abc"));
    assert_eq!(replace(&c("4W"), &c("4WD"), &c("AWD")), c("4W"));
}

#[test]
fn parse_unsigned_numbers() {
    assert_eq!(parse_u32(&c("8")), Some(8));
    assert_eq!(parse_u32(&c("+10")), Some(10));
    assert_eq!(parse_u32(&c("007")), Some(7));
    assert_eq!(parse_u32(&c("4294967295")), Some(4294967295));
    assert_eq!(parse_u32(&c("4294967296")), None);
    assert_eq!(parse_u32(&c("")), None);
    assert_eq!(parse_u32(&c("+")), None);
    assert_eq!(parse_u32(&c("-1")), None);
    assert_eq!(parse_u32(&c("1a")), None);
    assert_eq!(parse_u32(&c(" 1")), None);
}
