use coe33_asr::helpers::{get_fname, read_fstring};
use coe33_asr::text::{contains_str, eq_str};
use coe33_asr::State;

fn utf16(s: &str) -> Vec<u16> {
    s.encode_utf16().collect()
}

#[test]
fn eq_str_compares_whole_texts() {
    assert!(eq_str(&String::from("InitBattle"), "InitBattle"));
    assert!(!eq_str(&String::from("InitBattle2"), "InitBattle"));
    assert!(!eq_str(&String::from(""), "InitBattle"));
    assert!(eq_str(&String::new(), ""));
}

#[test]
fn contains_str_finds_runs_of_characters() {
    let name = String::from("SEQ_MCS_MyFlower_Intro");
    assert!(contains_str(&name, "MCS_MyFlower"));
    assert!(contains_str(&name, "SEQ"));
    assert!(contains_str(&name, "Intro"));
    assert!(contains_str(&name, ""));
    assert!(!contains_str(&name, "MCS_MyFlowers"));
    assert!(!contains_str(&String::from("MCS_MyFlowe"), "MCS_MyFlower"));
    assert!(contains_str(&String::from("MCS_MyFlower"), "MCS_MyFlower"));
    assert!(!contains_str(&String::new(), "a"));
    assert!(contains_str(&String::from("ééa"), "éa"));
}

#[test]
fn get_fname_decodes_utf8() {
    assert_eq!(get_fname(b"Level_MainMenu"), Some(String::from("Level_MainMenu")));
    assert_eq!(get_fname("Évêque".as_bytes()), Some(String::from("Évêque")));
    assert_eq!(get_fname(&[]), Some(String::new()));
    assert_eq!(get_fname(&[0xff, 0x41]), None);
    assert_eq!(get_fname(&[0xc0, 0x80]), None);
    assert_eq!(get_fname(&[0xed, 0xa0, 0x80]), None);
    assert_eq!(get_fname("\u{1F600}".as_bytes()), Some(String::from("\u{1F600}")));
}

#[test]
fn read_fstring_decodes_utf16() {
    assert_eq!(read_fstring(&utf16("InitBattle")), Some(String::from("InitBattle")));
    assert_eq!(read_fstring(&utf16("Sirène")), Some(String::from("Sirène")));
    assert_eq!(read_fstring(&[0xd800]), None);
    assert_eq!(read_fstring(&[0xdc00, 0x0041]), None);
    assert_eq!(read_fstring(&[0x0041, 0xd83d]), None);
    assert_eq!(read_fstring(&utf16("Goblu \u{1F600}!")), Some(String::from("Goblu \u{1F600}!")));
    assert_eq!(read_fstring(&[0xd83d, 0xde00]), Some(String::from("\u{1F600}")));
}

#[test]
fn build_version_is_a_decimal_number() {
    assert_eq!(State::parse_build_version(&utf16("57661")), Some(57661));
    assert_eq!(State::parse_build_version(&utf16("56323")), Some(56323));
    assert_eq!(State::parse_build_version(&utf16("+12")), Some(12));
    assert_eq!(State::parse_build_version(&utf16("0")), Some(0));
    assert_eq!(State::parse_build_version(&utf16("4294967295")), Some(4294967295));
    assert_eq!(State::parse_build_version(&utf16("0057661")), Some(57661));
}

#[test]
fn build_version_placeholder_and_garbage_are_not_known() {
    assert_eq!(State::parse_build_version(&utf16("999999")), None);
    assert_eq!(State::parse_build_version(&utf16("")), None);
    assert_eq!(State::parse_build_version(&utf16("57a61")), None);
    assert_eq!(State::parse_build_version(&utf16(" 57661")), None);
    assert_eq!(State::parse_build_version(&utf16("-1")), None);
    assert_eq!(State::parse_build_version(&utf16("4294967296")), None);
    assert_eq!(State::parse_build_version(&utf16("99999999999")), None);
    assert_eq!(State::parse_build_version(&utf16("+")), None);
    assert_eq!(State::parse_build_version(&utf16("++1")), None);
    assert_eq!(State::parse_build_version(&utf16("1+")), None);
    assert_eq!(State::parse_build_version(&utf16("\u{0661}")), None);
    assert_eq!(State::parse_build_version(&[0xdc00, 0x0031]), None);
}
