use coe33_asr::tables::{NameSet, NameTable};

#[test]
fn a_table_keeps_the_last_entry_for_a_name() {
    let mut t = NameTable::new();
    assert_eq!(t.get(&String::from("a")), None);
    t.insert(String::from("a"), String::from("1"));
    t.insert(String::from("b"), String::from("2"));
    t.insert(String::from("a"), String::from("3"));
    assert_eq!(t.get(&String::from("a")), Some(&String::from("3")));
    assert_eq!(t.get(&String::from("b")), Some(&String::from("2")));
    assert_eq!(t.get(&String::from("c")), None);
}

#[test]
fn a_set_says_whether_a_name_is_new() {
    let mut s = NameSet::new();
    assert!(s.insert(String::from("sm_eveque")));
    assert!(!s.insert(String::from("sm_eveque")));
    assert!(s.insert(String::from("fw_curator")));
    assert!(s.contains(&String::from("sm_eveque")));
    assert!(!s.contains(&String::from("other")));
    s.clear();
    assert!(!s.contains(&String::from("sm_eveque")));
    assert!(s.insert(String::from("sm_eveque")));
}
