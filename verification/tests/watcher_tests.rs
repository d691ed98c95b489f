use coe33_asr::watcher::{Pair, Watcher};

#[test]
fn first_update_fills_both_values() {
    let mut w: Watcher<u8> = Watcher::new();
    assert!(w.pair.is_none());
    w.update(Some(3));
    let p = w.pair.as_ref().unwrap();
    assert_eq!(p.old, 3);
    assert_eq!(p.current, 3);
}

#[test]
fn later_update_moves_current_to_old() {
    let mut w: Watcher<u32> = Watcher::new();
    w.update(Some(1));
    w.update(Some(2));
    w.update_infallible(7);
    let p = w.pair.as_ref().unwrap();
    assert_eq!(p.old, 2);
    assert_eq!(p.current, 7);
}

#[test]
fn failed_sample_forgets_both_values() {
    let mut w: Watcher<u32> = Watcher::new();
    w.update(Some(1));
    w.update(None);
    assert!(w.pair.is_none());
    w.update(Some(9));
    let p = w.pair.as_ref().unwrap();
    assert_eq!((p.old, p.current), (9, 9));
}

#[test]
fn string_watcher_keeps_texts() {
    let mut w: Watcher<String> = Watcher::new();
    w.update_infallible(String::from("a"));
    w.update(Some(String::from("b")));
    let p = w.pair.as_ref().unwrap();
    assert_eq!(p.old, "a");
    assert_eq!(p.current, "b");
}

#[test]
fn pair_changes() {
    let p = Pair { old: 2u8, current: 0u8 };
    assert!(p.changed());
    assert!(!p.unchanged());
    assert!(p.changed_from(&2));
    assert!(!p.changed_from(&0));
    assert!(p.changed_to(&0));
    assert!(!p.changed_to(&2));
    assert!(p.changed_from_to(&2, &0));
    assert!(!p.changed_from_to(&0, &2));
    let same = Pair { old: 1u8, current: 1u8 };
    assert!(!same.changed());
    assert!(same.unchanged());
    assert!(!same.changed_to(&1));
    assert!(!same.changed_from(&1));
}

#[test]
fn pair_of_texts_changes() {
    let p = Pair { old: String::new(), current: String::from("MCS_MyFlower") };
    assert!(p.changed_from(&String::new()));
    assert!(p.changed_to(&String::from("MCS_MyFlower")));
    assert!(!p.changed_to(&String::from("other")));
}
