use coe33_asr::cutscene::{Cutscene, CutsceneReads};

fn playing(c: &mut Cutscene, name: &str, paused: bool) {
    c.update(
        Some(true),
        Some(CutsceneReads {
            paused: Some(paused),
            status: Some(1),
            name: Some(String::from(name)),
            serial_number: Some(42),
        }),
        Some(false),
    );
}

#[test]
fn a_new_cutscene_has_an_empty_name() {
    let c = Cutscene::new();
    assert_eq!(c.get_name(), "");
    assert!(!c.has_started());
    assert!(c.cs_is_playing_cinematic.pair.is_none());
}

#[test]
fn a_cinematic_starts_when_it_gets_a_name() {
    let mut c = Cutscene::new();
    c.update(Some(false), None, None);
    assert!(!c.is_active());
    playing(&mut c, "LS_Title_Act1", false);
    assert!(c.is_active());
    assert!(c.has_started());
    assert_eq!(c.get_name(), "LS_Title_Act1");
    playing(&mut c, "LS_Title_Act1", false);
    assert!(!c.has_started());
}

#[test]
fn a_paused_cinematic_counts_as_loading() {
    let mut c = Cutscene::new();
    playing(&mut c, "A", true);
    assert!(c.is_cutscene_loading());
    playing(&mut c, "A", false);
    assert!(!c.is_cutscene_loading());
    c.update(Some(false), None, Some(true));
    assert!(!c.is_cutscene_loading());
    assert!(c.is_over());
    assert!(c.cs_event_before_post_cinematic_transition_started.pair.as_ref().unwrap().current);
    c.update(Some(false), None, None);
    assert!(!c.is_over());
}

#[test]
fn details_keep_their_values_between_cinematics() {
    let mut c = Cutscene::new();
    playing(&mut c, "A", true);
    c.update(None, None, None);
    assert!(!c.is_active());
    assert_eq!(c.get_name(), "A");
    assert!(c.cs_cinematic_paused.pair.as_ref().unwrap().current);
    assert_eq!(c.cs_cinematic_serial_number.pair.as_ref().unwrap().current, 42);
}

#[test]
fn unread_details_of_a_playing_cinematic() {
    let mut c = Cutscene::new();
    playing(&mut c, "A", false);
    assert!(Cutscene::needs_details(Some(true)));
    assert!(!Cutscene::needs_details(None));
    c.update(Some(true), None, None);
    assert!(c.cs_cinematic_status.pair.is_none());
    assert!(c.cs_cinematic_serial_number.pair.is_none());
    assert!(!c.cs_cinematic_paused.pair.as_ref().unwrap().current);
    assert_eq!(c.get_name(), "");
    assert_eq!(c.cs_cinematic_name.pair.as_ref().unwrap().old, "A");
}
