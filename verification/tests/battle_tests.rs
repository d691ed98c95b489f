use coe33_asr::battle::{Battle, BattleReads};

fn details(end: u8, name: &str, step: &str) -> Option<BattleReads> {
    Some(BattleReads {
        end_state: Some(end),
        encounter_name: Some(String::from(name)),
        debug_last_flow_state: Some(String::from(step)),
    })
}

fn sample(b: &mut Battle, flow: u8, end: u8, name: &str, step: &str) {
    let d = if Battle::needs_details(Some(flow)) { details(end, name, step) } else { None };
    b.update(Some(flow), d);
}

#[test]
fn details_are_read_only_while_a_battle_is_active() {
    assert!(!Battle::needs_details(Some(0)));
    assert!(Battle::needs_details(Some(1)));
    assert!(Battle::needs_details(Some(2)));
    assert!(!Battle::needs_details(Some(3)));
    assert!(!Battle::needs_details(None));
}

#[test]
fn out_of_battle_the_details_keep_their_values() {
    let mut b = Battle::new();
    b.update(Some(0), details(1, "SM_Eveque_ShieldTutorial*1", "InitBattle"));
    assert!(b.battle_end_state.pair.is_none());
    assert!(b.battle_manager_encounter_name.pair.is_none());
    sample(&mut b, 2, 0, "GO_Goblu", "InitBattle");
    sample(&mut b, 0, 7, "other", "other");
    assert_eq!(b.battle_manager_encounter_name.pair.as_ref().unwrap().current, "GO_Goblu");
    assert_eq!(b.battle_end_state.pair.as_ref().unwrap().current, 0);
}

#[test]
fn unread_values_take_their_defaults() {
    let mut b = Battle::new();
    b.update(None, None);
    assert_eq!(b.battle_flow_state.pair.as_ref().unwrap().current, 255);
    assert!(b.battle_end_state.pair.is_none());
    b.update(Some(1), None);
    assert_eq!(b.battle_end_state.pair.as_ref().unwrap().current, 255);
    assert_eq!(b.battle_manager_encounter_name.pair.as_ref().unwrap().current, "");
    assert_eq!(b.battle_debug_last_flow_state.pair.as_ref().unwrap().current, "");
    b.update(
        Some(2),
        Some(BattleReads { end_state: None, encounter_name: Some(String::from("X")), debug_last_flow_state: None }),
    );
    assert_eq!(b.battle_end_state.pair.as_ref().unwrap().current, 255);
    assert_eq!(b.battle_manager_encounter_name.pair.as_ref().unwrap().current, "X");
}

#[test]
fn a_won_battle_is_finished() {
    let mut b = Battle::new();
    sample(&mut b, 1, 0, "GO_Goblu", "InitBattle");
    sample(&mut b, 2, 0, "GO_Goblu", "LoadDependencies");
    assert!(b.is_in_battle());
    assert!(!b.is_battle_finished());
    sample(&mut b, 2, 1, "GO_Goblu", "Victory");
    sample(&mut b, 0, 0, "", "");
    assert!(!b.is_in_battle());
    assert!(!b.battle_lost());
    assert!(b.is_battle_finished());
    assert_eq!(b.battle_manager_encounter_name.pair.as_ref().unwrap().old, "GO_Goblu");
    sample(&mut b, 0, 0, "", "");
    assert!(!b.is_battle_finished());
}

#[test]
fn a_failed_expedition_is_lost_not_finished() {
    let mut b = Battle::new();
    sample(&mut b, 2, 0, "L_Boss_Paintress_P1", "Fight");
    sample(&mut b, 2, 2, "L_Boss_Paintress_P1", "Fight");
    sample(&mut b, 2, 2, "L_Boss_Paintress_P1", "Fight");
    sample(&mut b, 0, 0, "", "");
    assert!(b.battle_lost());
    assert!(!b.is_battle_finished());
}

#[test]
fn leaving_loading_does_not_finish_a_battle() {
    let mut b = Battle::new();
    sample(&mut b, 1, 0, "A", "InitBattle");
    sample(&mut b, 0, 0, "", "");
    assert!(!b.is_battle_finished());
    assert!(!b.battle_lost());
}

#[test]
fn no_end_state_means_not_lost() {
    let mut b = Battle::new();
    b.update(Some(2), None);
    b.battle_end_state.pair = None;
    b.update(Some(0), None);
    assert!(!b.battle_lost());
    assert!(b.is_battle_finished());
}

#[test]
fn a_battle_loads_during_its_loading_steps() {
    let mut b = Battle::new();
    sample(&mut b, 1, 0, "A", "InitBattle");
    assert!(!b.is_battle_loading());
    for step in ["InitBattle", "LoadDependencies", "Dependencies loaded"] {
        sample(&mut b, 2, 0, "A", step);
        assert!(b.is_battle_loading(), "{}", step);
    }
    sample(&mut b, 2, 0, "A", "BattleStarted");
    assert!(!b.is_battle_loading());
    sample(&mut b, 2, 0, "A", "initbattle");
    assert!(!b.is_battle_loading());
}

#[test]
fn a_defeat_reads_the_end_state_before_the_last_active_sample() {
    // Out of battle the end state is not read, so the defeat is judged on the
    // end state that the next-to-last active sample left as the old value.
    let mut b = Battle::new();
    sample(&mut b, 2, 0, "A", "Fight");
    sample(&mut b, 2, 2, "A", "Fight");
    sample(&mut b, 0, 0, "", "");
    assert!(!b.battle_lost());
    assert!(b.is_battle_finished());
}
