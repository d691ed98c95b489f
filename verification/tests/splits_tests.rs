use coe33_asr::battle::BattleReads;
use coe33_asr::cutscene::CutsceneReads;
use coe33_asr::gamestate::{GameReads, GameState};
use coe33_asr::settings::Settings;
use coe33_asr::splits::Splits;

fn reads() -> GameReads {
    GameReads {
        is_pause_menu_visible: Some(false),
        world: Some(String::from("Level_Lumiere")),
        time_played: Some(100.0f64.to_bits()),
        is_changing_area: Some(false),
        is_changing_map: Some(false),
        lsw_has_appeared: Some(false),
        pcm_in_game: Some(1.0f32.to_bits()),
        battle_flow_state: Some(0),
        battle: None,
        is_playing_cinematic: Some(false),
        cutscene: None,
        transition_started: Some(false),
        minimap_active: Some(false),
    }
}

fn in_battle(name: &str, end: u8) -> GameReads {
    GameReads {
        battle_flow_state: Some(2),
        battle: Some(BattleReads {
            end_state: Some(end),
            encounter_name: Some(String::from(name)),
            debug_last_flow_state: Some(String::from("Fight")),
        }),
        ..reads()
    }
}

fn cinematic(name: &str) -> GameReads {
    GameReads {
        is_playing_cinematic: Some(true),
        cutscene: Some(CutsceneReads {
            paused: Some(false),
            status: Some(1),
            name: Some(String::from(name)),
            serial_number: Some(1),
        }),
        ..reads()
    }
}

/// A game state right after the battle `name` was won.
fn won(name: &str) -> GameState {
    let mut g = GameState::new();
    g.update(in_battle(name, 0));
    g.update(in_battle(name, 1));
    g.update(in_battle(name, 1));
    g.update(reads());
    assert!(g.battle.is_battle_finished());
    g
}

/// A game state right after the party was defeated in battle `name`.
fn lost(name: &str) -> GameState {
    let mut g = GameState::new();
    g.update(in_battle(name, 2));
    g.update(in_battle(name, 2));
    g.update(reads());
    assert!(g.battle.battle_lost());
    g
}

/// A game state right after the cinematic `name` started.
fn cinematic_started(name: &str) -> GameState {
    let mut g = GameState::new();
    g.update(reads());
    g.update(cinematic(name));
    assert!(g.cutscene.has_started());
    g
}

fn settings_with(keys: &[&str]) -> Settings {
    let mut s = Settings::default();
    for k in keys {
        match *k {
            "sm_eveque" => s.sm_eveque = true,
            "maelle_tutorial" => s.maelle_tutorial = true,
            "act_1_start" => s.act_1_start = true,
            "act_2_start" => s.act_2_start = true,
            "fw_goblu" => s.fw_goblu = true,
            "sirene_sirene" => s.sirene_sirene = true,
            "lumiere_maelle" => s.lumiere_maelle = true,
            _ => panic!("no such setting in this test: {}", k),
        }
    }
    s
}

#[test]
fn a_finished_battle_splits_once_per_run() {
    let mut splits = Splits::new();
    let settings = settings_with(&["sm_eveque"]);
    let g = won("SM_Eveque_ShieldTutorial*1");
    assert!(splits.should_split(&g, &settings));
    assert!(!splits.should_split(&g, &settings));
    let g = won("SM_Eveque_ShieldTutorial*1");
    assert!(!splits.should_split(&g, &settings));
    splits.reset();
    assert!(splits.should_split(&g, &settings));
}

#[test]
fn a_split_whose_setting_is_off_does_not_fire_and_stays_available() {
    let mut splits = Splits::new();
    let g = won("SM_Eveque_ShieldTutorial*1");
    assert!(!splits.should_split(&g, &Settings::default()));
    assert!(splits.should_split(&g, &settings_with(&["sm_eveque"])));
}

#[test]
fn battles_without_a_split_do_not_fire() {
    let mut splits = Splits::new();
    let settings = settings_with(&["sm_eveque", "maelle_tutorial"]);
    assert!(!splits.should_split(&won("WM_Unknown_Encounter"), &settings));
    assert!(!splits.should_split(&won("sm_eveque"), &settings));
}

#[test]
fn a_lost_battle_does_not_split() {
    let mut splits = Splits::new();
    let settings = settings_with(&["sm_eveque"]);
    assert!(!splits.should_split(&lost("SM_Eveque_ShieldTutorial*1"), &settings));
    assert!(splits.should_split(&won("SM_Eveque_ShieldTutorial*1"), &settings));
}

#[test]
fn the_flying_waters_goblu_split_fires_with_its_setting() {
    let mut splits = Splits::new();
    assert!(!splits.should_split(&won("GO_Goblu"), &Settings::default()));
    let settings = settings_with(&["fw_goblu"]);
    assert!(splits.should_split(&won("GO_Goblu"), &settings));
    assert!(!splits.should_split(&won("GO_Goblu"), &settings));
}

#[test]
fn the_duplicated_sirene_entry_splits_once() {
    let mut splits = Splits::new();
    let settings = settings_with(&["sirene_sirene"]);
    assert!(splits.should_split(&won("SI_Axon_Sirene"), &settings));
    assert!(!splits.should_split(&won("SI_Axon_Sirene"), &settings));
}

#[test]
fn the_start_of_an_act_splits() {
    let mut splits = Splits::new();
    let settings = settings_with(&["act_1_start"]);
    assert!(splits.should_split(&cinematic_started("LS_Title_Act1"), &settings));
    assert!(!splits.should_split(&cinematic_started("LS_Title_Act1"), &settings));
    assert!(!splits.should_split(&cinematic_started("LS_Title_Act2"), &settings));
    assert!(!splits.should_split(&cinematic_started("MCS_GobluOutro"), &settings));
}

#[test]
fn nothing_happening_does_not_split() {
    let mut splits = Splits::new();
    let mut g = GameState::new();
    g.update(reads());
    g.update(reads());
    assert!(!splits.should_split(&g, &settings_with(&["act_1_start", "sm_eveque"])));
}

#[test]
fn different_splits_fire_independently() {
    let mut splits = Splits::new();
    let settings = settings_with(&["sm_eveque", "lumiere_maelle", "act_2_start"]);
    assert!(splits.should_split(&won("SM_Eveque_ShieldTutorial*1"), &settings));
    assert!(splits.should_split(&won("FinalBossMaelle"), &settings));
    assert!(splits.should_split(&cinematic_started("LS_Title_Act2"), &settings));
    assert!(!splits.should_split(&won("FinalBossMaelle"), &settings));
}

#[test]
fn reset_returns_the_same_splits() {
    let mut splits = Splits::new();
    let settings = settings_with(&["sm_eveque"]);
    assert!(splits.should_split(&won("SM_Eveque_ShieldTutorial*1"), &settings));
    let again = splits.reset();
    assert!(again.should_split(&won("SM_Eveque_ShieldTutorial*1"), &settings));
    assert!(!splits.should_split(&won("SM_Eveque_ShieldTutorial*1"), &settings));
}

#[test]
fn settings_without_a_table_entry_never_split() {
    let mut s = Settings::default();
    s.monolith_train_cs = true;
    s.lumiere_start_cs = true;
    s.fw_exit = true;
    s.fb_exit = true;
    s.sm_lancelier_x2 = true;
    s.sm_abbest_volester_x2 = true;
    s.fw_demineur_x3 = true;
    s.fw_noco = true;
    s.fw_bruler_luster_demineur = true;
    s.lumiere_abberation = true;
    let mut splits = Splits::new();
    for name in ["GO_Goblu", "SM_Eveque_ShieldTutorial*1", "ML_PaintressIntro", "FinalBossVerso"] {
        assert!(!splits.should_split(&won(name), &s));
    }
    for name in ["LS_Title_Act1", "LS_Title_Act3", "CS_GPE_MonolithInterior_Locomotive_Monoco_To_Lumiere"] {
        assert!(!splits.should_split(&cinematic_started(name), &s));
    }
}
