use coe33_asr::battle::BattleReads;
use coe33_asr::cutscene::CutsceneReads;
use coe33_asr::gamestate::{GameReads, GameState};

fn reads(world: &str, time: f64, pcm: f32) -> GameReads {
    GameReads {
        is_pause_menu_visible: Some(false),
        world: Some(String::from(world)),
        time_played: Some(time.to_bits()),
        is_changing_area: Some(false),
        is_changing_map: Some(false),
        lsw_has_appeared: Some(false),
        pcm_in_game: Some(pcm.to_bits()),
        battle_flow_state: Some(0),
        battle: None,
        is_playing_cinematic: Some(false),
        cutscene: None,
        transition_started: Some(false),
        minimap_active: Some(false),
    }
}

fn cinematic(r: GameReads, name: &str) -> GameReads {
    GameReads {
        is_playing_cinematic: Some(true),
        cutscene: Some(CutsceneReads {
            paused: Some(false),
            status: Some(1),
            name: Some(String::from(name)),
            serial_number: Some(1),
        }),
        ..r
    }
}

#[test]
fn a_failed_sample_counts_as_empty_false_and_zero() {
    let mut g = GameState::new();
    let r = GameReads {
        is_pause_menu_visible: None,
        world: None,
        time_played: None,
        is_changing_area: None,
        is_changing_map: None,
        lsw_has_appeared: None,
        pcm_in_game: None,
        battle_flow_state: None,
        battle: None,
        is_playing_cinematic: None,
        cutscene: None,
        transition_started: None,
        minimap_active: None,
    };
    g.update(r);
    assert_eq!(g.world.pair.as_ref().unwrap().current, "");
    assert_eq!(g.time_played.pair.as_ref().unwrap().current, 0);
    assert_eq!(g.pcm_in_game.pair.as_ref().unwrap().current, 0);
    assert!(!g.is_pause_menu_visible.pair.as_ref().unwrap().current);
    assert_eq!(g.battle.battle_flow_state.pair.as_ref().unwrap().current, 255);
    assert!(!g.cutscene.is_active());
    // Out of the main menu with the player controller at 0.0: loading.
    assert!(g.is_game_loading());
}

#[test]
fn the_game_loads_on_the_bootstrap_map() {
    let mut g = GameState::new();
    g.update(reads("Map_Game_Bootstrap", 0.0, 1.0));
    assert!(g.is_game_loading());
}

#[test]
fn the_game_loads_while_changing_area_or_map_or_showing_the_widget() {
    for which in 0..3 {
        let mut g = GameState::new();
        let mut r = reads("Level_Lumiere", 100.0, 1.0);
        match which {
            0 => r.is_changing_area = Some(true),
            1 => r.is_changing_map = Some(true),
            _ => r.lsw_has_appeared = Some(true),
        }
        g.update(r);
        assert!(g.is_game_loading(), "{}", which);
    }
}

#[test]
fn the_player_controller_below_half_means_loading_out_of_the_main_menu() {
    let mut g = GameState::new();
    g.update(reads("Level_Lumiere", 100.0, 0.25));
    assert!(g.is_game_loading());
    g.update(reads("Level_Lumiere", 100.0, 0.5));
    assert!(!g.is_game_loading());
    g.update(reads("Level_Main_Menu", 100.0, 0.25));
    assert!(!g.is_game_loading());
    g.update(reads("Level_Lumiere", 100.0, f32::NAN));
    assert!(!g.is_game_loading());
    g.update(reads("Level_Lumiere", 100.0, -0.0));
    assert!(g.is_game_loading());
}

#[test]
fn the_minimap_is_open_only_on_the_world_map() {
    let mut g = GameState::new();
    let mut r = reads("Level_WorldMap_Main_V2", 100.0, 1.0);
    r.minimap_active = Some(true);
    g.update(r);
    assert!(g.is_minimap_open());
    let mut r = reads("Level_Lumiere", 100.0, 1.0);
    r.minimap_active = Some(true);
    g.update(r);
    assert!(!g.is_minimap_open());
    g.update(reads("Level_WorldMap_Main_V2", 100.0, 1.0));
    assert!(!g.is_minimap_open());
}

#[test]
fn the_minimap_flag_moved_in_build_57661() {
    assert_eq!(GameState::minimap_active_path(57661), [0x0, 0x30, 0x980, 0x3d0, 0x368]);
    assert_eq!(GameState::minimap_active_path(60000), [0x0, 0x30, 0x980, 0x3d0, 0x368]);
    assert_eq!(GameState::minimap_active_path(57660), [0x0, 0x30, 0x980, 0x3c8, 0x368]);
    assert_eq!(GameState::minimap_active_path(56323), [0x0, 0x30, 0x980, 0x3c8, 0x368]);
}

#[test]
fn a_new_game_starts_when_the_time_played_leaves_zero() {
    let mut g = GameState::new();
    g.update(reads("Level_Lumiere", 0.0, 1.0));
    assert!(!g.is_starting_run(false));
    g.update(reads("Level_Lumiere", 0.016, 1.0));
    assert!(g.is_starting_run(false));
    g.update(reads("Level_Lumiere", 0.032, 1.0));
    assert!(!g.is_starting_run(false));
}

#[test]
fn a_new_game_does_not_start_from_a_late_save() {
    let mut g = GameState::new();
    g.update(reads("Level_Lumiere", 0.0, 1.0));
    g.update(reads("Level_Lumiere", 5.0, 1.0));
    assert!(!g.is_starting_run(false));
    let mut g = GameState::new();
    g.update(reads("Level_Lumiere", -0.0, 1.0));
    g.update(reads("Level_Lumiere", 4.9, 1.0));
    assert!(g.is_starting_run(false));
}

#[test]
fn new_game_plus_starts_with_the_flower_cinematic() {
    let mut g = GameState::new();
    g.update(reads("Level_Lumiere", 3600.0, 1.0));
    g.update(cinematic(reads("Level_Lumiere", 3600.5, 1.0), "MCS_MyFlower_Part1"));
    assert!(g.is_starting_run(true));
    assert!(!g.is_starting_run(false));
    g.update(cinematic(reads("Level_Lumiere", 3601.0, 1.0), "MCS_MyFlower_Part1"));
    assert!(!g.is_starting_run(true));
}

#[test]
fn new_game_plus_ignores_other_cinematics() {
    let mut g = GameState::new();
    g.update(reads("Level_Lumiere", 3600.0, 1.0));
    g.update(cinematic(reads("Level_Lumiere", 3600.5, 1.0), "MCS_GobluOutro"));
    assert!(!g.is_starting_run(true));
}

#[test]
fn new_game_plus_early_uses_the_time_played() {
    let mut g = GameState::new();
    g.update(reads("Level_Lumiere", 0.0, 1.0));
    g.update(cinematic(reads("Level_Lumiere", 1.0, 1.0), "MCS_MyFlower"));
    assert!(g.is_starting_run(true));
}

#[test]
fn the_battle_and_cinematic_are_sampled_with_the_game() {
    let mut g = GameState::new();
    let mut r = reads("Level_Lumiere", 10.0, 1.0);
    r.battle_flow_state = Some(2);
    r.battle = Some(BattleReads {
        end_state: Some(0),
        encounter_name: Some(String::from("GO_Goblu")),
        debug_last_flow_state: Some(String::from("InitBattle")),
    });
    g.update(cinematic(r, "MCS_GobluIntro"));
    assert!(g.battle.is_in_battle());
    assert!(g.battle.is_battle_loading());
    assert!(g.cutscene.is_active());
    assert_eq!(g.cutscene.get_name(), "MCS_GobluIntro");
}
