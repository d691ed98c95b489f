use coe33_asr::battle::BattleReads;
use coe33_asr::cutscene::CutsceneReads;
use coe33_asr::gamestate::GameReads;
use coe33_asr::settings::Settings;
use coe33_asr::splits::Splits;
use coe33_asr::{tick, GameTime, State, TickActions, TimerPhase};

fn reads(world: &str, time: f64) -> GameReads {
    GameReads {
        is_pause_menu_visible: Some(false),
        world: Some(String::from(world)),
        time_played: Some(time.to_bits()),
        is_changing_area: Some(false),
        is_changing_map: Some(false),
        lsw_has_appeared: Some(false),
        pcm_in_game: Some(1.0f32.to_bits()),
        battle_flow_state: Some(0),
        battle: None,
        is_playing_cinematic: Some(false),
        cutscene: None,
        transition_started: Some(false),
        minimap_active: Some(false),
    }
}

fn in_battle(name: &str, step: &str) -> GameReads {
    GameReads {
        battle_flow_state: Some(2),
        battle: Some(BattleReads {
            end_state: Some(1),
            encounter_name: Some(String::from(name)),
            debug_last_flow_state: Some(String::from(step)),
        }),
        ..reads("Level_Lumiere", 100.0)
    }
}

fn state() -> State {
    State::init(0x1234, 57661, String::from("C:/Game/Sandfall/Binaries/Win64/SandFall-Win64-Shipping.exe"))
}

const NOTHING: TickActions = TickActions { start: false, game_time: None, split: false, reset: false };

#[test]
fn init_keeps_what_it_is_given() {
    let s = state();
    assert_eq!(s.local_player, 0x1234);
    assert_eq!(s.build_version, 57661);
    assert!(s.path.ends_with("SandFall-Win64-Shipping.exe"));
    assert!(s.game_state.world.pair.is_none());
}

#[test]
fn the_timer_starts_with_a_new_game() {
    let mut s = state();
    let mut splits = Splits::new();
    let settings = Settings::default();
    s.update(reads("Level_Lumiere", 0.0));
    assert_eq!(tick(TimerPhase::NotRunning, &settings, &s, &mut splits), NOTHING);
    s.update(reads("Level_Lumiere", 0.02));
    let a = tick(TimerPhase::NotRunning, &settings, &s, &mut splits);
    assert_eq!(a, TickActions { start: true, ..NOTHING });
}

#[test]
fn the_timer_does_not_start_when_starting_is_off() {
    let mut s = state();
    let mut splits = Splits::new();
    let mut settings = Settings::default();
    settings.start = false;
    s.update(reads("Level_Lumiere", 0.0));
    s.update(reads("Level_Lumiere", 0.02));
    assert_eq!(tick(TimerPhase::NotRunning, &settings, &s, &mut splits), NOTHING);
}

#[test]
fn a_stopped_timer_forgets_the_splits() {
    let mut s = state();
    let mut splits = Splits::new();
    let mut settings = Settings::default();
    settings.sm_eveque = true;
    s.update(in_battle("SM_Eveque_ShieldTutorial*1", "Fight"));
    s.update(in_battle("SM_Eveque_ShieldTutorial*1", "Fight"));
    s.update(reads("Level_Lumiere", 100.0));
    let a = tick(TimerPhase::Running, &settings, &s, &mut splits);
    assert!(a.split);
    assert!(!splits.should_split(&s.game_state, &settings));
    tick(TimerPhase::NotRunning, &settings, &s, &mut splits);
    assert!(splits.should_split(&s.game_state, &settings));
}

#[test]
fn a_running_timer_pauses_while_loading() {
    let mut s = state();
    let mut splits = Splits::new();
    let settings = Settings::default();
    s.update(in_battle("A", "InitBattle"));
    let a = tick(TimerPhase::Running, &settings, &s, &mut splits);
    assert_eq!(a, TickActions { game_time: Some(GameTime::Pause), ..NOTHING });
    s.update(in_battle("A", "Fight"));
    let a = tick(TimerPhase::Running, &settings, &s, &mut splits);
    assert_eq!(a, TickActions { game_time: Some(GameTime::Resume), ..NOTHING });
}

#[test]
fn loading_sources() {
    let mut s = state();
    s.update(reads("Map_Game_Bootstrap", 1.0));
    assert!(s.is_loading());
    s.update(in_battle("A", "LoadDependencies"));
    assert!(s.is_loading());
    let mut r = reads("Level_Lumiere", 100.0);
    r.is_playing_cinematic = Some(true);
    r.cutscene = Some(CutsceneReads { paused: Some(true), status: None, name: None, serial_number: None });
    s.update(r);
    assert!(s.is_loading());
    let mut r = reads("Level_WorldMap_Main_V2", 100.0);
    r.minimap_active = Some(true);
    s.update(r);
    assert!(s.is_loading());
    s.update(reads("Level_WorldMap_Main_V2", 100.0));
    assert!(!s.is_loading());
}

#[test]
fn a_running_timer_resets_at_the_main_menu_when_allowed() {
    let mut s = state();
    let mut splits = Splits::new();
    let mut settings = Settings::default();
    s.update(reads("Level_Lumiere", 100.0));
    s.update(reads("Level_MainMenu", 100.0));
    let a = tick(TimerPhase::Running, &settings, &s, &mut splits);
    assert!(!a.reset);
    settings.reset = true;
    let a = tick(TimerPhase::Running, &settings, &s, &mut splits);
    assert_eq!(a, TickActions { game_time: Some(GameTime::Resume), reset: true, ..NOTHING });
    s.update(reads("Level_MainMenu", 100.0));
    let a = tick(TimerPhase::Running, &settings, &s, &mut splits);
    assert!(!a.reset);
}

#[test]
fn a_split_wins_over_a_reset() {
    let mut s = state();
    let mut splits = Splits::new();
    let mut settings = Settings::default();
    settings.reset = true;
    settings.act_1_start = true;
    s.update(reads("Level_Lumiere", 100.0));
    let mut r = reads("Level_MainMenu", 100.0);
    r.is_playing_cinematic = Some(true);
    r.cutscene = Some(CutsceneReads {
        paused: Some(false),
        status: Some(1),
        name: Some(String::from("LS_Title_Act1")),
        serial_number: Some(1),
    });
    s.update(r);
    let a = tick(TimerPhase::Running, &settings, &s, &mut splits);
    assert_eq!(a, TickActions { game_time: Some(GameTime::Resume), split: true, ..NOTHING });
}

#[test]
fn splitting_off_never_splits() {
    let mut s = state();
    let mut splits = Splits::new();
    let mut settings = Settings::default();
    settings.split = false;
    settings.sm_eveque = true;
    s.update(in_battle("SM_Eveque_ShieldTutorial*1", "Fight"));
    s.update(reads("Level_Lumiere", 100.0));
    assert!(!tick(TimerPhase::Running, &settings, &s, &mut splits).split);
    settings.split = true;
    assert!(tick(TimerPhase::Running, &settings, &s, &mut splits).split);
}

#[test]
fn a_paused_or_ended_timer_does_nothing() {
    let mut s = state();
    let mut splits = Splits::new();
    let settings = Settings::default();
    s.update(reads("Level_Lumiere", 0.0));
    s.update(reads("Level_Lumiere", 0.02));
    for phase in [TimerPhase::Paused, TimerPhase::Ended, TimerPhase::Unknown] {
        assert_eq!(tick(phase, &settings, &s, &mut splits), NOTHING);
    }
}
