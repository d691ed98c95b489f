//! Load removal, start, split and reset decisions for a LiveSplit auto splitter
//! of Clair Obscur: Expedition 33. The host reads the game's memory and drives
//! the timer; this library keeps the game state from sample to sample and
//! decides what the timer does.
pub mod battle;
pub mod cutscene;
pub mod float_bits;
pub mod gamestate;
pub mod helpers;
pub mod paths;
pub mod settings;
pub mod splits;
pub mod tables;
pub mod text;
pub mod watcher;

use vstd::prelude::*;
use crate::gamestate::{GameReads, GameState};
use crate::settings::Settings;
use crate::splits::{after_sample, law_split_fires_once, reached_split, split_fires, SplitsView, Splits};
use crate::float_bits::{f64_eq, f64_lt, F64_FIVE, F64_TEN, F64_ZERO};
use crate::text::{has_substring, parse_u32, parsed_u32, utf16_decoded, utf16_to_string};

verus! {

/// The build version that the game shows while it starts up, before the real
/// one is known.
pub const PLACEHOLDER_BUILD_VERSION: u32 = 999999;

/// The build version that a version text read from the game gives: its
/// decimal number, unless the text is not UTF-16 or no number, or the number is
/// the start-up placeholder.
pub open spec fn build_version_from(units: Seq<u16>) -> Option<u32> {
    match utf16_decoded(units) {
        Some(text) => match parsed_u32(text) {
            Some(v) => if v != PLACEHOLDER_BUILD_VERSION {
                Some(v)
            } else {
                None
            },
            None => None,
        },
        None => None,
    }
}

/// What the auto splitter knows of the attached game.
pub struct State {
    pub local_player: u64,
    pub build_version: u32,
    pub path: String,
    pub game_state: GameState,
}

impl State {
    /// The state of a game just attached: where its local player is, its build
    /// version, the path of its executable, and nothing sampled yet.
    pub fn init(local_player: u64, build_version: u32, path: String) -> (s: State)
        ensures
            s.local_player == local_player,
            s.build_version == build_version,
            s.path@ == path@,
            s.game_state.wf(),
            s.game_state.unsampled(),
    {
        State { local_player, build_version, path, game_state: GameState::new() }
    }

    /// The build version in a version text read from the game (UTF-16 units
    /// without the terminating zero), if it is known yet.
    pub fn parse_build_version(units: &[u16]) -> (r: Option<u32>)
        ensures
            r == build_version_from(units@),
    {
        match utf16_to_string(units) {
            Some(text) => match parse_u32(text.as_str()) {
                Some(v) => if v != PLACEHOLDER_BUILD_VERSION {
                    Some(v)
                } else {
                    None
                },
                None => None,
            },
            None => None,
        }
    }

    /// What `is_loading` reads of the game state is there, as far as it reads.
    pub open spec fn loading_readable(&self) -> bool {
        let g = self.game_state;
        &&& g.game_loading_readable()
        &&& !g.game_loading() ==> {
            &&& g.battle.battle_flow_state@ is Some
            &&& g.battle.flow().current == battle::FLOW_IN_BATTLE
                ==> g.battle.battle_debug_last_flow_state@ is Some
            &&& !g.battle.loading() ==> {
                &&& g.cutscene.cs_is_playing_cinematic@ is Some
                &&& g.cutscene.playing().current ==> g.cutscene.cs_cinematic_paused@ is Some
                &&& !(g.cutscene.playing().current && g.cutscene.cs_cinematic_paused@->0.current)
                    ==> {
                    &&& g.world@ is Some
                    &&& g.world_now() == "Level_WorldMap_Main_V2"@ ==> g.minimap_active@ is Some
                }
            }
        }
    }

    /// The game time stops: the game loads, a battle loads, a cinematic is
    /// paused, or the minimap is open.
    pub open spec fn loading(&self) -> bool {
        let g = self.game_state;
        ||| g.game_loading()
        ||| g.battle.loading()
        ||| (g.cutscene.playing().current && g.cutscene.cs_cinematic_paused@->0.current)
        ||| g.minimap_open()
    }

    /// Whether the game time stops at this sample.
    pub fn is_loading(&self) -> (r: bool)
        requires
            self.loading_readable(),
        ensures
            r == self.loading(),
    {
        self.game_state.is_game_loading() || self.game_state.battle.is_battle_loading()
            || self.game_state.cutscene.is_cutscene_loading() || self.game_state.is_minimap_open()
    }

    /// Records a sample of the game.
    pub fn update(&mut self, reads: GameReads) -> (r: &Self)
        requires
            old(self).game_state.wf(),
        ensures
            final(self).game_state.wf(),
            final(self).game_state.sampled(),
            final(self).game_state.records(old(self).game_state, reads),
            final(self).local_player == old(self).local_player,
            final(self).build_version == old(self).build_version,
            final(self).path == old(self).path,
            *r == *final(self),
    {
        self.game_state.update(reads);
        self
    }
}

/// The state of the runner's timer.
#[derive(PartialEq, Eq, Structural, Clone, Copy, Debug)]
pub enum TimerPhase {
    NotRunning,
    Running,
    Paused,
    Ended,
    Unknown,
}

/// What happens to the game time.
#[derive(PartialEq, Eq, Structural, Clone, Copy, Debug)]
pub enum GameTime {
    Pause,
    Resume,
}

/// What the host does to the timer after a sample.
#[derive(PartialEq, Eq, Structural, Clone, Copy, Debug)]
pub struct TickActions {
    /// Start the timer (once the host has checked that no mods are installed).
    pub start: bool,
    pub game_time: Option<GameTime>,
    pub split: bool,
    pub reset: bool,
}

/// The world that the main menu is.
pub open spec fn main_menu() -> Seq<char> {
    "Level_MainMenu"@
}

/// Whether the game just went back to the main menu.
pub open spec fn back_to_main_menu(g: GameState) -> bool {
    g.world@->0.old != main_menu() && g.world_now() == main_menu()
}

/// What the host does after a sample, for each phase of the timer. A timer
/// that does not run starts when the settings let it and a run starts. A
/// running timer pauses or resumes the game time, then splits when a split
/// fires, else resets when the settings let it and the game went back to the
/// main menu.
pub open spec fn tick_actions(
    phase: TimerPhase,
    settings: Settings,
    state: State,
    splits: SplitsView,
) -> TickActions {
    let none = TickActions { start: false, game_time: None, split: false, reset: false };
    match phase {
        TimerPhase::NotRunning => TickActions {
            start: settings.start && state.game_state.starting_run(settings.ng_plus),
            ..none
        },
        TimerPhase::Running => {
            let split = settings.split && split_fires(splits, state.game_state, settings);
            TickActions {
                game_time: Some(
                    if state.loading() {
                        GameTime::Pause
                    } else {
                        GameTime::Resume
                    },
                ),
                split: split,
                reset: !split && settings.reset && back_to_main_menu(state.game_state),
                ..none
            }
        },
        _ => none,
    }
}

/// The splits after a sample: forgotten when a timer that does not run does
/// not start, or when a running timer resets; brought up to date with the
/// sample where the settings let the timer split.
pub open spec fn tick_splits(
    phase: TimerPhase,
    settings: Settings,
    state: State,
    splits: SplitsView,
) -> SplitsView {
    let forgotten = SplitsView { done: Set::<Seq<char>>::empty(), ..splits };
    match phase {
        TimerPhase::NotRunning => if settings.start && state.game_state.starting_run(
            settings.ng_plus,
        ) {
            splits
        } else {
            forgotten
        },
        TimerPhase::Running => if settings.split {
            if split_fires(splits, state.game_state, settings) {
                after_sample(splits, state.game_state, settings)
            } else if settings.reset && back_to_main_menu(state.game_state) {
                SplitsView { done: Set::<Seq<char>>::empty(), ..after_sample(splits, state.game_state, settings) }
            } else {
                after_sample(splits, state.game_state, settings)
            }
        } else if settings.reset && back_to_main_menu(state.game_state) {
            forgotten
        } else {
            splits
        },
        _ => splits,
    }
}

/// Decides what the timer does after a sample of the game, and keeps the
/// splits done in this run.
pub fn tick(phase: TimerPhase, settings: &Settings, state: &State, splits: &mut Splits) -> (r:
    TickActions)
    requires
        old(splits).wf(),
        state.game_state.wf(),
        state.game_state.sampled(),
    ensures
        final(splits).wf(),
        r == tick_actions(phase, *settings, *state, old(splits)@),
        final(splits)@ == tick_splits(phase, *settings, *state, old(splits)@),
{
    let mut actions = TickActions { start: false, game_time: None, split: false, reset: false };
    match phase {
        TimerPhase::NotRunning => {
            if settings.start && state.game_state.is_starting_run(settings.ng_plus) {
                actions.start = true;
            } else {
                splits.reset();
            }
        },
        TimerPhase::Running => {
            actions.game_time = Some(
                if state.is_loading() {
                    GameTime::Pause
                } else {
                    GameTime::Resume
                },
            );
            if settings.split && splits.should_split(&state.game_state, settings) {
                actions.split = true;
            } else {
                let menu = String::from_str("Level_MainMenu");
                if settings.reset && state.game_state.world.pair.as_ref().unwrap().changed_to(&menu) {
                    actions.reset = true;
                    splits.reset();
                }
            }
        },
        _ => {},
    }
    actions
}

/// When a sample makes the running timer split, the next sample of the running
/// timer does not split for the same split.
pub proof fn law_tick_splits_once(
    settings: Settings,
    first: State,
    later_settings: Settings,
    later: State,
    splits: SplitsView,
)
    requires
        tick_actions(TimerPhase::Running, settings, first, splits).split,
    ensures
        ({
            let next = tick_splits(TimerPhase::Running, settings, first, splits);
            tick_actions(TimerPhase::Running, later_settings, later, next).split ==> reached_split(
                next,
                later.game_state,
            ) != reached_split(splits, first.game_state)
        }),
{
    law_split_fires_once(
        splits,
        first.game_state,
        settings,
        later.game_state,
        later_settings,
    );
}

/// The pause menu is no load for the timer either: two states that differ only
/// in whether the pause menu shows stop the game time alike.
pub proof fn law_pause_menu_does_not_stop_game_time(
    s: State,
    menu: crate::watcher::Watcher<bool>,
)
    ensures
        (State {
            game_state: GameState { is_pause_menu_visible: menu, ..s.game_state },
            ..s
        }).loading() == s.loading(),
{
}

/// The running timer pauses the game time exactly while loading, and resumes
/// it otherwise; in the other phases it leaves the game time alone.
pub proof fn law_game_time_follows_loading(
    phase: TimerPhase,
    settings: Settings,
    state: State,
    splits: SplitsView,
)
    ensures
        phase == TimerPhase::Running ==> tick_actions(phase, settings, state, splits).game_time
            == Some(
            if state.loading() {
                GameTime::Pause
            } else {
                GameTime::Resume
            },
        ),
        phase != TimerPhase::Running ==> tick_actions(phase, settings, state, splits).game_time
            is None,
{
}

/// The timer resets only while running, with resetting on, when the game has
/// just entered the main menu world `Level_MainMenu` and no split fired; then
/// it forgets the splits done. Entering the main menu that way does reset.
pub proof fn law_reset_only_entering_main_menu(
    phase: TimerPhase,
    settings: Settings,
    state: State,
    splits: SplitsView,
)
    ensures
        tick_actions(phase, settings, state, splits).reset ==> {
            &&& phase == TimerPhase::Running
            &&& settings.reset
            &&& state.game_state.world@->0.old != "Level_MainMenu"@
            &&& state.game_state.world_now() == "Level_MainMenu"@
            &&& !tick_actions(phase, settings, state, splits).split
            &&& tick_splits(phase, settings, state, splits).done == Set::<Seq<char>>::empty()
        },
        (phase == TimerPhase::Running && settings.reset && state.game_state.world@->0.old
            != "Level_MainMenu"@ && state.game_state.world_now() == "Level_MainMenu"@
            && !tick_actions(phase, settings, state, splits).split) ==> tick_actions(
            phase,
            settings,
            state,
            splits,
        ).reset,
{
}

/// A stopped timer starts on a new game: with starting on, when the time
/// played goes from zero to above zero and below five seconds. The splits are
/// kept.
pub proof fn law_start_on_new_game(settings: Settings, state: State, splits: SplitsView)
    requires
        settings.start,
        f64_eq(state.game_state.time().old, F64_ZERO),
        f64_lt(F64_ZERO, state.game_state.time().current),
        f64_lt(state.game_state.time().current, F64_FIVE),
    ensures
        tick_actions(TimerPhase::NotRunning, settings, state, splits).start,
        tick_splits(TimerPhase::NotRunning, settings, state, splits) == splits,
{
}

/// With New Game+ on, a stopped timer starts when, past ten seconds of time
/// played, a playing cinematic just got a name that contains `MCS_MyFlower`.
/// The splits are kept.
pub proof fn law_start_on_new_game_plus(settings: Settings, state: State, splits: SplitsView)
    requires
        settings.start,
        settings.ng_plus,
        f64_lt(F64_TEN, state.game_state.time().current),
        state.game_state.cutscene.playing().current,
        state.game_state.cutscene.name().old == Seq::<char>::empty(),
        has_substring(state.game_state.cutscene.name().current, "MCS_MyFlower"@),
    ensures
        tick_actions(TimerPhase::NotRunning, settings, state, splits).start,
        tick_splits(TimerPhase::NotRunning, settings, state, splits) == splits,
{
    reveal_strlit("MCS_MyFlower");
    let name = state.game_state.cutscene.name().current;
    let i = choose|i: int|
        0 <= i && i + "MCS_MyFlower"@.len() <= name.len() && #[trigger] name.subrange(
            i,
            i + "MCS_MyFlower"@.len(),
        ) == "MCS_MyFlower"@;
    assert(name.len() >= 12);
    assert(name != Seq::<char>::empty());
}

/// The timer starts only on a new game (the time played just left zero and is
/// under five seconds) or, with New Game+ on, when past ten seconds a playing
/// cinematic just got a name that contains `MCS_MyFlower`.
pub proof fn law_start_only_at_a_run_start(settings: Settings, state: State, splits: SplitsView)
    ensures
        tick_actions(TimerPhase::NotRunning, settings, state, splits).start ==> {
            let t = state.game_state.time();
            let c = state.game_state.cutscene;
            ||| (f64_eq(t.old, F64_ZERO) && f64_lt(F64_ZERO, t.current) && f64_lt(t.current, F64_FIVE))
            ||| (settings.ng_plus && f64_lt(F64_TEN, t.current) && c.playing().current
                && c.name().old == Seq::<char>::empty() && has_substring(
                c.name().current,
                "MCS_MyFlower"@,
            ))
        },
{
}

/// The timer starts only when stopped and with starting on; a stopped timer
/// that does not start forgets the splits.
pub proof fn law_start_needs_setting(
    phase: TimerPhase,
    settings: Settings,
    state: State,
    splits: SplitsView,
)
    ensures
        tick_actions(phase, settings, state, splits).start ==> phase == TimerPhase::NotRunning
            && settings.start,
        (phase == TimerPhase::NotRunning && !tick_actions(phase, settings, state, splits).start)
            ==> tick_splits(phase, settings, state, splits).done == Set::<Seq<char>>::empty(),
{
}

} // verus!
