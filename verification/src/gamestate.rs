//! The state of the game as the auto splitter follows it, sample after sample.
use vstd::prelude::*;
use crate::battle::{Battle, BattleReads};
use crate::cutscene::{flag_or_false, Cutscene, CutsceneReads};
use crate::float_bits::{f32_less, f32_lt, f64_eq, f64_equal, f64_less, f64_lt, F32_HALF, F64_FIVE, F64_TEN, F64_ZERO};
use crate::text::{contains_str, eq_str, has_substring};
use crate::watcher::{next_pair, PairView, Watcher};

verus! {

/// The build from which the minimap flag moved in the game's memory.
pub const MINIMAP_PATH_CHANGE_BUILD: u32 = 57661;

/// A pattern read from the game, 0 (that of `0.0`) where the read failed.
pub open spec fn bits_or_zero_u64(read: Option<u64>) -> u64 {
    match read {
        Some(v) => v,
        None => 0,
    }
}

/// A pattern read from the game, 0 (that of `0.0`) where the read failed.
pub open spec fn bits_or_zero_u32(read: Option<u32>) -> u32 {
    match read {
        Some(v) => v,
        None => 0,
    }
}

/// A world name read from the game, empty where the read failed.
pub open spec fn world_value(read: Option<String>) -> Seq<char> {
    match read {
        Some(s) => s@,
        None => Seq::empty(),
    }
}

/// Everything that one sample reads from the game; `None` where a read failed.
/// Floating-point values come as their bit patterns. `battle` and `cutscene`
/// are the details read while a battle is active or a cinematic plays.
pub struct GameReads {
    pub is_pause_menu_visible: Option<bool>,
    pub world: Option<String>,
    pub time_played: Option<u64>,
    pub is_changing_area: Option<bool>,
    pub is_changing_map: Option<bool>,
    pub lsw_has_appeared: Option<bool>,
    pub pcm_in_game: Option<u32>,
    pub battle_flow_state: Option<u8>,
    pub battle: Option<BattleReads>,
    pub is_playing_cinematic: Option<bool>,
    pub cutscene: Option<CutsceneReads>,
    pub transition_started: Option<bool>,
    pub minimap_active: Option<bool>,
}

fn or_false(read: Option<bool>) -> (r: bool)
    ensures
        r == flag_or_false(read),
{
    match read {
        Some(v) => v,
        None => false,
    }
}

/// `time_played` holds the bit pattern of an `f64` and `pcm_in_game` that of an
/// `f32`.
pub struct GameState {
    pub battle: Battle,
    pub cutscene: Cutscene,
    pub is_changing_area: Watcher<bool>,
    pub is_changing_map: Watcher<bool>,
    pub is_pause_menu_visible: Watcher<bool>,
    pub lsw_has_appeared: Watcher<bool>,
    pub time_played: Watcher<u64>,
    pub minimap_active: Watcher<bool>,
    pub pcm_in_game: Watcher<u32>,
    pub world: Watcher<String>,
}

impl GameState {
    pub open spec fn wf(&self) -> bool {
        self.battle.wf() && self.cutscene.wf()
    }

    /// At least one sample has been recorded.
    pub open spec fn sampled(&self) -> bool {
        &&& self.world@ is Some
        &&& self.is_changing_area@ is Some
        &&& self.is_changing_map@ is Some
        &&& self.is_pause_menu_visible@ is Some
        &&& self.lsw_has_appeared@ is Some
        &&& self.time_played@ is Some
        &&& self.minimap_active@ is Some
        &&& self.pcm_in_game@ is Some
        &&& self.battle.battle_flow_state@ is Some
        &&& self.cutscene.cs_is_playing_cinematic@ is Some
    }

    pub open spec fn world_now(&self) -> Seq<char> {
        self.world@->0.current
    }

    pub open spec fn time(&self) -> PairView<u64> {
        self.time_played@->0
    }

    /// What `is_game_loading` reads is there, as far as it reads.
    pub open spec fn game_loading_readable(&self) -> bool {
        &&& self.world@ is Some
        &&& self.world_now() != "Map_Game_Bootstrap"@ ==> {
            &&& self.is_changing_area@ is Some
            &&& !self.is_changing_area@->0.current ==> {
                &&& self.is_changing_map@ is Some
                &&& !self.is_changing_map@->0.current ==> {
                    &&& self.lsw_has_appeared@ is Some
                    &&& (!self.lsw_has_appeared@->0.current && self.world_now()
                        != "Level_Main_Menu"@) ==> self.pcm_in_game@ is Some
                }
            }
        }
    }

    /// The game is loading: it is on the bootstrap map, changing area or map,
    /// showing the loading screen widget, or, out of the main menu, the player
    /// controller is not (fully) in the game.
    pub open spec fn game_loading(&self) -> bool {
        ||| self.world_now() == "Map_Game_Bootstrap"@
        ||| self.is_changing_area@->0.current
        ||| self.is_changing_map@->0.current
        ||| self.lsw_has_appeared@->0.current
        ||| (self.world_now() != "Level_Main_Menu"@ && f32_lt(
            self.pcm_in_game@->0.current,
            F32_HALF,
        ))
    }

    pub open spec fn minimap_open(&self) -> bool {
        self.world_now() == "Level_WorldMap_Main_V2"@ && self.minimap_active@->0.current
    }

    /// What `is_starting_run` reads is there, as far as it reads.
    pub open spec fn starting_run_readable(&self, is_ng_plus: bool) -> bool {
        &&& self.time_played@ is Some
        &&& (is_ng_plus && f64_lt(F64_TEN, self.time().current))
            ==> self.cutscene.cs_is_playing_cinematic@ is Some
        &&& (is_ng_plus && f64_lt(F64_TEN, self.time().current)
            && self.cutscene.playing().current) ==> self.cutscene.cs_cinematic_name@ is Some
    }

    /// A run starts: on New Game+, once the time played passed ten seconds, when
    /// the opening cinematic `MCS_MyFlower` starts; otherwise when the time
    /// played leaves zero and is still under five seconds.
    pub open spec fn starting_run(&self, is_ng_plus: bool) -> bool {
        if is_ng_plus && f64_lt(F64_TEN, self.time().current) && self.cutscene.playing().current {
            self.cutscene.started() && has_substring(
                self.cutscene.name().current,
                "MCS_MyFlower"@,
            )
        } else {
            f64_eq(self.time().old, F64_ZERO) && f64_lt(F64_ZERO, self.time().current)
                && f64_lt(self.time().current, F64_FIVE)
        }
    }

    /// `self` is `prev` after recording the sample `reads`. Flags that could not
    /// be read count as false, numbers as `0.0` and the world name as empty.
    pub open spec fn records(self, prev: GameState, reads: GameReads) -> bool {
        &&& self.is_pause_menu_visible@ == Some(
            next_pair(
                prev.is_pause_menu_visible@,
                flag_or_false(reads.is_pause_menu_visible),
            ),
        )
        &&& self.world@ == Some(next_pair(prev.world@, world_value(reads.world)))
        &&& self.time_played@ == Some(
            next_pair(prev.time_played@, bits_or_zero_u64(reads.time_played)),
        )
        &&& self.is_changing_area@ == Some(
            next_pair(prev.is_changing_area@, flag_or_false(reads.is_changing_area)),
        )
        &&& self.is_changing_map@ == Some(
            next_pair(prev.is_changing_map@, flag_or_false(reads.is_changing_map)),
        )
        &&& self.lsw_has_appeared@ == Some(
            next_pair(prev.lsw_has_appeared@, flag_or_false(reads.lsw_has_appeared)),
        )
        &&& self.pcm_in_game@ == Some(
            next_pair(prev.pcm_in_game@, bits_or_zero_u32(reads.pcm_in_game)),
        )
        &&& self.minimap_active@ == Some(
            next_pair(prev.minimap_active@, flag_or_false(reads.minimap_active)),
        )
        &&& self.battle.records(prev.battle, reads.battle_flow_state, reads.battle)
        &&& self.cutscene.records(
            prev.cutscene,
            reads.is_playing_cinematic,
            reads.cutscene,
            reads.transition_started,
        )
    }

    /// Nothing sampled: every watcher is empty but the cinematic name, which
    /// starts out as the empty name.
    pub open spec fn unsampled(&self) -> bool {
        &&& self.battle.battle_end_state@ is None
        &&& self.battle.battle_flow_state@ is None
        &&& self.battle.battle_manager_encounter_name@ is None
        &&& self.battle.battle_debug_last_flow_state@ is None
        &&& self.cutscene.cs_cinematic_status@ is None
        &&& self.cutscene.cs_cinematic_name@ == Some(
            PairView { old: Seq::<char>::empty(), current: Seq::<char>::empty() },
        )
        &&& self.cutscene.cs_cinematic_serial_number@ is None
        &&& self.cutscene.cs_cinematic_paused@ is None
        &&& self.cutscene.cs_is_playing_cinematic@ is None
        &&& self.cutscene.cs_event_before_post_cinematic_transition_started@ is None
        &&& self.is_changing_area@ is None
        &&& self.is_changing_map@ is None
        &&& self.is_pause_menu_visible@ is None
        &&& self.lsw_has_appeared@ is None
        &&& self.time_played@ is None
        &&& self.minimap_active@ is None
        &&& self.pcm_in_game@ is None
        &&& self.world@ is None
    }

    /// No sample yet.
    pub fn new() -> (g: GameState)
        ensures
            g.wf(),
            g.unsampled(),
    {
        GameState {
            battle: Battle::new(),
            cutscene: Cutscene::new(),
            is_changing_area: Watcher::new(),
            is_changing_map: Watcher::new(),
            is_pause_menu_visible: Watcher::new(),
            lsw_has_appeared: Watcher::new(),
            minimap_active: Watcher::new(),
            pcm_in_game: Watcher::new(),
            time_played: Watcher::new(),
            world: Watcher::new(),
        }
    }

    /// Records one sample of the game. Flags that could not be read count as
    /// false, numbers as `0.0` and the world name as empty.
    pub fn update(&mut self, reads: GameReads) -> (r: &Self)
        requires
            old(self).wf(),
        ensures
            final(self).wf(),
            final(self).sampled(),
            final(self).records(*old(self), reads),
            *r == *final(self),
    {
        let GameReads {
            is_pause_menu_visible,
            world,
            time_played,
            is_changing_area,
            is_changing_map,
            lsw_has_appeared,
            pcm_in_game,
            battle_flow_state,
            battle,
            is_playing_cinematic,
            cutscene,
            transition_started,
            minimap_active,
        } = reads;
        self.is_pause_menu_visible.update(Some(or_false(is_pause_menu_visible)));
        let world = match world {
            Some(w) => w,
            None => String::new(),
        };
        self.world.update(Some(world));
        self.time_played.update_infallible(match time_played {
            Some(v) => v,
            None => 0,
        });
        self.is_changing_area.update_infallible(or_false(is_changing_area));
        self.is_changing_map.update_infallible(or_false(is_changing_map));
        self.lsw_has_appeared.update_infallible(or_false(lsw_has_appeared));
        self.pcm_in_game.update_infallible(match pcm_in_game {
            Some(v) => v,
            None => 0,
        });
        self.battle.update(battle_flow_state, battle);
        self.cutscene.update(is_playing_cinematic, cutscene, transition_started);
        self.minimap_active.update_infallible(or_false(minimap_active));
        self
    }

    /// Whether the game is loading.
    pub fn is_game_loading(&self) -> (r: bool)
        requires
            self.game_loading_readable(),
        ensures
            r == self.game_loading(),
    {
        let world = &self.world.pair.as_ref().unwrap().current;
        eq_str(world, "Map_Game_Bootstrap") || self.is_changing_area.pair.as_ref().unwrap().current
            || self.is_changing_map.pair.as_ref().unwrap().current
            || self.lsw_has_appeared.pair.as_ref().unwrap().current || (!eq_str(
            world,
            "Level_Main_Menu",
        ) && f32_less(self.pcm_in_game.pair.as_ref().unwrap().current, F32_HALF))
    }

    /// Whether the world map is shown with its minimap open.
    pub fn is_minimap_open(&self) -> (r: bool)
        requires
            self.world@ is Some,
            self.world_now() == "Level_WorldMap_Main_V2"@ ==> self.minimap_active@ is Some,
        ensures
            r == self.minimap_open(),
    {
        eq_str(&self.world.pair.as_ref().unwrap().current, "Level_WorldMap_Main_V2")
            && self.minimap_active.pair.as_ref().unwrap().current
    }

    /// Whether a run starts at this sample.
    pub fn is_starting_run(&self, is_ng_plus: bool) -> (r: bool)
        requires
            self.starting_run_readable(is_ng_plus),
        ensures
            r == self.starting_run(is_ng_plus),
    {
        let time_played = self.time_played.pair.as_ref().unwrap();
        if is_ng_plus && f64_less(F64_TEN, time_played.current) && self.cutscene.is_active() {
            return self.cutscene.has_started() && contains_str(
                self.cutscene.get_name(),
                "MCS_MyFlower",
            );
        }
        f64_equal(time_played.old, F64_ZERO) && f64_less(F64_ZERO, time_played.current)
            && f64_less(time_played.current, F64_FIVE)
    }

    /// The offsets from the local player to the minimap flag in this build.
    pub fn minimap_active_path(build_version: u32) -> (r: [u64; 5])
        ensures
            build_version >= MINIMAP_PATH_CHANGE_BUILD ==> r@ == seq![0x0u64, 0x30, 0x980, 0x3d0, 0x368],
            build_version < MINIMAP_PATH_CHANGE_BUILD ==> r@ == seq![0x0u64, 0x30, 0x980, 0x3c8, 0x368],
    {
        let r: [u64; 5] = if build_version >= MINIMAP_PATH_CHANGE_BUILD {
            [0x0, 0x30, 0x980, 0x3d0, 0x368]
        } else {
            [0x0, 0x30, 0x980, 0x3c8, 0x368]
        };
        assert(r@ =~= if build_version >= MINIMAP_PATH_CHANGE_BUILD {
            seq![0x0u64, 0x30, 0x980, 0x3d0, 0x368]
        } else {
            seq![0x0u64, 0x30, 0x980, 0x3c8, 0x368]
        });
        r
    }
}

/// The pause menu is no load: two game states that differ only in whether the
/// pause menu shows are loading alike.
pub proof fn law_pause_menu_is_no_load(g: GameState, menu: Watcher<bool>)
    ensures
        (GameState { is_pause_menu_visible: menu, ..g }).game_loading() == g.game_loading(),
{
}

/// Out of the bootstrap map, with no area or map change, no loading screen
/// widget and the player controller at 0.5 or more (or NaN), the game is not
/// loading; each of those on its own (the controller only out of the main menu)
/// makes it load.
pub proof fn law_game_loading_sources(g: GameState)
    ensures
        (g.world_now() != "Map_Game_Bootstrap"@ && !g.is_changing_area@->0.current
            && !g.is_changing_map@->0.current && !g.lsw_has_appeared@->0.current && !f32_lt(
            g.pcm_in_game@->0.current,
            F32_HALF,
        )) ==> !g.game_loading(),
        g.world_now() == "Map_Game_Bootstrap"@ ==> g.game_loading(),
        g.is_changing_area@->0.current ==> g.game_loading(),
        g.is_changing_map@->0.current ==> g.game_loading(),
        g.lsw_has_appeared@->0.current ==> g.game_loading(),
        (g.world_now() != "Level_Main_Menu"@ && f32_lt(g.pcm_in_game@->0.current, F32_HALF))
            ==> g.game_loading(),
{
}

} // verus!
