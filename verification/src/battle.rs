//! The battle part of the game state: the flow of a battle and how it ended.
use vstd::prelude::*;
use crate::text::eq_str;
use crate::watcher::{next_pair, PairView, Watcher};

verus! {

/// `BattleFlowState`: no battle.
pub const FLOW_OUT_OF_BATTLE: u8 = 0;

/// `BattleFlowState`: a battle is loading.
pub const FLOW_LOADING: u8 = 1;

/// `BattleFlowState`: a battle is under way.
pub const FLOW_IN_BATTLE: u8 = 2;

/// `BattleEndState`: the expedition failed (the party was defeated).
pub const END_EXPEDITION_FAILED: u8 = 2;

/// The value that stands for a number that could not be read.
pub const UNREAD: u8 = 255;

/// A number read from the game, with `UNREAD` where the read failed.
pub open spec fn byte_or_unread(read: Option<u8>) -> u8 {
    match read {
        Some(v) => v,
        None => UNREAD,
    }
}

/// A text read from the game, empty where the read failed.
pub open spec fn text_or_empty(read: Option<String>) -> Seq<char> {
    match read {
        Some(s) => s@,
        None => Seq::empty(),
    }
}

/// Whether a flow state is that of a battle loading or under way, when the
/// details of the battle are read.
pub open spec fn battle_active(flow: u8) -> bool {
    FLOW_OUT_OF_BATTLE < flow && flow <= FLOW_IN_BATTLE
}

/// Whether `name` is one of the debug flow steps during which a battle loads.
pub open spec fn is_loading_step(name: Seq<char>) -> bool {
    name == "InitBattle"@ || name == "LoadDependencies"@ || name == "Dependencies loaded"@
}

/// The details of a battle that a sample reads while one is active; `None`
/// where a read failed.
pub struct BattleReads {
    pub end_state: Option<u8>,
    pub encounter_name: Option<String>,
    pub debug_last_flow_state: Option<String>,
}

impl BattleReads {
    /// The end state that the sample records.
    pub open spec fn end_value(reads: Option<BattleReads>) -> u8 {
        match reads {
            Some(r) => byte_or_unread(r.end_state),
            None => UNREAD,
        }
    }

    /// The encounter name that the sample records.
    pub open spec fn name_value(reads: Option<BattleReads>) -> Seq<char> {
        match reads {
            Some(r) => text_or_empty(r.encounter_name),
            None => Seq::empty(),
        }
    }

    /// The debug flow step that the sample records.
    pub open spec fn step_value(reads: Option<BattleReads>) -> Seq<char> {
        match reads {
            Some(r) => text_or_empty(r.debug_last_flow_state),
            None => Seq::empty(),
        }
    }
}

pub struct Battle {
    pub battle_end_state: Watcher<u8>,
    pub battle_flow_state: Watcher<u8>,
    pub battle_manager_encounter_name: Watcher<String>,
    pub battle_debug_last_flow_state: Watcher<String>,
}

fn text_or_empty_exec(read: Option<String>) -> (r: String)
    ensures
        r@ == text_or_empty(read),
{
    match read {
        Some(s) => s,
        None => String::new(),
    }
}

impl Battle {
    /// Once a battle has been active, its details have been sampled.
    pub open spec fn wf(&self) -> bool {
        (self.battle_flow_state@ matches Some(p) && (battle_active(p.current) || battle_active(
            p.old,
        ))) ==> {
            &&& self.battle_end_state@ is Some
            &&& self.battle_manager_encounter_name@ is Some
            &&& self.battle_debug_last_flow_state@ is Some
        }
    }

    pub open spec fn flow(&self) -> PairView<u8> {
        self.battle_flow_state@->0
    }

    /// The party was defeated: the flow went back to no battle while the end
    /// state said the expedition failed.
    pub open spec fn lost(&self) -> bool {
        match self.battle_end_state@ {
            Some(e) => self.flow().old != FLOW_OUT_OF_BATTLE && self.flow().current
                == FLOW_OUT_OF_BATTLE && e.old == END_EXPEDITION_FAILED,
            None => false,
        }
    }

    /// A battle ended and was not lost.
    pub open spec fn finished(&self) -> bool {
        self.flow().old == FLOW_IN_BATTLE && self.flow().current == FLOW_OUT_OF_BATTLE
            && !self.lost()
    }

    /// A battle is under way and its debug flow step is a loading step.
    pub open spec fn loading(&self) -> bool {
        self.flow().current == FLOW_IN_BATTLE && is_loading_step(
            self.battle_debug_last_flow_state@->0.current,
        )
    }

    /// `self` is `prev` after recording a sample: the flow state (`UNREAD`
    /// where it could not be read) and, while a battle is active, its details
    /// (empty or `UNREAD` where they could not be read). Out of battle the
    /// details keep their values.
    pub open spec fn records(self, prev: Battle, flow_state: Option<u8>, details: Option<BattleReads>) -> bool {
        &&& self.battle_flow_state@ == Some(
            next_pair(prev.battle_flow_state@, byte_or_unread(flow_state)),
        )
        &&& battle_active(byte_or_unread(flow_state)) ==> {
            &&& self.battle_end_state@ == Some(
                next_pair(prev.battle_end_state@, BattleReads::end_value(details)),
            )
            &&& self.battle_manager_encounter_name@ == Some(
                next_pair(
                    prev.battle_manager_encounter_name@,
                    BattleReads::name_value(details),
                ),
            )
            &&& self.battle_debug_last_flow_state@ == Some(
                next_pair(
                    prev.battle_debug_last_flow_state@,
                    BattleReads::step_value(details),
                ),
            )
        }
        &&& !battle_active(byte_or_unread(flow_state)) ==> {
            &&& self.battle_end_state@ == prev.battle_end_state@
            &&& self.battle_manager_encounter_name@
                == prev.battle_manager_encounter_name@
            &&& self.battle_debug_last_flow_state@
                == prev.battle_debug_last_flow_state@
        }
    }

    /// No sample yet.
    pub fn new() -> (b: Battle)
        ensures
            b.battle_end_state@ is None,
            b.battle_flow_state@ is None,
            b.battle_manager_encounter_name@ is None,
            b.battle_debug_last_flow_state@ is None,
            b.wf(),
    {
        Battle {
            battle_end_state: Watcher::new(),
            battle_flow_state: Watcher::new(),
            battle_manager_encounter_name: Watcher::new(),
            battle_debug_last_flow_state: Watcher::new(),
        }
    }

    /// Whether a sample with this flow state read reads the battle's details.
    pub fn needs_details(flow_state: Option<u8>) -> (r: bool)
        ensures
            r == battle_active(byte_or_unread(flow_state)),
    {
        let flow = match flow_state {
            Some(v) => v,
            None => UNREAD,
        };
        FLOW_OUT_OF_BATTLE < flow && flow <= FLOW_IN_BATTLE
    }

    /// Records a sample: the flow state (`UNREAD` where it could not be read)
    /// and, while a battle is active, its details (empty or `UNREAD` where they
    /// could not be read). Out of battle the details keep their values.
    pub fn update(&mut self, flow_state: Option<u8>, details: Option<BattleReads>) -> (r: &Self)
        requires
            old(self).wf(),
        ensures
            final(self).wf(),
            final(self).records(*old(self), flow_state, details),
            *r == *final(self),
    {
        let flow = match flow_state {
            Some(v) => v,
            None => UNREAD,
        };
        self.battle_flow_state.update_infallible(flow);
        if FLOW_OUT_OF_BATTLE < flow && flow <= FLOW_IN_BATTLE {
            let (end_state, name, step) = match details {
                Some(r) => (r.end_state, r.encounter_name, r.debug_last_flow_state),
                None => (None, None, None),
            };
            let end = match end_state {
                Some(v) => v,
                None => UNREAD,
            };
            self.battle_end_state.update_infallible(end);
            self.battle_manager_encounter_name.update(Some(text_or_empty_exec(name)));
            self.battle_debug_last_flow_state.update(Some(text_or_empty_exec(step)));
        }
        self
    }

    /// Whether a battle is under way.
    pub fn is_in_battle(&self) -> (r: bool)
        requires
            self.battle_flow_state@ is Some,
        ensures
            r == (self.flow().current == FLOW_IN_BATTLE),
    {
        self.battle_flow_state.pair.as_ref().unwrap().current == FLOW_IN_BATTLE
    }

    /// Whether the party was just defeated.
    pub fn battle_lost(&self) -> (r: bool)
        requires
            self.battle_end_state@ is Some ==> self.battle_flow_state@ is Some,
        ensures
            r == self.lost(),
    {
        match &self.battle_end_state.pair {
            Some(end) => {
                self.battle_flow_state.pair.as_ref().unwrap().changed_to(&FLOW_OUT_OF_BATTLE)
                    && end.old == END_EXPEDITION_FAILED
            },
            None => false,
        }
    }

    /// Whether a battle just ended in any other way than a defeat.
    pub fn is_battle_finished(&self) -> (r: bool)
        requires
            self.battle_flow_state@ is Some,
        ensures
            r == self.finished(),
    {
        self.battle_flow_state.pair.as_ref().unwrap().changed_from_to(
            &FLOW_IN_BATTLE,
            &FLOW_OUT_OF_BATTLE,
        ) && !self.battle_lost()
    }

    /// Whether a battle under way is still loading.
    pub fn is_battle_loading(&self) -> (r: bool)
        requires
            self.battle_flow_state@ is Some,
            self.flow().current == FLOW_IN_BATTLE ==> self.battle_debug_last_flow_state@ is Some,
        ensures
            r == self.loading(),
    {
        if !self.is_in_battle() {
            return false;
        }
        let step = &self.battle_debug_last_flow_state.pair.as_ref().unwrap().current;
        eq_str(step, "InitBattle") || eq_str(step, "LoadDependencies") || eq_str(
            step,
            "Dependencies loaded",
        )
    }
}

/// A battle is finished exactly when the flow went from a battle under way to
/// no battle and the end state sampled before that did not say the expedition
/// failed.
pub proof fn law_finished_battle(b: Battle)
    ensures
        b.finished() == (b.battle_flow_state@->0.old == 2 && b.battle_flow_state@->0.current == 0
            && !(b.battle_end_state@ is Some && b.battle_end_state@->0.old == 2)),
        b.lost() == (b.battle_end_state@ is Some && b.battle_flow_state@->0.old != 0
            && b.battle_flow_state@->0.current == 0 && b.battle_end_state@->0.old == 2),
{
}

/// A defeat is never a finished battle.
pub proof fn law_lost_is_not_finished(b: Battle)
    ensures
        b.lost() ==> !b.finished(),
{
}

} // verus!
