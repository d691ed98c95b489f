//! The cinematic part of the game state.
use vstd::prelude::*;
use crate::battle::text_or_empty;
use crate::watcher::{next_pair, updated, PairView, Watcher};

verus! {

/// A flag read from the game, false where the read failed.
pub open spec fn flag_or_false(read: Option<bool>) -> bool {
    match read {
        Some(v) => v,
        None => false,
    }
}

/// The details of a cinematic that a sample reads while one plays; `None`
/// where a read failed.
pub struct CutsceneReads {
    pub paused: Option<bool>,
    pub status: Option<u32>,
    pub name: Option<String>,
    pub serial_number: Option<u32>,
}

impl CutsceneReads {
    pub open spec fn paused_value(reads: Option<CutsceneReads>) -> bool {
        match reads {
            Some(r) => flag_or_false(r.paused),
            None => false,
        }
    }

    pub open spec fn status_value(reads: Option<CutsceneReads>) -> Option<u32> {
        match reads {
            Some(r) => r.status,
            None => None,
        }
    }

    pub open spec fn name_value(reads: Option<CutsceneReads>) -> Seq<char> {
        match reads {
            Some(r) => text_or_empty(r.name),
            None => Seq::empty(),
        }
    }

    pub open spec fn serial_value(reads: Option<CutsceneReads>) -> Option<u32> {
        match reads {
            Some(r) => r.serial_number,
            None => None,
        }
    }
}

pub struct Cutscene {
    pub cs_cinematic_status: Watcher<u32>,
    pub cs_cinematic_name: Watcher<String>,
    pub cs_cinematic_serial_number: Watcher<u32>,
    pub cs_cinematic_paused: Watcher<bool>,
    pub cs_is_playing_cinematic: Watcher<bool>,
    pub cs_event_before_post_cinematic_transition_started: Watcher<bool>,
}

impl Cutscene {
    /// The name has always been sampled, and so has the pause flag whenever a
    /// cinematic plays.
    pub open spec fn wf(&self) -> bool {
        &&& self.cs_cinematic_name@ is Some
        &&& (self.cs_is_playing_cinematic@ matches Some(p) && p.current)
            ==> self.cs_cinematic_paused@ is Some
    }

    pub open spec fn playing(&self) -> PairView<bool> {
        self.cs_is_playing_cinematic@->0
    }

    pub open spec fn name(&self) -> PairView<Seq<char>> {
        self.cs_cinematic_name@->0
    }

    /// A cinematic got a name: the name was empty and is not any more.
    pub open spec fn started(&self) -> bool {
        self.name().old == Seq::<char>::empty() && self.name().current != Seq::<char>::empty()
    }

    /// `self` is `prev` after recording a sample: whether a cinematic plays and
    /// whether the transition after a cinematic started (false where unread),
    /// and while one plays its details. A status or serial number that could not
    /// be read makes its watcher forget; a name that could not be read counts as
    /// empty.
    pub open spec fn records(
        self,
        prev: Cutscene,
        playing: Option<bool>,
        details: Option<CutsceneReads>,
        transition_started: Option<bool>,
    ) -> bool {
        &&& self.cs_is_playing_cinematic@ == Some(
            next_pair(prev.cs_is_playing_cinematic@, flag_or_false(playing)),
        )
        &&& self.cs_event_before_post_cinematic_transition_started@ == Some(
            next_pair(
                prev.cs_event_before_post_cinematic_transition_started@,
                flag_or_false(transition_started),
            ),
        )
        &&& flag_or_false(playing) ==> {
            &&& self.cs_cinematic_paused@ == Some(
                next_pair(
                    prev.cs_cinematic_paused@,
                    CutsceneReads::paused_value(details),
                ),
            )
            &&& self.cs_cinematic_status@ == updated(
                prev.cs_cinematic_status@,
                CutsceneReads::status_value(details),
            )
            &&& self.cs_cinematic_name@ == Some(
                next_pair(prev.cs_cinematic_name@, CutsceneReads::name_value(details)),
            )
            &&& self.cs_cinematic_serial_number@ == updated(
                prev.cs_cinematic_serial_number@,
                CutsceneReads::serial_value(details),
            )
        }
        &&& !flag_or_false(playing) ==> {
            &&& self.cs_cinematic_paused@ == prev.cs_cinematic_paused@
            &&& self.cs_cinematic_status@ == prev.cs_cinematic_status@
            &&& self.cs_cinematic_name@ == prev.cs_cinematic_name@
            &&& self.cs_cinematic_serial_number@
                == prev.cs_cinematic_serial_number@
        }
    }

    /// No sample yet; the name starts out empty.
    pub fn new() -> (c: Cutscene)
        ensures
            c.wf(),
            c.cs_cinematic_name@ == Some(
                PairView { old: Seq::<char>::empty(), current: Seq::<char>::empty() },
            ),
            c.cs_cinematic_status@ is None,
            c.cs_cinematic_serial_number@ is None,
            c.cs_cinematic_paused@ is None,
            c.cs_is_playing_cinematic@ is None,
            c.cs_event_before_post_cinematic_transition_started@ is None,
    {
        let mut cs_cinematic_name: Watcher<String> = Watcher::new();
        cs_cinematic_name.update_infallible(String::new());
        Cutscene {
            cs_cinematic_status: Watcher::new(),
            cs_cinematic_name: cs_cinematic_name,
            cs_cinematic_serial_number: Watcher::new(),
            cs_cinematic_paused: Watcher::new(),
            cs_is_playing_cinematic: Watcher::new(),
            cs_event_before_post_cinematic_transition_started: Watcher::new(),
        }
    }

    /// Whether a sample with this read of the playing flag reads the
    /// cinematic's details.
    pub fn needs_details(playing: Option<bool>) -> (r: bool)
        ensures
            r == flag_or_false(playing),
    {
        match playing {
            Some(v) => v,
            None => false,
        }
    }

    /// Records a sample: whether a cinematic plays and whether the transition
    /// after a cinematic started (false where unread), and while one plays its
    /// details. A status or serial number that could not be read makes its
    /// watcher forget; a name that could not be read counts as empty.
    pub fn update(
        &mut self,
        playing: Option<bool>,
        details: Option<CutsceneReads>,
        transition_started: Option<bool>,
    ) -> (r: &Self)
        requires
            old(self).wf(),
        ensures
            final(self).wf(),
            final(self).records(*old(self), playing, details, transition_started),
            *r == *final(self),
    {
        let is_playing = match playing {
            Some(v) => v,
            None => false,
        };
        self.cs_is_playing_cinematic.update(Some(is_playing));
        if is_playing {
            let (paused, status, name, serial) = match details {
                Some(r) => (r.paused, r.status, r.name, r.serial_number),
                None => (None, None, None, None),
            };
            let paused = match paused {
                Some(v) => v,
                None => false,
            };
            self.cs_cinematic_paused.update(Some(paused));
            self.cs_cinematic_status.update(status);
            let name = match name {
                Some(s) => s,
                None => String::new(),
            };
            self.cs_cinematic_name.update_infallible(name);
            self.cs_cinematic_serial_number.update(serial);
        }
        let started = match transition_started {
            Some(v) => v,
            None => false,
        };
        self.cs_event_before_post_cinematic_transition_started.update(Some(started));
        self
    }

    /// Whether a cinematic plays and is paused, which the timer counts as
    /// loading.
    pub fn is_cutscene_loading(&self) -> (r: bool)
        requires
            self.cs_is_playing_cinematic@ is Some,
            self.playing().current ==> self.cs_cinematic_paused@ is Some,
        ensures
            r == (self.playing().current && self.cs_cinematic_paused@->0.current),
    {
        self.cs_is_playing_cinematic.pair.as_ref().unwrap().current
            && self.cs_cinematic_paused.pair.as_ref().unwrap().current
    }

    /// Whether a cinematic just got its name.
    pub fn has_started(&self) -> (r: bool)
        requires
            self.cs_cinematic_name@ is Some,
        ensures
            r == self.started(),
    {
        let empty = String::new();
        self.cs_cinematic_name.pair.as_ref().unwrap().changed_from(&empty)
    }

    /// Whether a cinematic plays.
    pub fn is_active(&self) -> (r: bool)
        requires
            self.cs_is_playing_cinematic@ is Some,
        ensures
            r == self.playing().current,
    {
        self.cs_is_playing_cinematic.pair.as_ref().unwrap().current
    }

    /// The name of the latest cinematic.
    pub fn get_name(&self) -> (r: &String)
        requires
            self.cs_cinematic_name@ is Some,
        ensures
            r@ == self.name().current,
    {
        &self.cs_cinematic_name.pair.as_ref().unwrap().current
    }

    /// Whether a cinematic just stopped playing.
    pub fn is_over(&self) -> (r: bool)
        requires
            self.cs_is_playing_cinematic@ is Some,
        ensures
            r == (self.playing().old && !self.playing().current),
    {
        self.cs_is_playing_cinematic.pair.as_ref().unwrap().changed_to(&false)
    }
}

} // verus!
