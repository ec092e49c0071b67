//! The frame loop: one tick for each refresh signal, re-armed after each
//! tick, until it is stopped or a tick fails.

use crate::error::ErrorKind;
use vstd::prelude::*;

verus! {

/// Where the loop stands.
#[derive(Clone, Copy, Debug, PartialEq, Eq, Structural)]
pub enum LoopState {
    /// Not started yet.
    Idle,
    /// Registered for the next refresh signal.
    Armed,
    /// The signal came and the tick is under way.
    Ticking,
    /// Stopped by its owner; it will not tick again.
    Stopped,
    /// Halted by a failure; it will not tick again.
    Failed(ErrorKind),
}

impl LoopState {
    /// Whether the loop may still tick: it is armed or in a tick.
    pub open spec fn live(self) -> bool {
        self == LoopState::Armed || self == LoopState::Ticking
    }

    /// After a start: a loop that was never started is armed, any other is
    /// as it was.
    pub open spec fn start(self) -> LoopState {
        if self == LoopState::Idle {
            LoopState::Armed
        } else {
            self
        }
    }

    /// After a refresh signal: an armed loop goes into its tick, any other
    /// is as it was.
    pub open spec fn refresh(self) -> LoopState {
        if self == LoopState::Armed {
            LoopState::Ticking
        } else {
            self
        }
    }

    /// After a tick was carried out: a loop in its tick is armed again if
    /// all went well, and has failed if not; any other is as it was.
    pub open spec fn finish(self, outcome: Result<(), ErrorKind>) -> LoopState {
        if self == LoopState::Ticking {
            match outcome {
                Ok(_) => LoopState::Armed,
                Err(kind) => LoopState::Failed(kind),
            }
        } else {
            self
        }
    }

    /// After a stop: a loop that has not failed is stopped.
    pub open spec fn stop(self) -> LoopState {
        match self {
            LoopState::Failed(kind) => self,
            _ => LoopState::Stopped,
        }
    }
}

/// The scheduler of the scene. The host owns the registration with its
/// refresh signal; the loop says when to register and when to tick.
#[derive(Clone, Copy, Debug)]
pub struct FrameLoop {
    state: LoopState,
}

impl View for FrameLoop {
    type V = LoopState;

    closed spec fn view(&self) -> LoopState {
        self.state
    }
}

impl FrameLoop {
    /// A loop that was not started yet.
    pub fn new() -> (l: FrameLoop)
        ensures
            l@ == LoopState::Idle,
    {
        FrameLoop { state: LoopState::Idle }
    }

    /// Where the loop stands.
    pub fn state(&self) -> (s: LoopState)
        ensures
            s == self@,
    {
        self.state
    }

    /// Starts the loop. Returns whether the host has to register for the
    /// first refresh signal: it has if the loop was never started before.
    pub fn start(&mut self) -> (arm: bool)
        ensures
            final(self)@ == old(self)@.start(),
            arm == (old(self)@ == LoopState::Idle),
    {
        match self.state {
            LoopState::Idle => {
                self.state = LoopState::Armed;
                true
            },
            _ => false,
        }
    }

    /// A refresh signal came. Returns whether a tick is due: it is if the
    /// loop was armed.
    pub fn refresh(&mut self) -> (tick: bool)
        ensures
            final(self)@ == old(self)@.refresh(),
            tick == (old(self)@ == LoopState::Armed),
    {
        match self.state {
            LoopState::Armed => {
                self.state = LoopState::Ticking;
                true
            },
            _ => false,
        }
    }

    /// The tick was carried out, with the given outcome. Returns whether the
    /// host has to register for the next refresh signal: it has if the loop
    /// was in its tick and the tick went well. A failed tick halts the loop.
    pub fn finish(&mut self, outcome: Result<(), ErrorKind>) -> (arm: bool)
        ensures
            final(self)@ == old(self)@.finish(outcome),
            arm == (old(self)@ == LoopState::Ticking && outcome is Ok),
    {
        match self.state {
            LoopState::Ticking => match outcome {
                Ok(_) => {
                    self.state = LoopState::Armed;
                    true
                },
                Err(kind) => {
                    self.state = LoopState::Failed(kind);
                    false
                },
            },
            _ => false,
        }
    }

    /// Stops the loop: no tick follows, and the host may release its
    /// registration. A loop that has failed keeps its failure.
    pub fn stop(&mut self)
        ensures
            final(self)@ == old(self)@.stop(),
            !final(self)@.live(),
    {
        match self.state {
            LoopState::Failed(_) => {},
            _ => {
                self.state = LoopState::Stopped;
            },
        }
    }
}

/// A loop that was stopped or has failed is at its end: nothing starts it,
/// ticks it or arms it again.
pub proof fn lemma_ended_loop_stays(state: LoopState, outcome: Result<(), ErrorKind>)
    requires
        state == LoopState::Stopped || state is Failed,
    ensures
        state.start() == state,
        state.refresh() == state,
        state.finish(outcome) == state,
        state.stop() == state,
        !state.live(),
{
}

/// A tick is carried out once: between two ticks the loop has to be armed
/// again, which only a tick that went well does.
pub proof fn lemma_one_tick_per_signal(state: LoopState, outcome: Result<(), ErrorKind>)
    ensures
        state.refresh().refresh() == state.refresh(),
        state.refresh() == LoopState::Ticking ==> (state.refresh().finish(outcome)
            == LoopState::Armed <==> outcome is Ok),
        state == LoopState::Armed ==> state.refresh() == LoopState::Ticking,
{
}

} // verus!
