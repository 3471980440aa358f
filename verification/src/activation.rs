//! The activation state machine: whether the computed ramp or the display's
//! own ramp is in effect, and what the display has to be asked for to get
//! from one to the other.
//!
//! The machine never talks to the display. It plans one session with it, the
//! caller holds that session, and the machine takes what came of it.

use vstd::prelude::*;
use crate::ramp::{calculate_ramp, ramp_of, RampTable};

verus! {

/// Whether the computed ramp is in effect, and the ramp that the display had
/// before the first time it was overwritten, once that has been read.
#[derive(Clone, Copy, Debug)]
pub struct ActivationState {
    pub is_active: bool,
    pub original_ramp: Option<RampTable>,
}

/// What one request asks of the display.
#[derive(Clone, Copy, Debug)]
pub enum DevicePlan {
    /// Nothing: the display is not touched.
    Nothing,
    /// One session: acquire the display; read its ramp now if `read_first`;
    /// write `write` if there is one; release the display.
    Session { read_first: bool, write: Option<RampTable> },
}

/// What came of one session with the display.
#[derive(Clone, Copy, Debug)]
pub enum DeviceOutcome {
    /// The display could not be acquired: nothing was read or written.
    Unavailable,
    /// The session was held. `current` is the ramp that was read, if one was
    /// asked for and the display gave it; `write_rejected` says that a write
    /// was made and the display refused it.
    Completed { current: Option<RampTable>, write_rejected: bool },
}

impl DevicePlan {
    /// The ramp that the plan has written, if any.
    pub open spec fn ramp_to_write(self) -> Option<RampTable> {
        match self {
            DevicePlan::Nothing => None,
            DevicePlan::Session { read_first, write } => write,
        }
    }

    /// The number of writes, none or one, that the display took in a session
    /// held for this plan and ended as `outcome`.
    pub open spec fn writes_taken(self, outcome: DeviceOutcome) -> nat {
        match outcome {
            DeviceOutcome::Completed { current, write_rejected: false } => if self.ramp_to_write()
                is Some {
                1
            } else {
                0
            },
            _ => 0,
        }
    }
}

impl ActivationState {
    /// The state at start: the display's own ramp in effect, nothing read yet.
    pub open spec fn idle() -> ActivationState {
        ActivationState { is_active: false, original_ramp: None }
    }

    /// What a request for `active` asks of the display when the ramp to apply
    /// is made from `samples`. A request for the state already held asks
    /// nothing. To apply, the display's own ramp is read first unless it is
    /// held already, then the computed ramp is written. To restore, the held
    /// ramp is written back, if there is one.
    pub open spec fn plan(self, active: bool, samples: Seq<u16>) -> DevicePlan {
        if self.is_active == active {
            DevicePlan::Nothing
        } else if active {
            DevicePlan::Session {
                read_first: self.original_ramp is None,
                write: Some(RampTable::with_levels(ramp_of(samples))),
            }
        } else {
            DevicePlan::Session { read_first: false, write: self.original_ramp }
        }
    }

    /// The state after a request for `active` whose session ended as
    /// `outcome`. The state moves only if the session was held and no write
    /// was refused. A ramp read during a session to apply is kept as the
    /// original if none was held; a held original is never replaced.
    pub open spec fn after_update(self, active: bool, outcome: DeviceOutcome) -> ActivationState {
        if self.is_active == active {
            self
        } else {
            match outcome {
                DeviceOutcome::Unavailable => self,
                DeviceOutcome::Completed { current, write_rejected } => ActivationState {
                    is_active: if write_rejected {
                        self.is_active
                    } else {
                        active
                    },
                    original_ramp: if active && self.original_ramp is None {
                        current
                    } else {
                        self.original_ramp
                    },
                },
            }
        }
    }

    /// What has to be written while the computed ramp is in effect and the
    /// settings it is made from have changed: the new ramp, with no read and
    /// no change of state. With the display's own ramp in effect, nothing.
    pub open spec fn refresh_plan(self, samples: Seq<u16>) -> DevicePlan {
        if self.is_active {
            DevicePlan::Session {
                read_first: false,
                write: Some(RampTable::with_levels(ramp_of(samples))),
            }
        } else {
            DevicePlan::Nothing
        }
    }

    /// A fresh state: the display's own ramp in effect, no original held.
    pub fn new() -> (state: ActivationState)
        ensures
            state == ActivationState::idle(),
    {
        ActivationState { is_active: false, original_ramp: None }
    }

    /// Plans the session for a request to apply (`active`) or restore the
    /// ramp.
    pub fn plan_update(&self, active: bool, samples: &[u16; 256]) -> (plan: DevicePlan)
        ensures
            plan == self.plan(active, samples@),
    {
        if self.is_active == active {
            DevicePlan::Nothing
        } else if active {
            let ramp = calculate_ramp(samples);
            DevicePlan::Session { read_first: self.original_ramp.is_none(), write: Some(ramp) }
        } else {
            DevicePlan::Session { read_first: false, write: self.original_ramp }
        }
    }

    /// Takes the outcome of the session planned for a request for `active`,
    /// and says whether the state moved.
    pub fn update_gamma(&mut self, active: bool, outcome: &DeviceOutcome) -> (moved: bool)
        ensures
            *final(self) == old(self).after_update(active, *outcome),
            moved == (final(self).is_active != old(self).is_active),
    {
        if self.is_active == active {
            return false;
        }
        match outcome {
            DeviceOutcome::Unavailable => false,
            DeviceOutcome::Completed { current, write_rejected } => {
                if active && self.original_ramp.is_none() {
                    self.original_ramp = *current;
                }
                if *write_rejected {
                    false
                } else {
                    self.is_active = active;
                    true
                }
            },
        }
    }

    /// Plans the rewrite that follows a change of settings.
    pub fn plan_refresh(&self, samples: &[u16; 256]) -> (plan: DevicePlan)
        ensures
            plan == self.refresh_plan(samples@),
    {
        if self.is_active {
            let ramp = calculate_ramp(samples);
            DevicePlan::Session { read_first: false, write: Some(ramp) }
        } else {
            DevicePlan::Nothing
        }
    }
}

/// A request that took effect leaves nothing to do for the same request
/// made again: the second asks nothing of the display and changes nothing,
/// whatever its session would have given.
pub proof fn lemma_repeated_request_is_a_no_op(
    state: ActivationState,
    active: bool,
    samples: Seq<u16>,
    first: DeviceOutcome,
    second: DeviceOutcome,
)
    requires
        state.after_update(active, first).is_active == active,
    ensures
        state.after_update(active, first).plan(active, samples) == DevicePlan::Nothing,
        state.after_update(active, first).after_update(active, second) == state.after_update(
            active,
            first,
        ),
{
}

/// The same request made twice in a row has the display take at most one
/// write, and that write is the one the first request planned.
pub proof fn lemma_two_requests_write_at_most_once(
    state: ActivationState,
    active: bool,
    samples: Seq<u16>,
    first: DeviceOutcome,
    second: DeviceOutcome,
)
    ensures
        ({
            let then = state.after_update(active, first);
            &&& state.plan(active, samples).writes_taken(first) + then.plan(
                active,
                samples,
            ).writes_taken(second) <= 1
            &&& then.plan(active, samples) is Session ==> then.plan(active, samples).ramp_to_write()
                == state.plan(active, samples).ramp_to_write()
        }),
{
}

/// A request to restore whose session was held without a refused write
/// leaves the display's own ramp in effect, whatever was in effect before and
/// whatever was read.
pub proof fn lemma_restore_reaches_idle(state: ActivationState, current: Option<RampTable>)
    ensures
        !state.after_update(
            false,
            DeviceOutcome::Completed { current, write_rejected: false },
        ).is_active,
{
}

/// Once an original ramp is held, no request replaces it.
pub proof fn lemma_original_is_kept(state: ActivationState, active: bool, outcome: DeviceOutcome)
    requires
        state.original_ramp is Some,
    ensures
        state.after_update(active, outcome).original_ramp == state.original_ramp,
{
}

} // verus!
