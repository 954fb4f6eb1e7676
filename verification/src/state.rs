//! The global cycle state and the epoch controller: a pure transition
//! function advancing the cycle through Uninitialized, Mining and Claiming
//! based on wall-clock time.

use vstd::prelude::*;

verus! {

/// Length of the mining window, in seconds.
pub const MINE_SECONDS: u64 = 259200;

/// Length of the claiming window, in seconds.
pub const CLAIM_SECONDS: u64 = 86400;

/// Fixed emission pool divided evenly (floor) among the registrants of a
/// cycle.
pub const TOTAL_EMISSIONS: u64 = 1000;

/// The phase of the global cycle. It only ever advances
/// Uninitialized -> Mining -> Claiming -> Uninitialized -> ...
#[derive(Clone, Copy, PartialEq, Eq, Structural, Debug)]
pub enum Phase {
    Uninitialized,
    Mining,
    Claiming,
}

/// The singleton global cycle state: the current phase, the deadline of the
/// current phase, and the count of participants registered in the current
/// cycle.
#[derive(Clone, Copy, PartialEq, Eq, Structural, Debug)]
pub struct GlobalAccount {
    /// Participants registered in the current cycle. Reset to 0 exactly on
    /// the Uninitialized -> Mining transition, never decremented.
    pub miners: u64,
    /// UNIX-timestamp deadline of the current phase; meaningless while the
    /// phase is Uninitialized.
    pub epoch_end: u64,
    /// The current phase of the cycle.
    pub state: Phase,
}

/// Every failure an operation of this system can report.
#[derive(Clone, Copy, PartialEq, Eq, Structural, Debug)]
pub enum CustomError {
    /// A phase advance was attempted before its deadline elapsed.
    InvalidTime,
    /// Register or claim was attempted while the cycle is not in the
    /// required phase.
    InvalidState,
    /// A record that must be created already exists (duplicate bootstrap or
    /// duplicate registration).
    AlreadyExists,
    /// A record that must exist does not (claim without a registration, or
    /// any operation before bootstrap).
    NotFound,
    /// A division by zero; defensively unreachable through the normal flow,
    /// but a hard failure if ever hit.
    ArithmeticFault,
}

/// The epoch transition table as a function of the current state and the
/// current time `now`:
///
/// | from          | condition          | to            | effects                         |
/// |---------------|--------------------|---------------|---------------------------------|
/// | Uninitialized | always             | Mining        | miners = 0, end = now + mining  |
/// | Mining        | now >= epoch_end   | Claiming      | end = now + claiming            |
/// | Mining        | now <  epoch_end   | (InvalidTime) |                                 |
/// | Claiming      | now >= epoch_end   | Uninitialized | (no field reset)                |
/// | Claiming      | now <  epoch_end   | (InvalidTime) |                                 |
pub open spec fn cycle_step(g: GlobalAccount, now: u64) -> Result<GlobalAccount, CustomError> {
    match g.state {
        Phase::Uninitialized => Ok(
            GlobalAccount {
                miners: 0,
                epoch_end: (now + MINE_SECONDS) as u64,
                state: Phase::Mining,
            },
        ),
        Phase::Mining => if now < g.epoch_end {
            Err(CustomError::InvalidTime)
        } else {
            Ok(
                GlobalAccount {
                    miners: g.miners,
                    epoch_end: (now + CLAIM_SECONDS) as u64,
                    state: Phase::Claiming,
                },
            )
        },
        Phase::Claiming => if now < g.epoch_end {
            Err(CustomError::InvalidTime)
        } else {
            Ok(GlobalAccount { miners: g.miners, epoch_end: g.epoch_end, state: Phase::Uninitialized })
        },
    }
}

/// The machine limit on one phase advance: whichever deadline the step
/// computes must fit in 64 bits. Only the transitions out of Uninitialized
/// and Mining compute one.
pub open spec fn step_fits(g: GlobalAccount, now: u64) -> bool {
    &&& g.state is Uninitialized ==> now + MINE_SECONDS <= u64::MAX
    &&& g.state is Mining ==> now + CLAIM_SECONDS <= u64::MAX
}

/// The epoch controller: applies one step of the transition table to the
/// given state at time `now`. Callable by anyone; a call before the deadline
/// is a failing no-op, not a corrupting one.
pub fn next_cycle_state(g: GlobalAccount, now: u64) -> (r: Result<GlobalAccount, CustomError>)
    requires
        step_fits(g, now),
    ensures
        r == cycle_step(g, now),
{
    match g.state {
        Phase::Uninitialized => Ok(
            GlobalAccount { miners: 0, epoch_end: now + MINE_SECONDS, state: Phase::Mining },
        ),
        Phase::Mining => {
            if now < g.epoch_end {
                Err(CustomError::InvalidTime)
            } else {
                Ok(
                    GlobalAccount {
                        miners: g.miners,
                        epoch_end: now + CLAIM_SECONDS,
                        state: Phase::Claiming,
                    },
                )
            }
        },
        Phase::Claiming => {
            if now < g.epoch_end {
                Err(CustomError::InvalidTime)
            } else {
                Ok(GlobalAccount { miners: g.miners, epoch_end: g.epoch_end, state: Phase::Uninitialized })
            }
        },
    }
}

/// The successor of each phase in the cycle.
pub open spec fn next_phase(p: Phase) -> Phase {
    match p {
        Phase::Uninitialized => Phase::Mining,
        Phase::Mining => Phase::Claiming,
        Phase::Claiming => Phase::Uninitialized,
    }
}

/// The phase never skips or reverses: every successful advance moves to the
/// immediate successor phase.
pub proof fn lemma_phase_advances_in_order(g: GlobalAccount, now: u64)
    requires
        cycle_step(g, now) is Ok,
    ensures
        cycle_step(g, now)->Ok_0.state == next_phase(g.state),
{
}

/// The registrant counter is reset to 0 exactly on the transition out of
/// Uninitialized (the start of a new cycle) and carried unchanged by every
/// other successful advance; a failed advance changes nothing at all.
pub proof fn lemma_miners_reset_only_at_cycle_start(g: GlobalAccount, now: u64)
    ensures
        cycle_step(g, now) is Ok && g.state is Uninitialized ==> cycle_step(g, now)->Ok_0.miners
            == 0,
        cycle_step(g, now) is Ok && !(g.state is Uninitialized) ==> cycle_step(g, now)->Ok_0.miners
            == g.miners,
{
}

/// The decision of the registration service on the global state alone:
/// registration is admitted only during Mining, and admits by incrementing
/// the registrant counter.
pub open spec fn register_step(g: GlobalAccount) -> Result<GlobalAccount, CustomError> {
    if g.state is Mining {
        Ok(GlobalAccount { miners: (g.miners + 1) as u64, epoch_end: g.epoch_end, state: g.state })
    } else {
        Err(CustomError::InvalidState)
    }
}

/// Applies the registration service's decision to the global state: fails
/// with InvalidState outside the Mining phase, otherwise increments the
/// registrant counter by one.
pub fn apply_register(g: GlobalAccount) -> (r: Result<GlobalAccount, CustomError>)
    requires
        g.state is Mining ==> g.miners < u64::MAX,
    ensures
        r == register_step(g),
{
    if g.state != Phase::Mining {
        return Err(CustomError::InvalidState);
    }
    Ok(GlobalAccount { miners: g.miners + 1, epoch_end: g.epoch_end, state: g.state })
}

} // verus!
