//! The refresh loop as a state machine.
//!
//! One sequential control flow drives sampling and rendering. The loop
//! body itself - the sleeps, the signal handler, the platform calls -
//! runs outside the library: each turn the driver reports the state and
//! the cancellation flag as just observed, and is told the next state and
//! the action to perform. Cancellation is observed at exactly two points:
//! before a sampling pass begins, and on every sub-second tick of the wait
//! between passes; at either point it ends the loop with no further
//! sampling or rendering.
//!
//! The snapshot provider is treated as infallible, so the machine has no
//! failure event: the platform interface this tool reads from reports a
//! metric it cannot collect as an absent or zero reading rather than as
//! an error, and a sampling pass therefore always completes.

use vstd::prelude::*;
use crate::cli::Args;

verus! {

/// Where the refresh loop stands.
#[derive(Clone, Copy, Debug, PartialEq, Eq, Structural)]
pub enum Phase {
    /// About to decide whether another sampling pass begins.
    Idle,
    /// A snapshot is being taken and enriched.
    Sampling,
    /// The enriched snapshot is being rendered.
    Rendering,
    /// Waiting out the interval, one polling tick at a time.
    Waiting,
    /// The loop is over.
    Terminated,
}

/// What the driver of the loop is asked to do next.
#[derive(Clone, Copy, Debug, PartialEq, Eq, Structural)]
pub enum Action {
    /// Take a snapshot.
    Sample,
    /// Render the snapshot just taken.
    Render,
    /// Sleep one polling quantum (100 ms), then report back.
    SleepTick,
    /// Nothing to perform; report back at once.
    Proceed,
    /// Leave the loop.
    Finish,
}

/// The loop's state: its phase, how many renders have completed, and how
/// many wait ticks remain.
#[derive(Clone, Copy, Debug, PartialEq, Eq, Structural)]
pub struct LoopState {
    pub phase: Phase,
    pub renders: u64,
    pub ticks_left: u64,
}

/// How many 100 ms polling ticks one interval holds: ten per second,
/// saturated at `u64::MAX` for intervals beyond any clock.
pub open spec fn ticks_for(interval: u64) -> u64 {
    if interval <= u64::MAX as int / 10 {
        (interval * 10) as u64
    } else {
        u64::MAX
    }
}

/// One step of the render counter, saturated at `u64::MAX`.
pub open spec fn renders_after(renders: u64) -> u64 {
    if renders < u64::MAX {
        (renders + 1) as u64
    } else {
        renders
    }
}

/// The loop's transition function.
///
/// Idle observes cancellation: set, the loop terminates with nothing
/// further; clear, a sampling pass begins. Sampling is followed by
/// rendering. After a render the counter steps; with continuous mode off
/// the loop terminates, otherwise the wait begins with a full count of
/// ticks. Waiting observes cancellation on every tick: set, the loop
/// terminates at once; otherwise each tick is slept off until none is
/// left and the loop is idle again. A terminated loop stays terminated.
pub open spec fn advance_spec(st: LoopState, cfg: Args, cancelled: bool) -> (LoopState, Action) {
    match st.phase {
        Phase::Idle => if cancelled {
            (
                LoopState { phase: Phase::Terminated, renders: st.renders, ticks_left: st.ticks_left },
                Action::Finish,
            )
        } else {
            (
                LoopState { phase: Phase::Sampling, renders: st.renders, ticks_left: st.ticks_left },
                Action::Sample,
            )
        },
        Phase::Sampling => (
            LoopState { phase: Phase::Rendering, renders: st.renders, ticks_left: st.ticks_left },
            Action::Render,
        ),
        Phase::Rendering => if cfg.watch {
            (
                LoopState {
                    phase: Phase::Waiting,
                    renders: renders_after(st.renders),
                    ticks_left: ticks_for(cfg.interval),
                },
                Action::Proceed,
            )
        } else {
            (
                LoopState {
                    phase: Phase::Terminated,
                    renders: renders_after(st.renders),
                    ticks_left: st.ticks_left,
                },
                Action::Finish,
            )
        },
        Phase::Waiting => if cancelled {
            (
                LoopState { phase: Phase::Terminated, renders: st.renders, ticks_left: st.ticks_left },
                Action::Finish,
            )
        } else if st.ticks_left == 0 {
            (
                LoopState { phase: Phase::Idle, renders: st.renders, ticks_left: st.ticks_left },
                Action::Proceed,
            )
        } else {
            (
                LoopState {
                    phase: Phase::Waiting,
                    renders: st.renders,
                    ticks_left: (st.ticks_left - 1) as u64,
                },
                Action::SleepTick,
            )
        },
        Phase::Terminated => (st, Action::Finish),
    }
}

/// The loop's starting state: idle, nothing rendered yet.
pub fn loop_init() -> (r: LoopState)
    ensures
        r == (LoopState { phase: Phase::Idle, renders: 0, ticks_left: 0 }),
{
    LoopState { phase: Phase::Idle, renders: 0, ticks_left: 0 }
}

/// Drive the loop one step: from the current state and the cancellation
/// flag as just observed, the next state and the action to perform.
pub fn advance(st: &LoopState, cfg: &Args, cancelled: bool) -> (r: (LoopState, Action))
    ensures
        r == advance_spec(*st, *cfg, cancelled),
{
    match st.phase {
        Phase::Idle => if cancelled {
            (
                LoopState { phase: Phase::Terminated, renders: st.renders, ticks_left: st.ticks_left },
                Action::Finish,
            )
        } else {
            (
                LoopState { phase: Phase::Sampling, renders: st.renders, ticks_left: st.ticks_left },
                Action::Sample,
            )
        },
        Phase::Sampling => (
            LoopState { phase: Phase::Rendering, renders: st.renders, ticks_left: st.ticks_left },
            Action::Render,
        ),
        Phase::Rendering => {
            let renders = if st.renders < u64::MAX {
                st.renders + 1
            } else {
                st.renders
            };
            if cfg.watch {
                let ticks = if cfg.interval <= u64::MAX / 10 {
                    cfg.interval * 10
                } else {
                    u64::MAX
                };
                (
                    LoopState { phase: Phase::Waiting, renders, ticks_left: ticks },
                    Action::Proceed,
                )
            } else {
                (
                    LoopState { phase: Phase::Terminated, renders, ticks_left: st.ticks_left },
                    Action::Finish,
                )
            }
        },
        Phase::Waiting => if cancelled {
            (
                LoopState { phase: Phase::Terminated, renders: st.renders, ticks_left: st.ticks_left },
                Action::Finish,
            )
        } else if st.ticks_left == 0 {
            (
                LoopState { phase: Phase::Idle, renders: st.renders, ticks_left: st.ticks_left },
                Action::Proceed,
            )
        } else {
            (
                LoopState {
                    phase: Phase::Waiting,
                    renders: st.renders,
                    ticks_left: st.ticks_left - 1,
                },
                Action::SleepTick,
            )
        },
        Phase::Terminated => (*st, Action::Finish),
    }
}

/// Law: cancellation observed at either observation point - before a
/// sampling pass, or on a wait tick - terminates the loop at once, with
/// no further sampling or rendering: the render count is unchanged.
pub proof fn lemma_cancel_terminates(st: LoopState, cfg: Args)
    requires
        st.phase == Phase::Idle || st.phase == Phase::Waiting,
    ensures
        advance_spec(st, cfg, true).0.phase == Phase::Terminated,
        advance_spec(st, cfg, true).0.renders == st.renders,
        advance_spec(st, cfg, true).1 == Action::Finish,
{
}

/// Law: with continuous mode off, the step after a render terminates the
/// loop, counting exactly that one render; single-shot runs render once.
pub proof fn lemma_single_shot(st: LoopState, cfg: Args, cancelled: bool)
    requires
        st.phase == Phase::Rendering,
        !cfg.watch,
    ensures
        advance_spec(st, cfg, cancelled).0.phase == Phase::Terminated,
        advance_spec(st, cfg, cancelled).0.renders == renders_after(st.renders),
        advance_spec(st, cfg, cancelled).1 == Action::Finish,
{
}

/// The states a single-shot run (continuous mode off) can reach from the
/// starting state: never waiting, no render counted before termination
/// and exactly one at it.
pub open spec fn single_shot_reachable(st: LoopState) -> bool {
    match st.phase {
        Phase::Idle => st.renders == 0,
        Phase::Sampling => st.renders == 0,
        Phase::Rendering => st.renders == 0,
        Phase::Waiting => false,
        Phase::Terminated => st.renders <= 1,
    }
}

/// Law: a single-shot run renders at most once, and never waits. The
/// starting state is reachable, and every step taken with continuous
/// mode off keeps the state reachable, whatever is observed.
pub proof fn lemma_single_shot_invariant(st: LoopState, cfg: Args, cancelled: bool)
    requires
        !cfg.watch,
        single_shot_reachable(st),
    ensures
        single_shot_reachable(advance_spec(st, cfg, cancelled).0),
        single_shot_reachable(LoopState { phase: Phase::Idle, renders: 0, ticks_left: 0 }),
{
}

/// Law: a terminated loop stays terminated, whatever is observed.
pub proof fn lemma_terminated_stays(st: LoopState, cfg: Args, cancelled: bool)
    requires
        st.phase == Phase::Terminated,
    ensures
        advance_spec(st, cfg, cancelled).0 == st,
        advance_spec(st, cfg, cancelled).1 == Action::Finish,
{
}

} // verus!
