//! The debounced dual-button state machine.
//!
//! Each pass of the control loop samples the two buttons, settles, re-samples,
//! and consults the transition table below to pick at most one display
//! operation.  The current [`DisplayState`] is the sole authority on what is
//! rendered, so an input that is already absorbed issues no redundant
//! transfer.

use vstd::prelude::*;

verus! {

/// Milliseconds to wait once either button reads pressed, before the pair is
/// re-sampled and acted on; collapses mechanical contact bounce and lets a
/// two-button press resolve to a stable reading.
pub const SETTLE_DELAY_MS: u32 = 50;

/// Milliseconds to hold after a both-buttons clear, giving the user time to
/// release before the next iteration samples again.
pub const RELEASE_DELAY_MS: u32 = 250;

/// Red component of the solid color the surface is cleared to.
pub const CLEAR_RED: u8 = 0;

/// Green component of the solid color the surface is cleared to.
pub const CLEAR_GREEN: u8 = 255;

/// Blue component of the solid color the surface is cleared to.
pub const CLEAR_BLUE: u8 = 255;

/// What is currently rendered on the panel.  Exactly one variant holds at any
/// time; the controller consults it to avoid redundant redraws.
#[derive(Clone, Copy, Debug, PartialEq, Eq, Structural)]
pub enum DisplayState {
    Cleared,
    ShowingA,
    ShowingB,
}

/// One sample of the two buttons, normalized so `true` means pressed
/// (the physical lines are active-low).
#[derive(Clone, Copy, Debug, PartialEq, Eq, Structural)]
pub struct ButtonSample {
    pub left: bool,
    pub right: bool,
}

/// The one display operation an iteration may ask for.
#[derive(Clone, Copy, Debug, PartialEq, Eq, Structural)]
pub enum Action {
    /// Nothing to do: no button is down, or the state already matches.
    Idle,
    /// Fill the whole surface with the clear color.
    Clear,
    /// Blit image A at the origin.
    DrawA,
    /// Blit image B at the origin.
    DrawB,
}

/// The state after acting on `sample`: both buttons clear the panel, a single
/// button selects its image, no button leaves the state alone.
pub open spec fn next_state_spec(state: DisplayState, sample: ButtonSample) -> DisplayState {
    if sample.left && sample.right {
        DisplayState::Cleared
    } else if sample.left {
        DisplayState::ShowingA
    } else if sample.right {
        DisplayState::ShowingB
    } else {
        state
    }
}

/// The operation issued for `sample`: the one that brings the panel to
/// `next_state_spec`, or [`Action::Idle`] when the panel is already there.
pub open spec fn action_spec(state: DisplayState, sample: ButtonSample) -> Action {
    if sample.left && sample.right {
        if state == DisplayState::Cleared {
            Action::Idle
        } else {
            Action::Clear
        }
    } else if sample.left {
        if state == DisplayState::ShowingA {
            Action::Idle
        } else {
            Action::DrawA
        }
    } else if sample.right {
        if state == DisplayState::ShowingB {
            Action::Idle
        } else {
            Action::DrawB
        }
    } else {
        Action::Idle
    }
}

/// Consult the transition table once: from `state`, acting on the settled
/// `sample`, return the next state and the single operation to perform.
pub fn step(state: DisplayState, sample: ButtonSample) -> (r: (DisplayState, Action))
    ensures
        r.0 == next_state_spec(state, sample),
        r.1 == action_spec(state, sample),
{
    match (sample.left, sample.right) {
        (true, true) => {
            if state == DisplayState::Cleared {
                (DisplayState::Cleared, Action::Idle)
            } else {
                (DisplayState::Cleared, Action::Clear)
            }
        },
        (true, false) => {
            if state == DisplayState::ShowingA {
                (DisplayState::ShowingA, Action::Idle)
            } else {
                (DisplayState::ShowingA, Action::DrawA)
            }
        },
        (false, true) => {
            if state == DisplayState::ShowingB {
                (DisplayState::ShowingB, Action::Idle)
            } else {
                (DisplayState::ShowingB, Action::DrawB)
            }
        },
        (false, false) => (state, Action::Idle),
    }
}

/// Settle delay owed to a raw (pre-debounce) sample: any pressed line earns
/// the full settle wait, an idle pair earns none.
pub open spec fn settle_spec(sample: ButtonSample) -> u32 {
    if sample.left || sample.right {
        SETTLE_DELAY_MS
    } else {
        0u32
    }
}

/// Milliseconds to wait before re-sampling, given the raw sample taken at the
/// top of the iteration.
pub fn settle_delay(sample: ButtonSample) -> (ms: u32)
    ensures
        ms == settle_spec(sample),
{
    if sample.left || sample.right {
        SETTLE_DELAY_MS
    } else {
        0
    }
}

/// Hold owed after an action: only a clear is followed by the release wait.
pub open spec fn hold_spec(action: Action) -> u32 {
    if action == Action::Clear {
        RELEASE_DELAY_MS
    } else {
        0u32
    }
}

/// Milliseconds to hold after performing `action`, before the next iteration
/// samples the buttons again.
pub fn hold_after(action: Action) -> (ms: u32)
    ensures
        ms == hold_spec(action),
{
    if action == Action::Clear {
        RELEASE_DELAY_MS
    } else {
        0
    }
}

/// What to do at startup, before the loop runs: clear the surface once and
/// begin in the cleared state.
pub fn startup() -> (r: (DisplayState, Action))
    ensures
        r.0 == DisplayState::Cleared,
        r.1 == Action::Clear,
{
    (DisplayState::Cleared, Action::Clear)
}

/// Everything one loop iteration decides: how long to settle before the
/// second sample, the single action to perform, the state after it, and how
/// long to hold afterwards.
#[derive(Clone, Copy, Debug, PartialEq, Eq, Structural)]
pub struct IterationPlan {
    pub settle_ms: u32,
    pub next: DisplayState,
    pub action: Action,
    pub hold_ms: u32,
}

/// The plan of one iteration that read `first` raw and `second` after the
/// settle delay: the table is consulted on `second` alone.
pub open spec fn plan_spec(
    state: DisplayState,
    first: ButtonSample,
    second: ButtonSample,
) -> IterationPlan {
    IterationPlan {
        settle_ms: settle_spec(first),
        next: next_state_spec(state, second),
        action: action_spec(state, second),
        hold_ms: hold_spec(action_spec(state, second)),
    }
}

/// One full iteration of the control loop as a decision: `first` is the raw
/// sample at the top of the pass, `second` the one taken after the settle
/// delay, and only `second` reaches the transition table.
pub fn iterate(state: DisplayState, first: ButtonSample, second: ButtonSample) -> (plan:
    IterationPlan)
    ensures
        plan == plan_spec(state, first, second),
{
    let settle_ms = settle_delay(first);
    let (next, action) = step(state, second);
    let hold_ms = hold_after(action);
    IterationPlan { settle_ms, next, action, hold_ms }
}

/// A simultaneous press is detected only after the settle window: the raw
/// pre-settle sample decides nothing but the wait, so an input pattern that
/// changes within the window alters neither the next state, nor the action,
/// nor the hold — one iteration produces at most the one transition that the
/// settled sample selects.
pub proof fn lemma_settle_isolation(
    state: DisplayState,
    first_a: ButtonSample,
    first_b: ButtonSample,
    second: ButtonSample,
)
    ensures
        plan_spec(state, first_a, second).next == plan_spec(state, first_b, second).next,
        plan_spec(state, first_a, second).action == plan_spec(state, first_b, second).action,
        plan_spec(state, first_a, second).hold_ms == plan_spec(state, first_b, second).hold_ms,
{
}

/// Repeating an input the state has already absorbed is a no-op: the state
/// stays put and no further draw or clear is issued, so holding a button (or
/// both) across iterations costs no redundant transfer.
pub proof fn lemma_step_idempotent(state: DisplayState, sample: ButtonSample)
    ensures
        next_state_spec(next_state_spec(state, sample), sample) == next_state_spec(state, sample),
        action_spec(next_state_spec(state, sample), sample) == Action::Idle,
{
}

} // verus!
