use button_display::controller::{
    hold_after, iterate, settle_delay, startup, step, Action, ButtonSample, DisplayState,
    IterationPlan, CLEAR_BLUE, CLEAR_GREEN, CLEAR_RED, RELEASE_DELAY_MS, SETTLE_DELAY_MS,
};

fn sample(left: bool, right: bool) -> ButtonSample {
    ButtonSample { left, right }
}

#[test]
fn draw_a_from_cleared_then_idempotent() {
    let (state, action) = step(DisplayState::Cleared, sample(true, false));
    assert_eq!(state, DisplayState::ShowingA);
    assert_eq!(action, Action::DrawA);

    let (state, action) = step(state, sample(true, false));
    assert_eq!(state, DisplayState::ShowingA);
    assert_eq!(action, Action::Idle);
}

#[test]
fn clear_from_showing_a_with_release_hold() {
    let (state, action) = step(DisplayState::ShowingA, sample(true, true));
    assert_eq!(state, DisplayState::Cleared);
    assert_eq!(action, Action::Clear);
    assert_eq!(hold_after(action), RELEASE_DELAY_MS);
    assert_eq!(hold_after(action), 250);
}

#[test]
fn both_pressed_while_cleared_is_noop() {
    let (state, action) = step(DisplayState::Cleared, sample(true, true));
    assert_eq!(state, DisplayState::Cleared);
    assert_eq!(action, Action::Idle);
    assert_eq!(hold_after(action), 0);
}

#[test]
fn round_trip_issues_one_draw_a_one_clear_one_draw_b() {
    let inputs = [sample(true, false), sample(true, true), sample(false, true)];
    let mut state = DisplayState::Cleared;
    let mut actions = Vec::new();
    for input in inputs {
        let (next, action) = step(state, input);
        state = next;
        actions.push(action);
    }
    assert_eq!(actions, vec![Action::DrawA, Action::Clear, Action::DrawB]);
    assert_eq!(state, DisplayState::ShowingB);
}

#[test]
fn draw_b_from_showing_a_and_back() {
    let (state, action) = step(DisplayState::ShowingA, sample(false, true));
    assert_eq!(state, DisplayState::ShowingB);
    assert_eq!(action, Action::DrawB);

    let (state, action) = step(state, sample(false, true));
    assert_eq!(state, DisplayState::ShowingB);
    assert_eq!(action, Action::Idle);

    let (state, action) = step(state, sample(true, false));
    assert_eq!(state, DisplayState::ShowingA);
    assert_eq!(action, Action::DrawA);
}

#[test]
fn idle_input_changes_nothing_anywhere() {
    for state in [DisplayState::Cleared, DisplayState::ShowingA, DisplayState::ShowingB] {
        let (next, action) = step(state, sample(false, false));
        assert_eq!(next, state);
        assert_eq!(action, Action::Idle);
    }
}

#[test]
fn settle_owed_whenever_any_button_is_down() {
    assert_eq!(settle_delay(sample(false, false)), 0);
    assert_eq!(settle_delay(sample(true, false)), SETTLE_DELAY_MS);
    assert_eq!(settle_delay(sample(false, true)), 50);
    assert_eq!(settle_delay(sample(true, true)), 50);
}

#[test]
fn iteration_acts_on_the_settled_sample_only() {
    // The raw pre-settle sample varies; the settled one does not: the
    // transition is the same either way, only the settle wait differs.
    let second = sample(true, true);
    let plan_noisy = iterate(DisplayState::ShowingB, sample(true, false), second);
    let plan_quiet = iterate(DisplayState::ShowingB, sample(false, false), second);
    assert_eq!(plan_noisy.next, DisplayState::Cleared);
    assert_eq!(plan_noisy.action, Action::Clear);
    assert_eq!(plan_noisy.hold_ms, 250);
    assert_eq!(plan_quiet.next, plan_noisy.next);
    assert_eq!(plan_quiet.action, plan_noisy.action);
    assert_eq!(plan_quiet.hold_ms, plan_noisy.hold_ms);
    assert_eq!(plan_noisy.settle_ms, 50);
    assert_eq!(plan_quiet.settle_ms, 0);
}

#[test]
fn full_iteration_plan_for_a_draw() {
    let plan = iterate(DisplayState::Cleared, sample(true, false), sample(true, false));
    assert_eq!(
        plan,
        IterationPlan {
            settle_ms: 50,
            next: DisplayState::ShowingA,
            action: Action::DrawA,
            hold_ms: 0,
        }
    );
}

#[test]
fn startup_clears_once_and_begins_cleared() {
    let (state, action) = startup();
    assert_eq!(state, DisplayState::Cleared);
    assert_eq!(action, Action::Clear);
}

#[test]
fn clear_color_is_cyan() {
    assert_eq!((CLEAR_RED, CLEAR_GREEN, CLEAR_BLUE), (0, 255, 255));
}
