use timed_tmux_mode::controller::{Effect, Event, InputMode, State};

fn configured(timeout_ms: &str) -> State {
    let mut state = State::default();
    state.load(&vec![("timeout_ms".to_string(), timeout_ms.to_string())]);
    state
}

fn snapshot(state: &State) -> (u64, Option<usize>, usize) {
    (state.timeout_ms(), state.debounce_counter(), state.pending_timers())
}

fn activated(timeout_ms: &str) -> State {
    let mut state = configured(timeout_ms);
    state.update(Event::ActivationRequest);
    state
}

#[test]
fn default_state_is_idle_without_timers() {
    let state = State::default();
    assert_eq!(snapshot(&state), (0, None, 0));
    assert!(!state.is_active());
}

#[test]
fn single_activation_reverts_when_timer_fires() {
    let mut state = configured("3000");
    assert_eq!(snapshot(&state), (3000, None, 0));

    let effects = state.update(Event::ActivationRequest);
    assert_eq!(
        effects,
        vec![Effect::SetInputMode(InputMode::Tmux), Effect::ArmTimer(3000)]
    );
    assert_eq!(
        effects.iter().filter(|e| matches!(e, Effect::ArmTimer(_))).count(),
        1
    );
    assert_eq!(snapshot(&state), (3000, Some(0), 1));
    assert!(state.is_active());

    let effects = state.update(Event::TimerFired);
    assert_eq!(effects, vec![Effect::SetInputMode(InputMode::Normal)]);
    assert_eq!(snapshot(&state), (3000, None, 0));
    assert!(!state.is_active());
}

#[test]
fn armed_timer_carries_the_configured_delay() {
    let mut state = configured("1250");
    let effects = state.update(Event::ActivationRequest);
    assert_eq!(effects[1], Effect::ArmTimer(1250));

    let mut unconfigured = State::default();
    let effects = unconfigured.update(Event::ActivationRequest);
    assert_eq!(
        effects,
        vec![Effect::SetInputMode(InputMode::Tmux), Effect::ArmTimer(0)]
    );
}

#[test]
fn debounce_tolerates_one_keystroke() {
    let mut state = activated("3000");
    assert_eq!(state.debounce_counter(), Some(0));

    let effects = state.update(Event::InputReceived);
    assert_eq!(effects, vec![]);
    assert_eq!(snapshot(&state), (3000, Some(1), 1));

    let effects = state.update(Event::TimerFired);
    assert_eq!(effects, vec![Effect::SetInputMode(InputMode::Normal)]);
    assert_eq!(snapshot(&state), (3000, None, 0));
}

#[test]
fn debounce_cancels_on_second_keystroke() {
    let mut state = activated("3000");

    assert_eq!(state.update(Event::InputReceived), vec![]);
    assert_eq!(state.debounce_counter(), Some(1));

    assert_eq!(state.update(Event::InputReceived), vec![]);
    assert_eq!(state.debounce_counter(), None);
    assert!(!state.is_active());
    // The timer is still outstanding; only the window is gone.
    assert_eq!(state.pending_timers(), 1);
}

#[test]
fn timer_after_cancelled_window_is_counted_without_effect() {
    let mut state = activated("3000");
    state.update(Event::InputReceived);
    state.update(Event::InputReceived);
    assert_eq!(snapshot(&state), (3000, None, 1));

    assert_eq!(state.update(Event::TimerFired), vec![]);
    assert_eq!(snapshot(&state), (3000, None, 0));
}

#[test]
fn external_mode_change_cancels_window() {
    for mode in [InputMode::Normal, InputMode::Other] {
        // No keystroke seen yet.
        let mut state = activated("3000");
        assert_eq!(state.update(Event::ModeUpdate(mode)), vec![]);
        assert_eq!(snapshot(&state), (3000, None, 1));

        // One keystroke seen.
        let mut state = activated("3000");
        state.update(Event::InputReceived);
        assert_eq!(state.debounce_counter(), Some(1));
        assert_eq!(state.update(Event::ModeUpdate(mode)), vec![]);
        assert_eq!(snapshot(&state), (3000, None, 1));
    }
}

#[test]
fn mode_change_to_tmux_keeps_window() {
    let mut state = activated("3000");
    assert_eq!(state.update(Event::ModeUpdate(InputMode::Tmux)), vec![]);
    assert_eq!(snapshot(&state), (3000, Some(0), 1));

    state.update(Event::InputReceived);
    assert_eq!(state.update(Event::ModeUpdate(InputMode::Tmux)), vec![]);
    assert_eq!(snapshot(&state), (3000, Some(1), 1));
}

#[test]
fn mode_changes_while_idle_change_nothing() {
    for mode in [InputMode::Normal, InputMode::Tmux, InputMode::Other] {
        let mut state = configured("3000");
        assert_eq!(state.update(Event::ModeUpdate(mode)), vec![]);
        assert_eq!(snapshot(&state), (3000, None, 0));
    }
}

#[test]
fn overlapping_activation_is_ignored() {
    let mut state = activated("3000");
    assert_eq!(snapshot(&state), (3000, Some(0), 1));

    let effects = state.update(Event::ActivationRequest);
    assert_eq!(effects, vec![]);
    assert_eq!(snapshot(&state), (3000, Some(0), 1));
}

#[test]
fn overlapping_activation_does_not_reset_keystroke_count() {
    let mut state = activated("3000");
    state.update(Event::InputReceived);
    assert_eq!(snapshot(&state), (3000, Some(1), 1));

    assert_eq!(state.update(Event::ActivationRequest), vec![]);
    assert_eq!(snapshot(&state), (3000, Some(1), 1));
}

#[test]
fn revert_waits_for_the_last_outstanding_timer() {
    let mut state = activated("3000");
    // The first window is cancelled by typing, its timer is still pending.
    state.update(Event::InputReceived);
    state.update(Event::InputReceived);
    assert_eq!(snapshot(&state), (3000, None, 1));

    // A second window opens and arms a second timer.
    let effects = state.update(Event::ActivationRequest);
    assert_eq!(
        effects,
        vec![Effect::SetInputMode(InputMode::Tmux), Effect::ArmTimer(3000)]
    );
    assert_eq!(snapshot(&state), (3000, Some(0), 2));

    // The first timer must not close the second window.
    assert_eq!(state.update(Event::TimerFired), vec![]);
    assert_eq!(snapshot(&state), (3000, Some(0), 1));

    // The last one does.
    assert_eq!(
        state.update(Event::TimerFired),
        vec![Effect::SetInputMode(InputMode::Normal)]
    );
    assert_eq!(snapshot(&state), (3000, None, 0));
}

#[test]
fn repeated_input_while_idle_never_changes_state() {
    let mut state = configured("3000");
    for _ in 0..100 {
        assert_eq!(state.update(Event::InputReceived), vec![]);
        assert_eq!(snapshot(&state), (3000, None, 0));
    }

    // Also with a timer left over from a cancelled window.
    let mut state = activated("3000");
    state.update(Event::ModeUpdate(InputMode::Normal));
    for _ in 0..100 {
        assert_eq!(state.update(Event::InputReceived), vec![]);
        assert_eq!(snapshot(&state), (3000, None, 1));
    }
}

#[test]
fn stray_timer_does_not_underflow() {
    let mut state = configured("3000");
    assert_eq!(state.update(Event::TimerFired), vec![]);
    assert_eq!(snapshot(&state), (3000, None, 0));
    assert_eq!(state.update(Event::TimerFired), vec![]);
    assert_eq!(snapshot(&state), (3000, None, 0));
}

#[test]
fn other_events_are_ignored_in_every_state() {
    let mut state = configured("3000");
    assert_eq!(state.update(Event::Other), vec![]);
    assert_eq!(snapshot(&state), (3000, None, 0));

    let mut state = activated("3000");
    assert_eq!(state.update(Event::Other), vec![]);
    assert_eq!(snapshot(&state), (3000, Some(0), 1));

    state.update(Event::InputReceived);
    assert_eq!(state.update(Event::Other), vec![]);
    assert_eq!(snapshot(&state), (3000, Some(1), 1));
}

#[test]
fn pipe_activates_on_the_command_name() {
    let mut state = configured("3000");
    let effects = state.pipe("switch_to_tmux_mode");
    assert_eq!(
        effects,
        vec![Effect::SetInputMode(InputMode::Tmux), Effect::ArmTimer(3000)]
    );
    assert_eq!(snapshot(&state), (3000, Some(0), 1));

    // A second command while the window is open is dropped.
    assert_eq!(state.pipe("switch_to_tmux_mode"), vec![]);
    assert_eq!(snapshot(&state), (3000, Some(0), 1));
}

#[test]
fn pipe_ignores_other_names() {
    for name in [
        "",
        "switch_to_tmux_mod",
        "switch_to_tmux_mode ",
        " switch_to_tmux_mode",
        "SWITCH_TO_TMUX_MODE",
        "switch_to_normal_mode",
        "switch_to_tmux_modé",
    ] {
        let mut state = configured("3000");
        assert_eq!(state.pipe(name), vec![], "{:?}", name);
        assert_eq!(snapshot(&state), (3000, None, 0), "{:?}", name);
    }
}

#[test]
fn every_pending_timer_fired_leaves_the_controller_idle() {
    let mut state = configured("10");
    for round in 0..5 {
        state.pipe("switch_to_tmux_mode");
        assert_eq!(state.pending_timers(), round + 1);
        state.update(Event::ModeUpdate(InputMode::Other));
    }
    state.pipe("switch_to_tmux_mode");
    assert_eq!(snapshot(&state), (10, Some(0), 6));

    let pending = state.pending_timers();
    let mut reverts = 0;
    for _ in 0..pending {
        for effect in state.update(Event::TimerFired) {
            assert_eq!(effect, Effect::SetInputMode(InputMode::Normal));
            reverts += 1;
        }
    }
    assert_eq!(reverts, 1);
    assert_eq!(snapshot(&state), (10, None, 0));
}

#[test]
fn can_update_and_can_pipe_hold_in_ordinary_states() {
    let state = configured("3000");
    for event in [
        Event::InputReceived,
        Event::ModeUpdate(InputMode::Normal),
        Event::TimerFired,
        Event::ActivationRequest,
        Event::Other,
    ] {
        assert!(state.can_update(event));
    }
    assert!(state.can_pipe("switch_to_tmux_mode"));
    assert!(state.can_pipe("anything"));

    let state = activated("3000");
    assert!(state.can_update(Event::ActivationRequest));
    assert!(state.can_pipe("switch_to_tmux_mode"));
}

#[test]
fn events_never_change_the_timeout() {
    let mut state = configured("42");
    for event in [
        Event::ActivationRequest,
        Event::InputReceived,
        Event::ModeUpdate(InputMode::Tmux),
        Event::InputReceived,
        Event::ActivationRequest,
        Event::TimerFired,
        Event::ModeUpdate(InputMode::Normal),
        Event::TimerFired,
        Event::Other,
    ] {
        state.update(event);
        assert_eq!(state.timeout_ms(), 42);
    }
}

/// A small deterministic generator, so that long runs need no outside crate.
struct Sequence(u64);

impl Sequence {
    fn next(&mut self) -> u64 {
        self.0 = self
            .0
            .wrapping_mul(6364136223846793005)
            .wrapping_add(1442695040888963407);
        self.0 >> 33
    }

    fn event(&mut self) -> Event {
        match self.next() % 8 {
            0 | 1 => Event::InputReceived,
            2 => Event::ModeUpdate(InputMode::Normal),
            3 => Event::ModeUpdate(InputMode::Tmux),
            4 => Event::ModeUpdate(InputMode::Other),
            5 => Event::TimerFired,
            6 => Event::ActivationRequest,
            _ => Event::Other,
        }
    }
}

/// The transition rules written out once more, directly on two counters.
struct Rules {
    timeout_ms: u64,
    window: Option<usize>,
    timers: usize,
}

impl Rules {
    fn step(&mut self, event: Event) -> Vec<Effect> {
        let mut effects = Vec::new();
        match event {
            Event::InputReceived => {
                if let Some(count) = self.window.as_mut() {
                    *count += 1;
                    if *count > 1 {
                        self.window = None;
                    }
                }
            }
            Event::ModeUpdate(mode) if mode != InputMode::Tmux && self.window.is_some() => {
                self.window = None;
            }
            Event::TimerFired if self.timers > 0 => {
                self.timers -= 1;
                if self.timers == 0 && self.window.is_some() {
                    effects.push(Effect::SetInputMode(InputMode::Normal));
                    self.window = None;
                }
            }
            Event::ActivationRequest if self.window.is_none() => {
                effects.push(Effect::SetInputMode(InputMode::Tmux));
                self.window = Some(0);
                self.timers += 1;
                effects.push(Effect::ArmTimer(self.timeout_ms));
            }
            _ => {}
        }
        effects
    }
}

#[test]
fn long_runs_follow_the_transition_rules() {
    for seed in 0..50u64 {
        let mut events = Sequence(seed);
        let mut state = configured("750");
        let mut rules = Rules {
            timeout_ms: 750,
            window: None,
            timers: 0,
        };
        for _ in 0..400 {
            let event = events.event();
            assert!(state.can_update(event));
            let effects = state.update(event);
            assert_eq!(effects, rules.step(event), "seed {} {:?}", seed, event);
            assert_eq!(
                snapshot(&state),
                (750, rules.window, rules.timers),
                "seed {} {:?}",
                seed,
                event
            );
            // An open window has a timer outstanding and one keystroke at most.
            if let Some(seen) = state.debounce_counter() {
                assert!(seen <= 1);
                assert!(state.pending_timers() >= 1);
            }
        }
    }
}

#[test]
fn pending_timers_balance_armed_and_fired() {
    for seed in 100..130u64 {
        let mut events = Sequence(seed);
        let mut state = configured("5");
        let mut armed = 0usize;
        let mut fired = 0usize;
        for _ in 0..300 {
            let event = events.event();
            // The host fires only timers that are outstanding.
            if event == Event::TimerFired && fired == armed {
                continue;
            }
            if event == Event::TimerFired {
                assert!(state.pending_timers() > 0);
                fired += 1;
            }
            for effect in state.update(event) {
                if matches!(effect, Effect::ArmTimer(_)) {
                    armed += 1;
                }
            }
            assert_eq!(state.pending_timers(), armed - fired, "seed {}", seed);
        }
        // Once the host has fired the rest, nothing is left and no window is open.
        while fired < armed {
            state.update(Event::TimerFired);
            fired += 1;
        }
        assert_eq!(snapshot(&state), (5, None, 0));
    }
}
