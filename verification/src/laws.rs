//! What holds of the controller in every state and along every run.

use crate::controller::{
    accepts_activation, emitted, next_state, reverts, Effect, Event, InputMode, StateView,
};
use vstd::prelude::*;

verus! {

/// The state reached from `s` when `events` are delivered in order.
pub open spec fn run(s: StateView, events: Seq<Event>) -> StateView
    decreases events.len(),
{
    if events.len() == 0 {
        s
    } else {
        next_state(run(s, events.drop_last()), events.last())
    }
}

/// The effects asked for, in order, while `events` are delivered from `s`.
pub open spec fn run_effects(s: StateView, events: Seq<Event>) -> Seq<Effect>
    decreases events.len(),
{
    if events.len() == 0 {
        Seq::empty()
    } else {
        run_effects(s, events.drop_last()) + emitted(
            run(s, events.drop_last()),
            events.last(),
        )
    }
}

/// The number of timers that `effects` arm.
pub open spec fn armed(effects: Seq<Effect>) -> nat
    decreases effects.len(),
{
    if effects.len() == 0 {
        0
    } else {
        armed(effects.drop_last()) + if effects.last() is ArmTimer {
            1nat
        } else {
            0nat
        }
    }
}

/// The number of timers that fire among `events`.
pub open spec fn fired(events: Seq<Event>) -> nat
    decreases events.len(),
{
    if events.len() == 0 {
        0
    } else {
        fired(events.drop_last()) + if events.last() is TimerFired {
            1nat
        } else {
            0nat
        }
    }
}

/// Whether the host, along a run from `s`, fires only timers that are
/// outstanding: at no point have more timers fired than were pending in `s`
/// or armed since.
pub open spec fn fires_armed_timers_only(s: StateView, events: Seq<Event>) -> bool {
    forall|k: int|
        0 <= k <= events.len() ==> fired(#[trigger] events.take(k)) <= s.pending_timers + armed(
            run_effects(s, events.take(k)),
        )
}

/// `count` deliveries of the same event.
pub open spec fn repeated(e: Event, count: nat) -> Seq<Event> {
    Seq::new(count, |i: int| e)
}

/// The initial state is well formed, and no event leads from a well-formed
/// state to one that is not: an open window always has a timer outstanding
/// and has seen one keystroke at most.
pub proof fn lemma_well_formed_preserved(s: StateView, e: Event)
    ensures
        StateView::initial(s.timeout_ms).wf(),
        s.wf() ==> next_state(s, e).wf(),
{
}

/// Every state reached from a well-formed state is well formed.
pub proof fn lemma_run_well_formed(s: StateView, events: Seq<Event>)
    requires
        s.wf(),
    ensures
        run(s, events).wf(),
    decreases events.len(),
{
    if events.len() > 0 {
        lemma_run_well_formed(s, events.drop_last());
    }
}

/// No event changes the configured revert delay.
pub proof fn lemma_timeout_unchanged(s: StateView, events: Seq<Event>)
    ensures
        run(s, events).timeout_ms == s.timeout_ms,
    decreases events.len(),
{
    if events.len() > 0 {
        lemma_timeout_unchanged(s, events.drop_last());
    }
}

/// The count of pending timers goes up by one with each accepted activation,
/// down by one with each timer that fires while any is pending, and changes
/// with nothing else.
pub proof fn lemma_pending_timers_accounting(s: StateView, e: Event)
    ensures
        next_state(s, e).pending_timers == s.pending_timers + (if accepts_activation(s, e) {
            1int
        } else {
            0int
        }) - (if e is TimerFired && s.pending_timers > 0 {
            1int
        } else {
            0int
        }),
{
}

/// The timers armed by two runs of effects, one after the other, are those
/// of the first and those of the second.
pub proof fn lemma_armed_concat(first: Seq<Effect>, second: Seq<Effect>)
    ensures
        armed(first + second) == armed(first) + armed(second),
    decreases second.len(),
{
    if second.len() == 0 {
        assert(first + second =~= first);
    } else {
        assert((first + second).drop_last() =~= first + second.drop_last());
        lemma_armed_concat(first, second.drop_last());
    }
}

/// One event arms one timer where it is an accepted activation, and none
/// otherwise.
pub proof fn lemma_armed_by_one_event(s: StateView, e: Event)
    ensures
        armed(emitted(s, e)) == if accepts_activation(s, e) {
            1nat
        } else {
            0nat
        },
{
    reveal_with_fuel(armed, 3);
    let effects = emitted(s, e);
    if accepts_activation(s, e) {
        assert(effects.drop_last() =~= seq![Effect::SetInputMode(InputMode::Tmux)]);
        assert(effects.drop_last().drop_last() =~= Seq::<Effect>::empty());
    } else if reverts(s, e) {
        assert(effects.drop_last() =~= Seq::<Effect>::empty());
    }
}

/// Where the host fires only timers that are outstanding, the count of
/// pending timers is exact along the whole run: it is the count at the
/// start, plus the timers armed, minus the timers fired. No such timer finds
/// the count at zero.
pub proof fn lemma_pending_timers_balance(s: StateView, events: Seq<Event>)
    requires
        fires_armed_timers_only(s, events),
    ensures
        run(s, events).pending_timers + fired(events) == s.pending_timers + armed(
            run_effects(s, events),
        ),
        events.len() > 0 && events.last() is TimerFired ==> run(
            s,
            events.drop_last(),
        ).pending_timers > 0,
    decreases events.len(),
{
    if events.len() > 0 {
        let earlier = events.drop_last();
        let before = run(s, earlier);
        assert(fires_armed_timers_only(s, earlier)) by {
            assert forall|k: int| 0 <= k <= earlier.len() implies fired(
                #[trigger] earlier.take(k),
            ) <= s.pending_timers + armed(run_effects(s, earlier.take(k))) by {
                assert(earlier.take(k) =~= events.take(k));
            }
        }
        lemma_pending_timers_balance(s, earlier);
        lemma_armed_concat(run_effects(s, earlier), emitted(before, events.last()));
        lemma_armed_by_one_event(before, events.last());
        assert(events.take(events.len() as int) =~= events);
    }
}

/// An accepted activation opens a fresh window, asks for Tmux mode and arms
/// exactly one timer with the configured delay; nothing else arms a timer or
/// asks for Tmux mode.
pub proof fn lemma_activation_effects(s: StateView, e: Event)
    ensures
        accepts_activation(s, e) ==> next_state(s, e).debounce_counter == Some(0nat) && emitted(
            s,
            e,
        ) == seq![Effect::SetInputMode(InputMode::Tmux), Effect::ArmTimer(s.timeout_ms)],
        !accepts_activation(s, e) ==> forall|i: int|
            0 <= i < emitted(s, e).len() ==> #[trigger] emitted(s, e)[i] == Effect::SetInputMode(
                InputMode::Normal,
            ),
{
}

/// An activation request that arrives while a window is open is ignored:
/// the state stays as it is, the keystroke count is not reset, and the host
/// is asked for nothing.
pub proof fn lemma_activation_while_active_ignored(s: StateView)
    requires
        s.is_active(),
    ensures
        next_state(s, Event::ActivationRequest) == s,
        emitted(s, Event::ActivationRequest) == Seq::<Effect>::empty(),
{
}

/// A change of the host's mode to anything but Tmux mode closes the window,
/// whatever the keystroke count; it touches nothing else and asks the host
/// for nothing. A change to Tmux mode changes nothing.
pub proof fn lemma_mode_change_closes_window(s: StateView, mode: InputMode)
    ensures
        mode != InputMode::Tmux ==> next_state(s, Event::ModeUpdate(mode)) == (StateView {
            debounce_counter: None,
            ..s
        }),
        mode == InputMode::Tmux ==> next_state(s, Event::ModeUpdate(mode)) == s,
        emitted(s, Event::ModeUpdate(mode)) == Seq::<Effect>::empty(),
{
}

/// The first keystroke in a window is tolerated, and any later one closes
/// it: after two keystrokes in a row no window is open, from any state.
/// Keystrokes never ask the host for anything.
pub proof fn lemma_second_keystroke_closes_window(s: StateView)
    ensures
        s.debounce_counter == Some(0nat) ==> next_state(s, Event::InputReceived).debounce_counter
            == Some(1nat),
        next_state(next_state(s, Event::InputReceived), Event::InputReceived).is_idle(),
        emitted(s, Event::InputReceived) == Seq::<Effect>::empty(),
{
}

/// Keystrokes that arrive while no window is open change nothing, however
/// many there are.
pub proof fn lemma_idle_ignores_input(s: StateView, count: nat)
    requires
        s.is_idle(),
    ensures
        run(s, repeated(Event::InputReceived, count)) == s,
        run_effects(s, repeated(Event::InputReceived, count)) == Seq::<Effect>::empty(),
    decreases count,
{
    if count > 0 {
        let shorter: nat = (count - 1) as nat;
        assert(repeated(Event::InputReceived, count).drop_last() =~= repeated(
            Event::InputReceived,
            shorter,
        ));
        lemma_idle_ignores_input(s, shorter);
    }
}

/// The host is asked to go back to normal mode exactly when the last
/// pending timer fires while a window is open; the window is closed then and
/// no timer is left.
pub proof fn lemma_revert_on_last_timer(s: StateView, e: Event)
    ensures
        emitted(s, e).contains(Effect::SetInputMode(InputMode::Normal)) <==> reverts(s, e),
        reverts(s, e) ==> emitted(s, e) == seq![Effect::SetInputMode(InputMode::Normal)]
            && next_state(s, e).is_idle() && next_state(s, e).pending_timers == 0,
{
    if reverts(s, e) {
        assert(emitted(s, e)[0] == Effect::SetInputMode(InputMode::Normal));
    }
}

/// A timer that fires while others are still pending leaves the window as it
/// is, and one that fires while none is pending changes nothing at all.
pub proof fn lemma_early_or_stray_timer(s: StateView)
    ensures
        s.pending_timers > 1 ==> next_state(s, Event::TimerFired).debounce_counter
            == s.debounce_counter && emitted(s, Event::TimerFired) == Seq::<Effect>::empty(),
        s.pending_timers == 0 ==> next_state(s, Event::TimerFired) == s && emitted(
            s,
            Event::TimerFired,
        ) == Seq::<Effect>::empty(),
{
}

/// No window stays open for ever: once every pending timer has fired, with
/// nothing else in between, the controller is idle with no timer left, and
/// it has asked for normal mode once if a window was open and not at all
/// otherwise.
pub proof fn lemma_timers_drain(s: StateView)
    requires
        s.wf(),
    ensures
        run(s, repeated(Event::TimerFired, s.pending_timers)) == (StateView {
            debounce_counter: None,
            pending_timers: 0,
            ..s
        }),
        run_effects(s, repeated(Event::TimerFired, s.pending_timers)) == if s.is_active() {
            seq![Effect::SetInputMode(InputMode::Normal)]
        } else {
            Seq::<Effect>::empty()
        },
{
    lemma_timers_fire(s, s.pending_timers);
}

/// The state and the effects after `count` of the pending timers have
/// fired, with nothing else in between.
pub proof fn lemma_timers_fire(s: StateView, count: nat)
    requires
        s.wf(),
        count <= s.pending_timers,
    ensures
        run(s, repeated(Event::TimerFired, count)) == (StateView {
            debounce_counter: if count == s.pending_timers {
                None
            } else {
                s.debounce_counter
            },
            pending_timers: (s.pending_timers - count) as nat,
            ..s
        }),
        run_effects(s, repeated(Event::TimerFired, count)) == if count == s.pending_timers
            && s.is_active() {
            seq![Effect::SetInputMode(InputMode::Normal)]
        } else {
            Seq::<Effect>::empty()
        },
    decreases count,
{
    if count > 0 {
        let fewer: nat = (count - 1) as nat;
        assert(repeated(Event::TimerFired, count).drop_last() =~= repeated(
            Event::TimerFired,
            fewer,
        ));
        lemma_timers_fire(s, fewer);
        assert(run_effects(s, repeated(Event::TimerFired, fewer)) == Seq::<Effect>::empty());
        let before = run(s, repeated(Event::TimerFired, fewer));
        assert(Seq::<Effect>::empty() + emitted(before, Event::TimerFired) =~= emitted(
            before,
            Event::TimerFired,
        ));
    }
}

} // verus!
