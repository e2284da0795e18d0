//! The mode-switch controller: its state, the notifications it consumes, the
//! effects it asks the host for, and the transition rules between them.

use crate::config::{configured_timeout, timeout_from_config};
use crate::text::same_text;
use vstd::prelude::*;

verus! {

/// An input mode of the host, as far as the controller tells modes apart.
#[derive(Clone, Copy, Debug, PartialEq, Eq, Structural)]
pub enum InputMode {
    /// The default mode, restored when a window ends by its timer.
    Normal,
    /// The pass-through mode that an activation enters.
    Tmux,
    /// Any other mode of the host.
    Other,
}

/// A notification delivered to the controller.
#[derive(Clone, Copy, Debug, PartialEq, Eq, Structural)]
pub enum Event {
    /// A keystroke arrived.
    InputReceived,
    /// The host's input mode changed to the given mode, for whatever reason.
    ModeUpdate(InputMode),
    /// A timer armed earlier has elapsed.
    TimerFired,
    /// An explicit command to enter Tmux mode.
    ActivationRequest,
    /// Anything else; ignored in every state.
    Other,
}

/// An effect that the controller asks the host to carry out.
#[derive(Clone, Copy, Debug, PartialEq, Eq, Structural)]
pub enum Effect {
    /// Switch the session to the given input mode.
    SetInputMode(InputMode),
    /// Deliver one `TimerFired` after the given number of milliseconds.
    ArmTimer(u64),
}

/// The mathematical content of a [`State`].
pub struct StateView {
    /// Delay between an activation and its revert timer, in milliseconds.
    pub timeout_ms: u64,
    /// `None` while no window is open; `Some(n)` while one is open and `n`
    /// keystrokes have been seen in it.
    pub debounce_counter: Option<nat>,
    /// Number of timers armed and not yet fired.
    pub pending_timers: nat,
}

impl StateView {
    /// A window is open.
    pub open spec fn is_active(self) -> bool {
        self.debounce_counter is Some
    }

    /// No window is open.
    pub open spec fn is_idle(self) -> bool {
        self.debounce_counter is None
    }

    /// An open window always has a timer outstanding that will close it,
    /// and it never counts more than the one keystroke it tolerates.
    pub open spec fn wf(self) -> bool {
        match self.debounce_counter {
            Some(seen) => seen <= 1 && self.pending_timers >= 1,
            None => true,
        }
    }

    /// The state before any notification: idle, no timer outstanding.
    pub open spec fn initial(timeout_ms: u64) -> StateView {
        StateView { timeout_ms, debounce_counter: None, pending_timers: 0 }
    }
}

/// An activation is accepted only while no window is open.
pub open spec fn accepts_activation(s: StateView, e: Event) -> bool {
    e is ActivationRequest && s.is_idle()
}

/// The timer that fires is the last one outstanding and a window is open.
pub open spec fn reverts(s: StateView, e: Event) -> bool {
    e is TimerFired && s.pending_timers == 1 && s.is_active()
}

/// The name of the command that asks for an activation.
pub const ACTIVATION_COMMAND: &'static str = "switch_to_tmux_mode";

/// The event that a command of the given name stands for: an activation
/// request under its one name, nothing under any other.
pub open spec fn command_event(name: Seq<char>) -> Event {
    if name == ACTIVATION_COMMAND@ {
        Event::ActivationRequest
    } else {
        Event::Other
    }
}

/// The state that follows `s` when `e` is delivered.
pub open spec fn next_state(s: StateView, e: Event) -> StateView {
    match e {
        Event::ActivationRequest => if s.is_idle() {
            StateView { debounce_counter: Some(0), pending_timers: s.pending_timers + 1, ..s }
        } else {
            s
        },
        Event::InputReceived => match s.debounce_counter {
            Some(n) => if n + 1 == 1 {
                StateView { debounce_counter: Some(1), ..s }
            } else {
                StateView { debounce_counter: None, ..s }
            },
            None => s,
        },
        Event::ModeUpdate(mode) => if mode != InputMode::Tmux {
            StateView { debounce_counter: None, ..s }
        } else {
            s
        },
        Event::TimerFired => if s.pending_timers > 0 {
            StateView {
                debounce_counter: if s.pending_timers == 1 {
                    None
                } else {
                    s.debounce_counter
                },
                pending_timers: (s.pending_timers - 1) as nat,
                ..s
            }
        } else {
            s
        },
        Event::Other => s,
    }
}

/// The effects asked of the host when `e` is delivered in state `s`, in order.
pub open spec fn emitted(s: StateView, e: Event) -> Seq<Effect> {
    if accepts_activation(s, e) {
        seq![Effect::SetInputMode(InputMode::Tmux), Effect::ArmTimer(s.timeout_ms)]
    } else if reverts(s, e) {
        seq![Effect::SetInputMode(InputMode::Normal)]
    } else {
        Seq::empty()
    }
}

/// The controller's state: its configured timeout and its bookkeeping.
#[derive(Debug)]
pub struct State {
    timeout_ms: u64,
    debounce_counter: Option<usize>,
    pending_timers: usize,
}

impl View for State {
    type V = StateView;

    closed spec fn view(&self) -> StateView {
        StateView {
            timeout_ms: self.timeout_ms,
            debounce_counter: match self.debounce_counter {
                Some(n) => Some(n as nat),
                None => None,
            },
            pending_timers: self.pending_timers as nat,
        }
    }
}

impl Default for State {
    /// The state before configuration: idle, no timer outstanding, and a
    /// revert delay of zero.
    fn default() -> (state: State)
        ensures
            state@ == StateView::initial(0),
            state@.wf(),
    {
        State { timeout_ms: 0, debounce_counter: None, pending_timers: 0 }
    }
}

impl State {
    /// An open window has a timer outstanding and has seen one keystroke at
    /// most.
    #[verifier::type_invariant]
    spec fn well_formed(&self) -> bool {
        match self.debounce_counter {
            Some(seen) => seen <= 1 && self.pending_timers >= 1,
            None => true,
        }
    }

    /// Takes the revert delay from a list of options, given as pairs of name
    /// and value. Nothing else of the state changes.
    pub fn load(&mut self, config: &Vec<(String, String)>)
        ensures
            final(self)@ == (StateView {
                timeout_ms: configured_timeout(config.deep_view()),
                ..old(self)@
            }),
            final(self)@.wf(),
    {
        proof {
            use_type_invariant(&*self);
        }
        self.timeout_ms = timeout_from_config(config);
    }

    /// Whether `event` can be handled: an activation that would be accepted
    /// needs room for one more pending timer.
    pub fn can_update(&self, event: Event) -> (ok: bool)
        ensures
            ok == (accepts_activation(self@, event) ==> self@.pending_timers < usize::MAX),
    {
        match event {
            Event::ActivationRequest => self.debounce_counter.is_some() || self.pending_timers
                < usize::MAX,
            _ => true,
        }
    }

    /// Whether a command of the given name can be handled, in the sense of
    /// [`State::can_update`].
    pub fn can_pipe(&self, name: &str) -> (ok: bool)
        ensures
            ok == (accepts_activation(self@, command_event(name@)) ==> self@.pending_timers
                < usize::MAX),
    {
        !same_text(name, ACTIVATION_COMMAND) || self.can_update(Event::ActivationRequest)
    }

    /// Handles one notification: moves to the next state and returns the
    /// effects to carry out, in order.
    ///
    /// An accepted activation arms one more timer, so the count of pending
    /// timers must have room for it.
    pub fn update(&mut self, event: Event) -> (effects: Vec<Effect>)
        requires
            accepts_activation(old(self)@, event) ==> old(self)@.pending_timers < usize::MAX,
        ensures
            final(self)@ == next_state(old(self)@, event),
            effects@ == emitted(old(self)@, event),
            final(self)@.wf(),
            // A mode change away from Tmux mode closes the window, whatever
            // its keystroke count.
            event is ModeUpdate && event->0 != InputMode::Tmux ==> final(self)@.is_idle(),
            // An activation request during an open window changes nothing.
            event is ActivationRequest && old(self)@.is_active() ==> final(self)@ == old(self)@
                && effects@.len() == 0,
            // A keystroke outside of a window changes nothing.
            event is InputReceived && old(self)@.is_idle() ==> final(self)@ == old(self)@
                && effects@.len() == 0,
    {
        proof {
            use_type_invariant(&*self);
        }
        let mut effects: Vec<Effect> = Vec::new();
        match event {
            Event::ActivationRequest => {
                if self.debounce_counter.is_none() {
                    effects.push(Effect::SetInputMode(InputMode::Tmux));
                    self.pending_timers = self.pending_timers + 1;
                    self.debounce_counter = Some(0);
                    effects.push(Effect::ArmTimer(self.timeout_ms));
                }
            },
            Event::InputReceived => {
                match self.debounce_counter {
                    Some(seen) => {
                        if seen == 0 {
                            self.debounce_counter = Some(1);
                        } else {
                            self.debounce_counter = None;
                        }
                    },
                    None => {},
                }
            },
            Event::ModeUpdate(mode) => {
                if mode != InputMode::Tmux && self.debounce_counter.is_some() {
                    self.debounce_counter = None;
                }
            },
            Event::TimerFired => {
                if self.pending_timers > 0 {
                    if self.pending_timers == 1 && self.debounce_counter.is_some() {
                        effects.push(Effect::SetInputMode(InputMode::Normal));
                        self.debounce_counter = None;
                    }
                    self.pending_timers = self.pending_timers - 1;
                }
            },
            Event::Other => {},
        }
        effects
    }

    /// Handles a command delivered by name. The activation command is an
    /// activation request; a command of any other name is ignored.
    pub fn pipe(&mut self, name: &str) -> (effects: Vec<Effect>)
        requires
            accepts_activation(old(self)@, command_event(name@)) ==> old(self)@.pending_timers
                < usize::MAX,
        ensures
            final(self)@ == next_state(old(self)@, command_event(name@)),
            effects@ == emitted(old(self)@, command_event(name@)),
            final(self)@.wf(),
            // The command changes nothing during an open window, and a
            // command of another name changes nothing at all.
            old(self)@.is_active() || name@ != ACTIVATION_COMMAND@ ==> final(self)@ == old(self)@
                && effects@.len() == 0,
    {
        proof {
            use_type_invariant(&*self);
        }
        if same_text(name, ACTIVATION_COMMAND) {
            self.update(Event::ActivationRequest)
        } else {
            Vec::new()
        }
    }

    /// The configured revert delay, in milliseconds.
    pub fn timeout_ms(&self) -> (ms: u64)
        ensures
            ms == self@.timeout_ms,
    {
        self.timeout_ms
    }

    /// The number of keystrokes seen in the open window, or `None` while no
    /// window is open.
    pub fn debounce_counter(&self) -> (seen: Option<usize>)
        ensures
            match seen {
                Some(n) => self@.debounce_counter == Some(n as nat),
                None => self@.debounce_counter is None,
            },
            self@.wf(),
    {
        proof {
            use_type_invariant(self);
        }
        self.debounce_counter
    }

    /// The number of timers armed and not yet fired.
    pub fn pending_timers(&self) -> (pending: usize)
        ensures
            pending == self@.pending_timers,
            self@.wf(),
    {
        proof {
            use_type_invariant(self);
        }
        self.pending_timers
    }

    /// Whether a window is open.
    pub fn is_active(&self) -> (active: bool)
        ensures
            active == self@.is_active(),
            self@.wf(),
    {
        proof {
            use_type_invariant(self);
        }
        self.debounce_counter.is_some()
    }
}

} // verus!
