//! The decisions of the event loop: what a terminal event leads to, and
//! what the outcome of a connection attempt does to the session state.

use crate::app::{App, InputField, InputMode, SessionState};
use crate::input_handler::{handle_input, InputAction, Key, Modifiers};
use crate::irc_client::{ConnectError, ProtocolEvent};
use crate::text::lemma_texts_push;
use vstd::prelude::*;

verus! {

/// Whether a key went down, is held, or came up.
#[derive(Clone, Copy, Debug, PartialEq, Eq, Structural)]
pub enum KeyEventKind {
    Press,
    Repeat,
    Release,
}

/// A key event as the terminal reports it.
#[derive(Clone, Copy, Debug, PartialEq, Eq, Structural)]
pub struct KeyEvent {
    pub code: Key,
    pub modifiers: Modifiers,
    pub kind: KeyEventKind,
}

/// What the event loop does next.
#[derive(Clone, Copy, Debug, PartialEq, Eq, Structural)]
pub enum LoopAction {
    /// Draw again and read the next event.
    Continue,
    /// Leave the loop.
    Quit,
    /// Open a session with the settings of the login form.
    Connect,
}

/// One thing that happens to the session state. A run of the program is a
/// sequence of these.
pub ghost enum Step {
    /// The terminal reports a key event.
    Key(KeyEvent),
    /// An event arrives from the server.
    Inbound(ProtocolEvent),
    /// A connection attempt ends.
    Connected(Result<(), ConnectError>),
}

impl KeyEvent {
    /// Only presses are acted upon.
    pub open spec fn is_press(self) -> bool {
        self.kind == KeyEventKind::Press
    }

    /// Control and `c` pressed together, which ends the loop in every mode.
    pub open spec fn is_interrupt(self) -> bool {
        self.is_press() && self.code == Key::Char('c') && self.modifiers.is_control()
    }

    /// Whether the event reaches the input state machine.
    pub open spec fn is_dispatched(self) -> bool {
        self.is_press() && !self.is_interrupt()
    }
}

impl SessionState {
    /// The state after a terminal event.
    pub open spec fn after_key_event(self, event: KeyEvent) -> SessionState {
        if event.is_dispatched() {
            self.after_key(event.code)
        } else {
            self
        }
    }

    /// What the loop does after a terminal event.
    pub open spec fn loop_action(self, event: KeyEvent) -> LoopAction {
        if event.is_interrupt() {
            LoopAction::Quit
        } else if event.is_press() {
            match self.action_for(event.code, event.modifiers) {
                Some(InputAction::Quit) => LoopAction::Quit,
                Some(InputAction::TryConnect) => LoopAction::Connect,
                None => LoopAction::Continue,
            }
        } else {
            LoopAction::Continue
        }
    }

    /// The state after a connection attempt. Success establishes the
    /// session: the focus and the mode are forced to the message buffer and
    /// to text input, and a confirmation joins the transcript. Failure
    /// leaves everything as it was but for one diagnostic line.
    pub open spec fn after_connect(self, outcome: Result<(), ConnectError>) -> SessionState {
        match outcome {
            Ok(_) => SessionState {
                connected: true,
                current_field: InputField::Message,
                input_mode: InputMode::Editing,
                messages: self.messages.push(connected_line()),
                ..self
            },
            Err(error) => SessionState {
                messages: self.messages.push(connection_error_line(error.reason@)),
                ..self
            },
        }
    }

    /// The state after one step.
    pub open spec fn after_step(self, step: Step) -> SessionState {
        match step {
            Step::Key(event) => self.after_key_event(event),
            Step::Inbound(event) => self.after_event(event),
            Step::Connected(outcome) => self.after_connect(outcome),
        }
    }

    /// The state after a sequence of steps, first to last.
    pub open spec fn after_steps(self, steps: Seq<Step>) -> SessionState
        decreases steps.len(),
    {
        if steps.len() == 0 {
            self
        } else {
            self.after_steps(steps.drop_last()).after_step(steps.last())
        }
    }
}

/// The transcript line that confirms a session.
pub open spec fn connected_line() -> Seq<char> {
    "Connected to server!"@
}

/// The transcript line that reports a failed attempt.
pub open spec fn connection_error_line(reason: Seq<char>) -> Seq<char> {
    "Connection error: "@ + reason
}

/// Decides what one terminal event leads to, and applies it to the state.
pub fn on_key_event(event: KeyEvent, app: &mut App) -> (next: LoopAction)
    ensures
        final(app)@ == old(app)@.after_key_event(event),
        next == old(app)@.loop_action(event),
        old(app)@.wf() ==> final(app)@.wf(),
{
    if event.kind != KeyEventKind::Press {
        return LoopAction::Continue;
    }
    if event.code == Key::Char('c') && event.modifiers.control_only() {
        return LoopAction::Quit;
    }
    match handle_input(event.code, event.modifiers, app) {
        Some(InputAction::Quit) => LoopAction::Quit,
        Some(InputAction::TryConnect) => LoopAction::Connect,
        None => LoopAction::Continue,
    }
}

/// Records the outcome of a connection attempt.
pub fn finish_connect(app: &mut App, outcome: Result<(), ConnectError>)
    ensures
        final(app)@ == old(app)@.after_connect(outcome),
        old(app)@.wf() ==> final(app)@.wf(),
{
    match outcome {
        Ok(_) => {
            let line = String::from_str("Connected to server!");
            proof {
                lemma_texts_push(app.messages@, line);
            }
            app.connected = true;
            app.current_field = InputField::Message;
            app.input_mode = InputMode::Editing;
            app.messages.push(line);
        },
        Err(error) => {
            let mut line = String::from_str("Connection error: ");
            line.append(error.reason.as_str());
            proof {
                lemma_texts_push(app.messages@, line);
            }
            app.messages.push(line);
        },
    }
}

/// The loop asks for a connection exactly when the input state machine
/// does, which a key event dispatched by the input mode never brings about.
pub proof fn lemma_loop_asks_no_connection(s: SessionState, event: KeyEvent)
    ensures
        s.loop_action(event) != LoopAction::Connect,
{
}

/// A key event that is no press changes nothing and lets the loop go on.
pub proof fn lemma_only_presses_act(s: SessionState, event: KeyEvent)
    requires
        !event.is_press(),
    ensures
        s.after_key_event(event) == s,
        s.loop_action(event) == LoopAction::Continue,
{
}

/// Whatever happens, the focus stays tied to the connection status, the
/// transcript only grows at its end, a session once established stays
/// established, and the login fields of an established session stay as
/// they are.
pub proof fn lemma_step_keeps_invariants(s: SessionState, step: Step)
    ensures
        s.wf() ==> s.after_step(step).wf(),
        s.messages.is_prefix_of(s.after_step(step).messages),
        s.connected ==> s.after_step(step).connected,
        s.wf() && s.connected ==> {
            &&& s.after_step(step).nickname == s.nickname
            &&& s.after_step(step).hostname == s.hostname
            &&& s.after_step(step).channel == s.channel
            &&& s.after_step(step).password == s.password
        },
{
}

/// The same holds of every run: of the state after any sequence of steps,
/// set against the state that the run started from.
pub proof fn lemma_run_keeps_invariants(s: SessionState, steps: Seq<Step>)
    ensures
        s.wf() ==> s.after_steps(steps).wf(),
        s.messages.is_prefix_of(s.after_steps(steps).messages),
        s.connected ==> s.after_steps(steps).connected,
        s.wf() && s.connected ==> {
            &&& s.after_steps(steps).nickname == s.nickname
            &&& s.after_steps(steps).hostname == s.hostname
            &&& s.after_steps(steps).channel == s.channel
            &&& s.after_steps(steps).password == s.password
        },
    decreases steps.len(),
{
    if steps.len() > 0 {
        lemma_run_keeps_invariants(s, steps.drop_last());
        lemma_step_keeps_invariants(s.after_steps(steps.drop_last()), steps.last());
    }
}

/// Every state that a run reaches from the state at process start is well
/// formed.
pub proof fn lemma_reachable_states_are_well_formed(steps: Seq<Step>)
    ensures
        SessionState::initial().after_steps(steps).wf(),
{
    lemma_run_keeps_invariants(SessionState::initial(), steps);
}

} // verus!
