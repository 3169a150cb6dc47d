//! The input state machine: what one key press does to the session state,
//! and which action it asks the event loop to take.

use crate::app::{App, InputField, InputMode, SessionState};
use crate::text::{chat_line, format_chat_line, lemma_texts_push};
use vstd::prelude::*;

verus! {

/// The identity of a key, as far as the state machine tells keys apart.
#[derive(Clone, Copy, Debug, PartialEq, Eq, Structural)]
pub enum Key {
    Char(char),
    Enter,
    Backspace,
    Esc,
    Tab,
    /// Any key that has no meaning here.
    Other,
}

/// The modifier keys held down during a key press.
#[derive(Clone, Copy, Debug, PartialEq, Eq, Structural)]
pub struct Modifiers {
    pub shift: bool,
    pub control: bool,
    pub alt: bool,
    pub super_key: bool,
    pub hyper: bool,
    pub meta: bool,
}

impl Modifiers {
    /// Control is held and no other modifier is.
    pub open spec fn is_control(self) -> bool {
        self.control && !self.shift && !self.alt && !self.super_key && !self.hyper && !self.meta
    }

    /// No modifier held.
    pub fn none() -> (modifiers: Modifiers)
        ensures
            modifiers == (Modifiers {
                shift: false,
                control: false,
                alt: false,
                super_key: false,
                hyper: false,
                meta: false,
            }),
    {
        Modifiers {
            shift: false,
            control: false,
            alt: false,
            super_key: false,
            hyper: false,
            meta: false,
        }
    }

    /// Control alone.
    pub fn control() -> (modifiers: Modifiers)
        ensures
            modifiers == (Modifiers {
                shift: false,
                control: true,
                alt: false,
                super_key: false,
                hyper: false,
                meta: false,
            }),
    {
        Modifiers {
            shift: false,
            control: true,
            alt: false,
            super_key: false,
            hyper: false,
            meta: false,
        }
    }

    /// Whether control is held and no other modifier is.
    pub fn control_only(&self) -> (only: bool)
        ensures
            only == self.is_control(),
    {
        self.control && !self.shift && !self.alt && !self.super_key && !self.hyper && !self.meta
    }
}

/// What the state machine asks of the event loop.
#[derive(Clone, Copy, Debug, PartialEq, Eq, Structural)]
pub enum InputAction {
    Quit,
    TryConnect,
}

impl SessionState {
    /// The sole connect trigger: not connected, editing the password field,
    /// and nickname, hostname and channel all filled in.
    pub open spec fn should_try_connect(self) -> bool {
        &&& !self.connected
        &&& self.input_mode == InputMode::Editing
        &&& self.current_field == InputField::Password
        &&& self.nickname.len() > 0
        &&& self.hostname.len() > 0
        &&& self.channel.len() > 0
    }

    /// The state after a key press read as a command.
    pub open spec fn normal_key(self, key: Key) -> SessionState {
        match key {
            Key::Char(c) => if c == 'e' {
                SessionState { input_mode: InputMode::Editing, ..self }
            } else {
                self
            },
            Key::Tab => if self.connected {
                self
            } else {
                SessionState { current_field: self.current_field.next(), ..self }
            },
            _ => self,
        }
    }

    /// The action that a key press read as a command asks for.
    pub open spec fn normal_action(self, key: Key, modifiers: Modifiers) -> Option<InputAction> {
        match key {
            Key::Char(c) => if c == 'q' || (c == 'c' && modifiers.is_control()) {
                Some(InputAction::Quit)
            } else {
                None
            },
            Key::Enter => if self.should_try_connect() {
                Some(InputAction::TryConnect)
            } else {
                None
            },
            _ => None,
        }
    }

    /// The state after a key press read as text input.
    pub open spec fn editing_key(self, key: Key) -> SessionState {
        match key {
            Key::Enter => if self.connected && self.current_message.len() > 0 {
                SessionState {
                    messages: self.messages.push(chat_line(self.nickname, self.current_message)),
                    current_message: Seq::empty(),
                    ..self
                }
            } else {
                self
            },
            Key::Char(c) => self.with_field_text(
                self.current_field,
                self.field_text(self.current_field).push(c),
            ),
            Key::Backspace => if self.field_text(self.current_field).len() == 0 {
                self
            } else {
                self.with_field_text(
                    self.current_field,
                    self.field_text(self.current_field).drop_last(),
                )
            },
            Key::Esc => SessionState { input_mode: InputMode::Normal, ..self },
            _ => self,
        }
    }

    /// The state after a key press, read according to the input mode.
    pub open spec fn after_key(self, key: Key) -> SessionState {
        match self.input_mode {
            InputMode::Normal => self.normal_key(key),
            InputMode::Editing => self.editing_key(key),
        }
    }

    /// The action that a key press asks for, read according to the input
    /// mode. Text input asks for none.
    pub open spec fn action_for(self, key: Key, modifiers: Modifiers) -> Option<InputAction> {
        match self.input_mode {
            InputMode::Normal => self.normal_action(key, modifiers),
            InputMode::Editing => None,
        }
    }

    /// The state after a sequence of key presses, first to last.
    pub open spec fn after_keys(self, keys: Seq<Key>) -> SessionState
        decreases keys.len(),
    {
        if keys.len() == 0 {
            self
        } else {
            self.after_keys(keys.drop_last()).after_key(keys.last())
        }
    }
}

/// Whether Enter, read as a command, starts a connection attempt.
pub fn should_try_connect(app: &App) -> (ready: bool)
    ensures
        ready == app@.should_try_connect(),
{
    !app.connected && app.input_mode == InputMode::Editing && matches!(
        app.current_field,
        InputField::Password
    ) && !app.nickname.as_str().is_empty() && !app.hostname.as_str().is_empty()
        && !app.channel.as_str().is_empty()
}

/// Interprets a key press as a command.
pub fn handle_normal_mode(key: Key, modifiers: Modifiers, app: &mut App) -> (action: Option<
    InputAction,
>)
    ensures
        final(app)@ == old(app)@.normal_key(key),
        action == old(app)@.normal_action(key, modifiers),
        old(app)@.wf() ==> final(app)@.wf(),
{
    match key {
        Key::Char(c) => {
            if c == 'c' && modifiers.control_only() {
                Some(InputAction::Quit)
            } else if c == 'e' {
                app.input_mode = InputMode::Editing;
                None
            } else if c == 'q' {
                Some(InputAction::Quit)
            } else {
                None
            }
        },
        Key::Tab => {
            if !app.connected {
                app.current_field = match app.current_field {
                    InputField::Nickname => InputField::Hostname,
                    InputField::Hostname => InputField::Channel,
                    InputField::Channel => InputField::Password,
                    InputField::Password => InputField::Nickname,
                    InputField::Message => InputField::Message,
                };
            }
            None
        },
        Key::Enter => {
            if should_try_connect(app) {
                Some(InputAction::TryConnect)
            } else {
                None
            }
        },
        _ => None,
    }
}

/// Interprets a key press as text input.
pub fn handle_editing_mode(key: Key, app: &mut App) -> (action: Option<InputAction>)
    ensures
        final(app)@ == old(app)@.editing_key(key),
        action.is_none(),
        old(app)@.wf() ==> final(app)@.wf(),
{
    match key {
        Key::Enter => {
            if app.connected && !app.current_message.as_str().is_empty() {
                let message = format_chat_line(app.nickname.as_str(), app.current_message.as_str());
                proof {
                    lemma_texts_push(app.messages@, message);
                }
                app.messages.push(message);
                app.current_message.clear();
            }
            None
        },
        Key::Char(c) => {
            match app.current_field {
                InputField::Nickname => app.nickname.push(c),
                InputField::Hostname => app.hostname.push(c),
                InputField::Channel => app.channel.push(c),
                InputField::Password => app.password.push(c),
                InputField::Message => app.current_message.push(c),
            }
            None
        },
        Key::Backspace => {
            match app.current_field {
                InputField::Nickname => {
                    app.nickname.pop();
                },
                InputField::Hostname => {
                    app.hostname.pop();
                },
                InputField::Channel => {
                    app.channel.pop();
                },
                InputField::Password => {
                    app.password.pop();
                },
                InputField::Message => {
                    app.current_message.pop();
                },
            }
            None
        },
        Key::Esc => {
            app.input_mode = InputMode::Normal;
            None
        },
        _ => None,
    }
}

/// Dispatches a key press to the handler of the current input mode.
pub fn handle_input(key: Key, modifiers: Modifiers, app: &mut App) -> (action: Option<InputAction>)
    ensures
        final(app)@ == old(app)@.after_key(key),
        action == old(app)@.action_for(key, modifiers),
        old(app)@.wf() ==> final(app)@.wf(),
{
    match app.input_mode {
        InputMode::Normal => handle_normal_mode(key, modifiers, app),
        InputMode::Editing => handle_editing_mode(key, app),
    }
}

/// Tab, pressed any number of times as a command before a session is
/// established, walks the ring Nickname, Hostname, Channel, Password and
/// changes nothing else; the focus is back where it started exactly after
/// every fourth press. Once a session is established, or while text is
/// being typed, Tab changes nothing.
pub proof fn lemma_tab_cycles(s: SessionState, keys: Seq<Key>)
    requires
        s.wf(),
        forall|i: int| 0 <= i < keys.len() ==> keys[i] == Key::Tab,
    ensures
        s.connected || s.input_mode == InputMode::Editing ==> s.after_keys(keys) == s,
        !s.connected && s.input_mode == InputMode::Normal ==> s.after_keys(keys) == (SessionState {
            current_field: InputField::at(s.current_field.position() + keys.len()),
            ..s
        }),
        !s.connected && s.input_mode == InputMode::Normal ==> (s.after_keys(keys) == s
            <==> keys.len() % 4 == 0),
    decreases keys.len(),
{
    if keys.len() > 0 {
        lemma_tab_cycles(s, keys.drop_last());
    }
}

/// A character typed as text goes to the end of the field in focus; every
/// other text, the transcript, the roster, the focus, the mode and the
/// connection status stay as they were.
pub proof fn lemma_typing_changes_one_field(s: SessionState, c: char, other: InputField)
    requires
        s.input_mode == InputMode::Editing,
        other != s.current_field,
    ensures
        s.after_key(Key::Char(c)).field_text(s.current_field) == s.field_text(
            s.current_field,
        ).push(c),
        s.after_key(Key::Char(c)).field_text(other) == s.field_text(other),
        s.after_key(Key::Char(c)).messages == s.messages,
        s.after_key(Key::Char(c)).users == s.users,
        s.after_key(Key::Char(c)).current_field == s.current_field,
        s.after_key(Key::Char(c)).input_mode == s.input_mode,
        s.after_key(Key::Char(c)).connected == s.connected,
{
}

/// The characters among a sequence of key presses, in order.
pub open spec fn characters(keys: Seq<Key>) -> Seq<char>
    decreases keys.len(),
{
    if keys.len() == 0 {
        Seq::empty()
    } else {
        match keys.last() {
            Key::Char(c) => characters(keys.drop_last()).push(c),
            _ => characters(keys.drop_last()),
        }
    }
}

/// A text typed character by character arrives at the end of the field in
/// focus, in the order typed, and nothing else changes.
pub proof fn lemma_typed_text_arrives(s: SessionState, keys: Seq<Key>)
    requires
        s.input_mode == InputMode::Editing,
        forall|i: int| 0 <= i < keys.len() ==> keys[i] is Char,
    ensures
        s.after_keys(keys) == s.with_field_text(
            s.current_field,
            s.field_text(s.current_field) + characters(keys),
        ),
    decreases keys.len(),
{
    let field = s.current_field;
    if keys.len() == 0 {
        assert(s.field_text(field) + characters(keys) =~= s.field_text(field));
    } else {
        lemma_typed_text_arrives(s, keys.drop_last());
        let c = keys.last()->Char_0;
        assert((s.field_text(field) + characters(keys.drop_last())).push(c) =~= s.field_text(field)
            + characters(keys));
    }
}

/// Backspace undoes the character typed just before it.
pub proof fn lemma_backspace_undoes_typing(s: SessionState, c: char)
    requires
        s.input_mode == InputMode::Editing,
    ensures
        s.after_key(Key::Char(c)).after_key(Key::Backspace) == s,
{
    let text = s.field_text(s.current_field);
    assert(text.push(c).drop_last() =~= text);
}

/// Backspace typed as text removes the last character of the field in
/// focus and touches no other field; on an empty field it changes nothing,
/// however often it is pressed.
pub proof fn lemma_backspace(s: SessionState, other: InputField)
    requires
        s.input_mode == InputMode::Editing,
        other != s.current_field,
    ensures
        s.field_text(s.current_field).len() == 0 ==> s.after_key(Key::Backspace) == s,
        s.field_text(s.current_field).len() > 0 ==> s.after_key(Key::Backspace).field_text(
            s.current_field,
        ) == s.field_text(s.current_field).drop_last(),
        s.after_key(Key::Backspace).field_text(other) == s.field_text(other),
{
}

/// Enter typed as text sends nothing while the message buffer is empty or
/// no session is established: the state stays as it was.
pub proof fn lemma_enter_sends_no_empty_message(s: SessionState)
    requires
        s.input_mode == InputMode::Editing,
        s.current_message.len() == 0 || !s.connected,
    ensures
        s.after_key(Key::Enter) == s,
{
}

/// Enter typed as text with a message in the buffer and a session
/// established appends exactly one line to the transcript, the nickname
/// between angle brackets before the message, and empties the buffer.
pub proof fn lemma_enter_sends_message(s: SessionState)
    requires
        s.input_mode == InputMode::Editing,
        s.connected,
        s.current_message.len() > 0,
    ensures
        s.after_key(Key::Enter).messages == s.messages.push(
            chat_line(s.nickname, s.current_message),
        ),
        s.after_key(Key::Enter).current_message.len() == 0,
{
}

/// A key press dispatched by the input mode never asks for a connection:
/// the trigger holds only in Editing mode, and Enter is tested against it
/// only where it is read as a command, in Normal mode. The request comes
/// from `handle_normal_mode` alone, on a state that is in Editing mode.
pub proof fn lemma_dispatch_asks_no_connection(s: SessionState, key: Key, modifiers: Modifiers)
    ensures
        s.action_for(key, modifiers) != Some(InputAction::TryConnect),
        s.normal_action(key, modifiers) == Some(InputAction::TryConnect) <==> key == Key::Enter
            && s.should_try_connect(),
{
}

/// No key press breaks the tie between focus and connection status,
/// shortens or rewrites the transcript, or changes the roster or the
/// connection status; once a session is established the login fields are
/// out of reach of the keyboard.
pub proof fn lemma_key_keeps_invariants(s: SessionState, key: Key)
    ensures
        s.wf() ==> s.after_key(key).wf(),
        s.messages.is_prefix_of(s.after_key(key).messages),
        s.after_key(key).users == s.users,
        s.after_key(key).connected == s.connected,
        s.wf() && s.connected ==> {
            &&& s.after_key(key).nickname == s.nickname
            &&& s.after_key(key).hostname == s.hostname
            &&& s.after_key(key).channel == s.channel
            &&& s.after_key(key).password == s.password
        },
{
}

} // verus!
