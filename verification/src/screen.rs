//! What the screens show of the session state: which screen is up, where
//! the cursor stands, and the text that stands for each field.

use crate::app::{App, InputField, InputMode, SessionState};
use vstd::prelude::*;
use vstd::utf8::encode_utf8;

verus! {

/// The two screens.
#[derive(Clone, Copy, Debug, PartialEq, Eq, Structural)]
pub enum Screen {
    /// The login form.
    Login,
    /// The transcript, the roster and the message buffer.
    Chat,
}

/// The number of bytes that a text takes, which is the width it is drawn
/// with.
pub open spec fn byte_len(text: Seq<char>) -> nat {
    encode_utf8(text).len()
}

/// A text of the given length that shows nothing of what it stands for.
pub open spec fn mask(len: nat) -> Seq<char> {
    Seq::new(len, |i: int| '*')
}

impl SessionState {
    /// The screen that is up: the chat once a session is established, the
    /// login form before.
    pub open spec fn screen(self) -> Screen {
        if self.connected {
            Screen::Chat
        } else {
            Screen::Login
        }
    }

    /// The field that shows the cursor: the field in focus, while text is
    /// being typed and the field belongs to the screen that is up; none
    /// otherwise.
    pub open spec fn cursor_field(self) -> Option<InputField> {
        if self.input_mode == InputMode::Editing && (self.connected <==> self.current_field
            == InputField::Message) {
            Some(self.current_field)
        } else {
            None
        }
    }
}

/// Chooses the screen to draw.
pub fn active_screen(app: &App) -> (screen: Screen)
    ensures
        screen == app@.screen(),
{
    if app.connected {
        Screen::Chat
    } else {
        Screen::Login
    }
}

/// Chooses the field in which the cursor is drawn, if in any.
pub fn cursor_field(app: &App) -> (field: Option<InputField>)
    ensures
        field == app@.cursor_field(),
{
    if app.input_mode == InputMode::Editing {
        let on_message = matches!(app.current_field, InputField::Message);
        if app.connected == on_message {
            return Some(app.current_field);
        }
    }
    None
}

/// Hides a secret: one asterisk for each byte of its encoding.
pub fn masked(secret: &str) -> (shown: String)
    ensures
        shown@ == mask(byte_len(secret@)),
{
    let len: usize = secret.as_bytes().len();
    let mut shown = String::new();
    let mut done: usize = 0;
    while done < len
        invariant
            done <= len,
            shown@ == mask(done as nat),
        decreases len - done,
    {
        shown.push('*');
        done = done + 1;
        assert(shown@ =~= mask(done as nat));
    }
    shown
}

/// The text drawn for a field: the password masked, any other field as it
/// stands.
pub fn field_display(app: &App, field: InputField) -> (shown: String)
    ensures
        field == InputField::Password ==> shown@ == mask(byte_len(app@.password)),
        field != InputField::Password ==> shown@ == app@.field_text(field),
{
    match field {
        InputField::Nickname => app.nickname.clone(),
        InputField::Hostname => app.hostname.clone(),
        InputField::Channel => app.channel.clone(),
        InputField::Password => masked(app.password.as_str()),
        InputField::Message => app.current_message.clone(),
    }
}

} // verus!
