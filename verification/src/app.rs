//! The session state: login fields, connection status, transcript and roster.

use crate::text::texts;
use vstd::prelude::*;

verus! {

/// How keystrokes are interpreted.
#[derive(Clone, Copy, Debug, PartialEq, Eq, Structural)]
pub enum InputMode {
    /// Keys are commands.
    Normal,
    /// Keys are text.
    Editing,
}

/// The text buffer that receives keystrokes.
#[derive(Clone, Copy, Debug, PartialEq, Eq, Structural)]
pub enum InputField {
    Nickname,
    Hostname,
    Channel,
    Password,
    Message,
}

impl InputField {
    /// Whether this is one of the four fields of the login form.
    pub open spec fn is_login_field(self) -> bool {
        self != InputField::Message
    }

    /// The field that Tab moves to: the login fields follow one another in
    /// a ring, and the message buffer stays where it is.
    pub open spec fn next(self) -> InputField {
        match self {
            InputField::Nickname => InputField::Hostname,
            InputField::Hostname => InputField::Channel,
            InputField::Channel => InputField::Password,
            InputField::Password => InputField::Nickname,
            InputField::Message => InputField::Message,
        }
    }

    /// The place of a login field in the ring, counted from `Nickname`.
    pub open spec fn position(self) -> nat
        recommends
            self.is_login_field(),
    {
        match self {
            InputField::Nickname => 0,
            InputField::Hostname => 1,
            InputField::Channel => 2,
            InputField::Password => 3,
            InputField::Message => 0,
        }
    }

    /// The login field at a place in the ring.
    pub open spec fn at(position: nat) -> InputField {
        if position % 4 == 0 {
            InputField::Nickname
        } else if position % 4 == 1 {
            InputField::Hostname
        } else if position % 4 == 2 {
            InputField::Channel
        } else {
            InputField::Password
        }
    }
}

/// The session state as a mathematical value: every text is a sequence of
/// characters, the transcript and the roster are sequences of texts.
pub ghost struct SessionState {
    pub nickname: Seq<char>,
    pub hostname: Seq<char>,
    pub channel: Seq<char>,
    pub password: Seq<char>,
    pub current_field: InputField,
    pub input_mode: InputMode,
    pub messages: Seq<Seq<char>>,
    pub current_message: Seq<char>,
    pub connected: bool,
    pub users: Seq<Seq<char>>,
}

/// The single mutable record of a run.
#[derive(Clone, Debug, PartialEq, Eq)]
pub struct App {
    pub nickname: String,
    pub hostname: String,
    pub channel: String,
    pub password: String,
    pub current_field: InputField,
    pub input_mode: InputMode,
    pub messages: Vec<String>,
    pub current_message: String,
    pub connected: bool,
    pub users: Vec<String>,
}

impl View for App {
    type V = SessionState;

    open spec fn view(&self) -> SessionState {
        SessionState {
            nickname: self.nickname@,
            hostname: self.hostname@,
            channel: self.channel@,
            password: self.password@,
            current_field: self.current_field,
            input_mode: self.input_mode,
            messages: texts(self.messages@),
            current_message: self.current_message@,
            connected: self.connected,
            users: texts(self.users@),
        }
    }
}

impl SessionState {
    /// The state at process start.
    pub open spec fn initial() -> SessionState {
        SessionState {
            nickname: Seq::empty(),
            hostname: Seq::empty(),
            channel: Seq::empty(),
            password: Seq::empty(),
            current_field: InputField::Nickname,
            input_mode: InputMode::Normal,
            messages: Seq::empty(),
            current_message: Seq::empty(),
            connected: false,
            users: Seq::empty(),
        }
    }

    /// The focus matches the connection status: the message buffer exactly
    /// when a session is established, a login field otherwise.
    pub open spec fn wf(self) -> bool {
        self.connected <==> self.current_field == InputField::Message
    }

    /// The text that a field names.
    pub open spec fn field_text(self, field: InputField) -> Seq<char> {
        match field {
            InputField::Nickname => self.nickname,
            InputField::Hostname => self.hostname,
            InputField::Channel => self.channel,
            InputField::Password => self.password,
            InputField::Message => self.current_message,
        }
    }

    /// This state with the text of one field replaced.
    pub open spec fn with_field_text(self, field: InputField, text: Seq<char>) -> SessionState {
        match field {
            InputField::Nickname => SessionState { nickname: text, ..self },
            InputField::Hostname => SessionState { hostname: text, ..self },
            InputField::Channel => SessionState { channel: text, ..self },
            InputField::Password => SessionState { password: text, ..self },
            InputField::Message => SessionState { current_message: text, ..self },
        }
    }
}

impl Default for App {
    fn default() -> (app: App)
        ensures
            app@ == SessionState::initial(),
            app@.wf(),
    {
        let app = App {
            nickname: String::new(),
            hostname: String::new(),
            channel: String::new(),
            password: String::new(),
            current_field: InputField::Nickname,
            input_mode: InputMode::Normal,
            messages: Vec::new(),
            current_message: String::new(),
            connected: false,
            users: Vec::new(),
        };
        assert(texts(app.messages@) =~= Seq::empty());
        assert(texts(app.users@) =~= Seq::empty());
        app
    }
}

} // verus!
