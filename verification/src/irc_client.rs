//! The connection session: the settings a session is opened with, and how
//! the events that arrive from the server are folded into the session state.

use crate::app::{App, SessionState};
use crate::text::{chat_line, format_chat_line, lemma_texts_push, split_whitespace, texts, words};
use irc::proto::Prefix;
use vstd::prelude::*;

verus! {

/// The number of outgoing lines that may wait to be sent.
pub const OUTGOING_QUEUE_CAPACITY: usize = 100;

/// The place of the member list among the arguments of a names reply.
pub const NAMES_REPLY_MEMBERS: usize = 3;

/// What a session is opened with.
#[derive(Clone, Debug, PartialEq, Eq)]
pub struct ConnectionConfig {
    pub nickname: Option<String>,
    pub server: Option<String>,
    pub channels: Vec<String>,
    pub password: Option<String>,
}

impl ConnectionConfig {
    /// The settings are those of the login form: its nickname, its hostname
    /// as the server, its channel as the only channel, and its password,
    /// given even where it is empty.
    pub open spec fn matches_login(self, state: SessionState) -> bool {
        &&& self.nickname matches Some(nickname) && nickname@ == state.nickname
        &&& self.server matches Some(server) && server@ == state.hostname
        &&& self.channels@.len() == 1 && self.channels@[0]@ == state.channel
        &&& self.password matches Some(password) && password@ == state.password
    }
}

/// Why a session could not be established.
#[derive(Clone, Debug, PartialEq, Eq)]
pub struct ConnectError {
    pub reason: String,
}

/// The true origin of a message, according to the server.
#[derive(Clone, Debug, PartialEq, Eq)]
pub enum Origin {
    /// A server, by name.
    ServerName(String),
    /// A user: nickname, username and hostname, any of which may be empty.
    Nickname(String, String, String),
}

impl Origin {
    /// The origin as the server writes it: a server's name as it is; a
    /// nickname followed by `!` and the username where there is one, and by
    /// `@` and the hostname where there is one.
    pub open spec fn text(self) -> Seq<char> {
        match self {
            Origin::ServerName(name) => name@,
            Origin::Nickname(name, user, host) => if user@.len() == 0 && host@.len() == 0 {
                name@
            } else if host@.len() == 0 {
                name@ + seq!['!'] + user@
            } else if user@.len() == 0 {
                name@ + seq!['@'] + host@
            } else {
                name@ + seq!['!'] + user@ + seq!['@'] + host@
            },
        }
    }
}

/// The sender shown for a message: its origin as text, or nothing where the
/// message names no origin.
pub open spec fn sender_text(sender: Option<Origin>) -> Seq<char> {
    match sender {
        Some(origin) => origin.text(),
        None => Seq::empty(),
    }
}

/// An event that arrives from the server.
#[derive(Clone, Debug, PartialEq, Eq)]
pub enum ProtocolEvent {
    /// A message sent to a channel.
    ChannelMessage { channel: String, sender: Option<Origin>, content: String },
    /// The list of a channel's participants.
    RosterSnapshot { members: Vec<String> },
    /// Anything else.
    Other,
}

impl SessionState {
    /// The state after an event from the server: a message to the
    /// configured channel joins the transcript, a roster snapshot replaces
    /// the roster, and nothing else has any effect.
    pub open spec fn after_event(self, event: ProtocolEvent) -> SessionState {
        match event {
            ProtocolEvent::ChannelMessage { channel, sender, content } => if channel@
                == self.channel {
                SessionState {
                    messages: self.messages.push(chat_line(sender_text(sender), content@)),
                    ..self
                }
            } else {
                self
            },
            ProtocolEvent::RosterSnapshot { members } => SessionState {
                users: texts(members@),
                ..self
            },
            ProtocolEvent::Other => self,
        }
    }
}

/// Renders an origin with the `Display` of `irc::proto::Prefix`, which
/// writes a server's name as it is and a nickname followed by `!username`
/// and `@hostname`, each left out where it is empty.
#[verifier::external_body]
fn origin_text(origin: &Origin) -> (text: String)
    ensures
        text@ == origin.text(),
{
    let prefix = match origin {
        Origin::ServerName(name) => Prefix::ServerName(name.clone()),
        Origin::Nickname(name, user, host) => Prefix::Nickname(
            name.clone(),
            user.clone(),
            host.clone(),
        ),
    };
    prefix.to_string()
}

/// The settings to open a session with, taken from the login form.
pub fn connection_config(app: &App) -> (config: ConnectionConfig)
    ensures
        config.matches_login(app@),
{
    let mut channels: Vec<String> = Vec::new();
    channels.push(app.channel.clone());
    ConnectionConfig {
        nickname: Some(app.nickname.clone()),
        server: Some(app.hostname.clone()),
        channels,
        password: Some(app.password.clone()),
    }
}

/// Reads a names reply: its fourth argument is the member list, names
/// separated by whitespace. A reply with fewer arguments tells nothing.
pub fn roster_event(params: &Vec<String>) -> (event: ProtocolEvent)
    ensures
        params@.len() > NAMES_REPLY_MEMBERS ==> (event matches ProtocolEvent::RosterSnapshot {
            members,
        } && texts(members@) == words(params@[NAMES_REPLY_MEMBERS as int]@)),
        params@.len() <= NAMES_REPLY_MEMBERS ==> event is Other,
{
    if params.len() > NAMES_REPLY_MEMBERS {
        ProtocolEvent::RosterSnapshot {
            members: split_whitespace(params[NAMES_REPLY_MEMBERS].as_str()),
        }
    } else {
        ProtocolEvent::Other
    }
}

/// Folds an event from the server into the session state.
pub fn apply_event(app: &mut App, event: ProtocolEvent)
    ensures
        final(app)@ == old(app)@.after_event(event),
        old(app)@.wf() ==> final(app)@.wf(),
{
    match event {
        ProtocolEvent::ChannelMessage { channel, sender, content } => {
            if channel == app.channel {
                let name = match sender {
                    Some(origin) => origin_text(&origin),
                    None => String::new(),
                };
                let line = format_chat_line(name.as_str(), content.as_str());
                proof {
                    lemma_texts_push(app.messages@, line);
                }
                app.messages.push(line);
            }
        },
        ProtocolEvent::RosterSnapshot { members } => {
            app.users = members;
        },
        ProtocolEvent::Other => {},
    }
}

/// A roster snapshot replaces the roster with its member list as it
/// stands, in order and with its duplicates, whatever the roster held
/// before; nothing else changes.
pub proof fn lemma_roster_is_replaced(s: SessionState, members: Vec<String>)
    ensures
        s.after_event(ProtocolEvent::RosterSnapshot { members }) == (SessionState {
            users: texts(members@),
            ..s
        }),
{
}

/// A channel message adds one line to the transcript where it is addressed
/// to the configured channel, and is dropped otherwise.
pub proof fn lemma_channel_message_is_filtered(
    s: SessionState,
    channel: String,
    sender: Option<Origin>,
    content: String,
)
    ensures
        channel@ == s.channel ==> s.after_event(
            ProtocolEvent::ChannelMessage { channel, sender, content },
        ).messages == s.messages.push(chat_line(sender_text(sender), content@)),
        channel@ != s.channel ==> s.after_event(
            ProtocolEvent::ChannelMessage { channel, sender, content },
        ) == s,
{
}

/// No event from the server breaks the tie between focus and connection
/// status or shortens or rewrites the transcript; the form, the focus, the
/// mode, the message buffer and the connection status are out of its reach.
pub proof fn lemma_event_keeps_invariants(s: SessionState, event: ProtocolEvent)
    ensures
        s.wf() ==> s.after_event(event).wf(),
        s.messages.is_prefix_of(s.after_event(event).messages),
        s.after_event(event) == (SessionState {
            messages: s.after_event(event).messages,
            users: s.after_event(event).users,
            ..s
        }),
{
}

} // verus!
