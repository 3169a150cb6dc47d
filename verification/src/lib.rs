//! Session state and input handling for a terminal chat client.

pub mod app;
pub mod event_loop;
pub mod input_handler;
pub mod irc_client;
pub mod screen;
pub mod text;
