use irc_tui::app::{App, InputField, InputMode};
use irc_tui::event_loop::{finish_connect, on_key_event, KeyEvent, KeyEventKind, LoopAction};
use irc_tui::input_handler::{handle_input, handle_normal_mode, InputAction, Key, Modifiers};
use irc_tui::irc_client::{connection_config, ConnectError};

fn pressed(code: Key) -> KeyEvent {
    KeyEvent { code, modifiers: Modifiers::none(), kind: KeyEventKind::Press }
}

fn interrupt() -> KeyEvent {
    KeyEvent { code: Key::Char('c'), modifiers: Modifiers::control(), kind: KeyEventKind::Press }
}

fn form_on_password() -> App {
    let mut app = App::default();
    app.nickname = String::from("nick");
    app.hostname = String::from("irc.example.org");
    app.channel = String::from("#test");
    for _ in 0..3 {
        assert_eq!(handle_input(Key::Tab, Modifiers::none(), &mut app), None);
    }
    app
}

#[test]
fn end_to_end_connect_succeeds() {
    let mut app = form_on_password();
    assert_eq!(app.current_field, InputField::Password);
    assert_eq!(app.password, "");
    assert_eq!(handle_input(Key::Char('e'), Modifiers::none(), &mut app), None);
    assert_eq!(
        handle_normal_mode(Key::Enter, Modifiers::none(), &mut app),
        Some(InputAction::TryConnect)
    );
    let config = connection_config(&app);
    assert_eq!(config.nickname.as_deref(), Some("nick"));
    assert_eq!(config.server.as_deref(), Some("irc.example.org"));
    assert_eq!(config.channels, vec![String::from("#test")]);
    assert_eq!(config.password.as_deref(), Some(""));
    finish_connect(&mut app, Ok(()));
    assert!(app.connected);
    assert_eq!(app.current_field, InputField::Message);
    assert_eq!(app.input_mode, InputMode::Editing);
    assert_eq!(app.messages, vec![String::from("Connected to server!")]);
    assert_eq!(app.nickname, "nick");
    assert_eq!(app.hostname, "irc.example.org");
    assert_eq!(app.channel, "#test");
    assert!(app.users.is_empty());
}

#[test]
fn end_to_end_connect_fails() {
    let mut app = form_on_password();
    assert_eq!(handle_input(Key::Char('e'), Modifiers::none(), &mut app), None);
    assert_eq!(
        handle_normal_mode(Key::Enter, Modifiers::none(), &mut app),
        Some(InputAction::TryConnect)
    );
    let before = app.clone();
    finish_connect(&mut app, Err(ConnectError { reason: String::from("an io error occurred") }));
    assert!(!app.connected);
    assert_eq!(app.messages, vec![String::from("Connection error: an io error occurred")]);
    assert!(app.messages[0].starts_with("Connection error: "));
    assert_eq!(app.current_field, before.current_field);
    assert_eq!(app.input_mode, before.input_mode);
    let mut expected = before.clone();
    expected.messages.push(String::from("Connection error: an io error occurred"));
    assert_eq!(app, expected);
}

#[test]
fn a_failed_attempt_can_be_tried_again() {
    let mut app = form_on_password();
    app.input_mode = InputMode::Editing;
    finish_connect(&mut app, Err(ConnectError { reason: String::from("first") }));
    assert_eq!(
        handle_normal_mode(Key::Enter, Modifiers::none(), &mut app),
        Some(InputAction::TryConnect)
    );
    finish_connect(&mut app, Err(ConnectError { reason: String::new() }));
    finish_connect(&mut app, Ok(()));
    assert_eq!(
        app.messages,
        vec![
            String::from("Connection error: first"),
            String::from("Connection error: "),
            String::from("Connected to server!"),
        ]
    );
    assert!(app.connected);
}

#[test]
fn the_loop_never_connects_on_a_dispatched_key() {
    let mut app = form_on_password();
    assert_eq!(on_key_event(pressed(Key::Enter), &mut app), LoopAction::Continue);
    assert_eq!(on_key_event(pressed(Key::Char('e')), &mut app), LoopAction::Continue);
    assert_eq!(on_key_event(pressed(Key::Enter), &mut app), LoopAction::Continue);
    assert!(!app.connected);
    assert!(app.messages.is_empty());
}

#[test]
fn only_presses_are_acted_upon() {
    for kind in [KeyEventKind::Release, KeyEventKind::Repeat] {
        for code in [Key::Char('q'), Key::Char('e'), Key::Tab, Key::Enter, Key::Char('c')] {
            let mut app = App::default();
            let event = KeyEvent { code, modifiers: Modifiers::control(), kind };
            assert_eq!(on_key_event(event, &mut app), LoopAction::Continue);
            assert_eq!(app, App::default());
        }
    }
}

#[test]
fn control_c_leaves_the_loop_in_every_mode() {
    let mut app = App::default();
    assert_eq!(on_key_event(interrupt(), &mut app), LoopAction::Quit);
    assert_eq!(app, App::default());
    app.input_mode = InputMode::Editing;
    let before = app.clone();
    assert_eq!(on_key_event(interrupt(), &mut app), LoopAction::Quit);
    assert_eq!(app, before);
}

#[test]
fn q_leaves_the_loop_in_normal_mode_only() {
    let mut app = App::default();
    assert_eq!(on_key_event(pressed(Key::Char('q')), &mut app), LoopAction::Quit);
    app.input_mode = InputMode::Editing;
    assert_eq!(on_key_event(pressed(Key::Char('q')), &mut app), LoopAction::Continue);
    assert_eq!(app.nickname, "q");
}

#[test]
fn the_loop_hands_presses_to_the_state_machine() {
    let mut app = App::default();
    assert_eq!(on_key_event(pressed(Key::Tab), &mut app), LoopAction::Continue);
    assert_eq!(app.current_field, InputField::Hostname);
    assert_eq!(on_key_event(pressed(Key::Char('e')), &mut app), LoopAction::Continue);
    assert_eq!(on_key_event(pressed(Key::Char('h')), &mut app), LoopAction::Continue);
    assert_eq!(app.hostname, "h");
    assert_eq!(on_key_event(pressed(Key::Backspace), &mut app), LoopAction::Continue);
    assert_eq!(app.hostname, "");
    assert_eq!(on_key_event(pressed(Key::Esc), &mut app), LoopAction::Continue);
    assert_eq!(app.input_mode, InputMode::Normal);
}

#[test]
fn a_session_is_chatted_in() {
    let mut app = form_on_password();
    finish_connect(&mut app, Ok(()));
    for c in "hi".chars() {
        assert_eq!(on_key_event(pressed(Key::Char(c)), &mut app), LoopAction::Continue);
    }
    assert_eq!(app.current_message, "hi");
    assert_eq!(on_key_event(pressed(Key::Enter), &mut app), LoopAction::Continue);
    assert_eq!(
        app.messages,
        vec![String::from("Connected to server!"), String::from("<nick> hi")]
    );
    assert_eq!(app.current_message, "");
    assert_eq!(on_key_event(pressed(Key::Enter), &mut app), LoopAction::Continue);
    assert_eq!(app.messages.len(), 2);
    assert_eq!(on_key_event(pressed(Key::Esc), &mut app), LoopAction::Continue);
    assert_eq!(on_key_event(pressed(Key::Tab), &mut app), LoopAction::Continue);
    assert_eq!(app.current_field, InputField::Message);
    assert_eq!(app.nickname, "nick");
}
