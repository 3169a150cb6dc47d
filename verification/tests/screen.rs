use irc_tui::app::{App, InputField, InputMode};
use irc_tui::screen::{active_screen, cursor_field, field_display, masked, Screen};

#[test]
fn the_login_form_is_up_until_a_session_is_established() {
    let mut app = App::default();
    assert_eq!(active_screen(&app), Screen::Login);
    app.connected = true;
    app.current_field = InputField::Message;
    assert_eq!(active_screen(&app), Screen::Chat);
}

#[test]
fn the_cursor_shows_only_while_editing() {
    let mut app = App::default();
    assert_eq!(cursor_field(&app), None);
    app.input_mode = InputMode::Editing;
    for field in [
        InputField::Nickname,
        InputField::Hostname,
        InputField::Channel,
        InputField::Password,
    ] {
        app.current_field = field;
        assert_eq!(cursor_field(&app), Some(field));
    }
    app.current_field = InputField::Message;
    assert_eq!(cursor_field(&app), None);
}

#[test]
fn the_cursor_stands_in_the_message_buffer_of_the_chat() {
    let mut app = App::default();
    app.connected = true;
    app.current_field = InputField::Message;
    assert_eq!(cursor_field(&app), None);
    app.input_mode = InputMode::Editing;
    assert_eq!(cursor_field(&app), Some(InputField::Message));
    app.current_field = InputField::Password;
    assert_eq!(cursor_field(&app), None);
}

#[test]
fn a_secret_is_masked_byte_for_byte() {
    assert_eq!(masked(""), "");
    assert_eq!(masked("secret"), "******");
    assert_eq!(masked("é"), "**");
    assert_eq!(masked("日本"), "******");
}

#[test]
fn fields_are_shown_as_they_stand_but_for_the_password() {
    let mut app = App::default();
    app.nickname = String::from("nick");
    app.hostname = String::from("irc.example.org");
    app.channel = String::from("#test");
    app.password = String::from("pass");
    app.current_message = String::from("hello");
    assert_eq!(field_display(&app, InputField::Nickname), "nick");
    assert_eq!(field_display(&app, InputField::Hostname), "irc.example.org");
    assert_eq!(field_display(&app, InputField::Channel), "#test");
    assert_eq!(field_display(&app, InputField::Password), "****");
    assert_eq!(field_display(&app, InputField::Message), "hello");
}
