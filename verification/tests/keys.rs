use ats::app::{Action, App, InputMode};
use ats::keys::{KeyCode, KeyEvent, KeyModifiers};
use ats::services::ecr::ECRService;

#[test]
fn modifier_bits() {
    assert_eq!(KeyModifiers::from_bits(0), KeyModifiers::Plain);
    assert_eq!(KeyModifiers::from_bits(2), KeyModifiers::Control);
    assert_eq!(KeyModifiers::from_bits(1), KeyModifiers::Other);
    assert_eq!(KeyModifiers::from_bits(3), KeyModifiers::Other);
    assert_eq!(KeyModifiers::from_bits(4), KeyModifiers::Other);
    assert_eq!(KeyModifiers::from_bits(255), KeyModifiers::Other);
}

#[test]
fn key_event_keeps_code_and_modifiers() {
    let key = KeyEvent::new(KeyCode::Char('x'), KeyModifiers::Control);
    assert_eq!(key.code, KeyCode::Char('x'));
    assert_eq!(key.modifiers, KeyModifiers::Control);
}

#[test]
fn default_session_starts_its_clock_at_zero() {
    let app: App<ECRService> = App::default();
    assert!(app.running);
    assert_eq!(app.input_mode, InputMode::Normal);
    assert_eq!(app.last_refresh, 0);
    assert_eq!(app.aws_profile, "default");
    assert_eq!(app.aws_region, "us-east-1");
    assert!(app.service_manager.list_services().is_empty());
}

#[test]
fn keys_without_meaning_change_nothing() {
    let mut app: App<ECRService> = App::new(0);
    for code in [KeyCode::Other, KeyCode::Backspace, KeyCode::Char('x'), KeyCode::Char('C')] {
        let action = app.handle_key_event(KeyEvent::new(code, KeyModifiers::Plain), 9);
        assert!(matches!(action, Action::Nothing));
        assert!(app.running);
        assert!(!app.loading);
        assert_eq!(app.input_mode, InputMode::Normal);
        assert_eq!(app.input_buffer, "");
        assert_eq!(app.last_refresh, 0);
    }
    app.handle_key_event(KeyEvent::new(KeyCode::Enter, KeyModifiers::Other), 9);
    app.handle_key_event(KeyEvent::new(KeyCode::Esc, KeyModifiers::Control), 9);
    assert!(!app.loading);
    app.handle_key_event(KeyEvent::new(KeyCode::Char(':'), KeyModifiers::Other), 9);
    assert_eq!(app.input_mode, InputMode::Normal);
}

#[test]
fn refresh_keys_request_a_reload() {
    let mut app: App<ECRService> = App::new(0);
    app.handle_key_event(KeyEvent::new(KeyCode::Char('r'), KeyModifiers::Plain), 11);
    assert!(app.loading);
    assert_eq!(app.last_refresh, 11);
    app.finish_loading();
    app.handle_key_event(KeyEvent::new(KeyCode::Char('r'), KeyModifiers::Control), 12);
    assert!(app.loading);
    assert_eq!(app.last_refresh, 12);
    app.finish_loading();
    app.handle_key_event(KeyEvent::new(KeyCode::Char('r'), KeyModifiers::Other), 13);
    assert!(!app.loading);
}

#[test]
fn input_modes_ignore_modifiers() {
    let mut app: App<ECRService> = App::new(0);
    app.handle_key_event(KeyEvent::new(KeyCode::Char(':'), KeyModifiers::Plain), 0);
    app.handle_key_event(KeyEvent::new(KeyCode::Char('q'), KeyModifiers::Control), 0);
    assert_eq!(app.input_buffer, "q");
    assert!(app.running);
    app.handle_key_event(KeyEvent::new(KeyCode::Up, KeyModifiers::Plain), 0);
    assert_eq!(app.input_buffer, "q");
    app.handle_key_event(KeyEvent::new(KeyCode::Enter, KeyModifiers::Other), 0);
    assert!(!app.running);
}
