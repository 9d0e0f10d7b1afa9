use envi::app::{Application, UserEvent};
use envi::event::{is_close_request, Key, WindowInput};

fn runtime() -> tokio::runtime::Runtime {
    tokio::runtime::Builder::new_current_thread().build().unwrap()
}

#[test]
fn close_request_closes() {
    assert!(is_close_request(&WindowInput::CloseRequested));
}

#[test]
fn escape_press_closes() {
    assert!(is_close_request(&WindowInput::Keyboard { pressed: true, key: Key::Escape }));
}

#[test]
fn escape_release_keeps_window() {
    assert!(!is_close_request(&WindowInput::Keyboard { pressed: false, key: Key::Escape }));
}

#[test]
fn other_key_keeps_window() {
    assert!(!is_close_request(&WindowInput::Keyboard { pressed: true, key: Key::Other }));
}

#[test]
fn other_event_keeps_window() {
    assert!(!is_close_request(&WindowInput::Other));
}

#[test]
fn new_application_is_empty() {
    let rt = runtime();
    let app: Application<'_, &str> = Application::new("Envi", &rt);
    assert_eq!(app.name(), "Envi");
    assert!(app.windows().is_empty());
    assert!(app.icon().is_none());
}

#[test]
fn closing_last_window_exits() {
    let rt = runtime();
    let mut app: Application<'_, &str> = Application::new("Envi", &rt);
    app.add_window(7, "first");
    app.add_window(9, "second");
    assert_eq!(app.windows().len(), 2);
    assert!(!app.close_window(7));
    assert_eq!(app.windows().len(), 1);
    assert_eq!(app.windows().get(&9), Some(&"second"));
    assert!(app.close_window(9));
    assert!(app.windows().is_empty());
}

#[test]
fn closing_unknown_window_keeps_others() {
    let rt = runtime();
    let mut app: Application<'_, &str> = Application::new("Envi", &rt);
    app.add_window(1, "only");
    assert!(!app.close_window(2));
    assert_eq!(app.windows().len(), 1);
}

#[test]
fn adding_same_id_replaces_window() {
    let rt = runtime();
    let mut app: Application<'_, &str> = Application::new("Envi", &rt);
    app.add_window(3, "old");
    app.add_window(3, "new");
    assert_eq!(app.windows().len(), 1);
    assert_eq!(app.windows().get(&3), Some(&"new"));
}

#[test]
fn escape_in_last_window_exits() {
    let rt = runtime();
    let mut app: Application<'_, u8> = Application::new("Envi", &rt);
    app.add_window(1, 10);
    app.add_window(2, 20);
    let escape = WindowInput::Keyboard { pressed: true, key: Key::Escape };
    assert!(!app.window_event(1, &escape));
    assert!(app.windows().get(&1).is_none());
    assert!(app.window_event(2, &WindowInput::CloseRequested));
    assert!(app.windows().is_empty());
}

#[test]
fn ignored_events_keep_windows() {
    let rt = runtime();
    let mut app: Application<'_, u8> = Application::new("Envi", &rt);
    app.add_window(1, 10);
    assert!(!app.window_event(1, &WindowInput::Other));
    let release = WindowInput::Keyboard { pressed: false, key: Key::Escape };
    assert!(!app.window_event(1, &release));
    let other = WindowInput::Keyboard { pressed: true, key: Key::Other };
    assert!(!app.window_event(1, &other));
    assert_eq!(app.windows().len(), 1);
}

#[test]
fn user_event_is_copy() {
    let e = UserEvent::Wake;
    let f = e;
    assert_eq!(e, f);
}
