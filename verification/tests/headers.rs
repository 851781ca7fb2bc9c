use std::collections::HashMap;

use fetched::app::App;
use fetched::enums::{InputMode, WindowOperation};
use fetched::protocol::{Command, KeyCode, KeyEvent, Pending, Reply};
use fetched::request::{
    buffer_field, request_widget_edit_headers_enter_event, RequestOptions, RequestStructure,
    StringMap,
};
use fetched::theme::Config;

fn press(code: KeyCode) -> KeyEvent {
    KeyEvent { code, control: false, pressed: true }
}

fn key(c: char) -> KeyEvent {
    press(KeyCode::Char(c))
}

fn names(list: &[&str]) -> Vec<String> {
    list.iter().map(|name| name.to_string()).collect()
}

fn loaded() -> RequestStructure {
    let mut document = RequestStructure::default();
    document.method = String::from("GET");
    document.url = String::from("https://example.com/login");
    document.headers = document.headers.insert(String::from("Accept"), String::from("*/*"));
    document
}

/// An application that edits the headers of "login.json" in "users".
fn editing() -> App {
    let mut app = App::new(Config::default(), names(&["users", "orders"]));
    app.handle_key(key('l'));
    app.resume(Reply::Listing(names(&["login.json", "signup.json"])));
    app.resume(Reply::Document(loaded()));
    app.handle_key(key('2'));
    app.handle_key(key('i'));
    assert_eq!(app.input_mode, InputMode::Insert);
    assert!(matches!(app.current_operation, WindowOperation::Edit));
    app
}

fn buffer(fields: &[(u8, &str)]) -> HashMap<u8, String> {
    fields.iter().map(|(field, text)| (*field, text.to_string())).collect()
}

#[test]
fn string_map_starts_empty() {
    let map = StringMap::new();
    assert_eq!(map.len(), 0);
    assert!(!map.contains_key("Accept"));
    assert_eq!(map.get("Accept"), None);
    assert_eq!(StringMap::default().len(), 0);
}

#[test]
fn string_map_inserts_and_overwrites() {
    let map = StringMap::new()
        .insert(String::from("Accept"), String::from("*/*"))
        .insert(String::from("Host"), String::from("example.com"))
        .insert(String::from("Accept"), String::from("text/plain"));
    assert_eq!(map.len(), 2);
    assert_eq!(map.get("Accept"), Some(&String::from("text/plain")));
    assert_eq!(map.get("Host"), Some(&String::from("example.com")));
    assert_eq!(map.get("accept"), None);
    assert!(map.contains_key("Host"));
    assert_eq!(map.name_at(0), "Accept");
    assert_eq!(map.value_at(0), "text/plain");
    assert_eq!(map.name_at(1), "Host");
    assert_eq!(map.value_at(1), "example.com");
}

#[test]
fn string_map_clone_holds_the_same_pairs() {
    let map = StringMap::new().insert(String::from("a"), String::from("1"));
    let copy = map.clone().insert(String::from("b"), String::from("2"));
    assert_eq!(map.len(), 1);
    assert_eq!(copy.len(), 2);
    assert_eq!(copy.get("a"), Some(&String::from("1")));
}

#[test]
fn default_document_is_empty() {
    let document = RequestStructure::default();
    assert_eq!(document.method, "");
    assert_eq!(document.url, "");
    assert_eq!(document.headers.len(), 0);
    assert_eq!(document.query_parameters.len(), 0);
    assert_eq!(document.body_type, "");
    assert_eq!(document.body, "");
    let options = RequestOptions::default();
    assert!(!options.validate_ssl && !options.follow_redirect && !options.attach_cookies);
    assert_eq!(options.proxy, "");
    assert_eq!(options.timeout, 0);
}

#[test]
fn template_is_a_post_without_headers() {
    let document = RequestStructure::template();
    assert_eq!(document.method, "POST");
    assert_eq!(document.headers.len(), 0);
    assert_eq!(document.query_parameters.len(), 0);
}

#[test]
fn document_clone_holds_the_same() {
    let document = loaded();
    let copy = document.clone();
    assert_eq!(copy.method, "GET");
    assert_eq!(copy.url, "https://example.com/login");
    assert_eq!(copy.headers.get("Accept"), Some(&String::from("*/*")));
}

#[test]
fn buffer_field_is_empty_where_nothing_was_typed() {
    let fields = buffer(&[(0, "Content-Type")]);
    assert_eq!(buffer_field(&fields, 0), "Content-Type");
    assert_eq!(buffer_field(&fields, 1), "");
}

#[test]
fn committing_merges_the_header_into_the_document() {
    let fields = buffer(&[(0, "Content-Type"), (1, "application/json")]);
    let merged = request_widget_edit_headers_enter_event(&fields, &loaded()).unwrap();
    assert_eq!(merged.headers.len(), 2);
    assert_eq!(merged.headers.get("Content-Type"), Some(&String::from("application/json")));
    assert_eq!(merged.headers.get("Accept"), Some(&String::from("*/*")));
    assert_eq!(merged.method, "GET");
    assert_eq!(merged.url, "https://example.com/login");
}

#[test]
fn committing_overwrites_a_header_of_the_same_name() {
    let fields = buffer(&[(0, "Accept"), (1, "text/html")]);
    let merged = request_widget_edit_headers_enter_event(&fields, &loaded()).unwrap();
    assert_eq!(merged.headers.len(), 1);
    assert_eq!(merged.headers.get("Accept"), Some(&String::from("text/html")));
}

#[test]
fn committing_without_a_value_sets_an_empty_one() {
    let fields = buffer(&[(0, "X-Empty")]);
    let merged = request_widget_edit_headers_enter_event(&fields, &loaded()).unwrap();
    assert_eq!(merged.headers.get("X-Empty"), Some(&String::new()));
}

#[test]
fn committing_without_a_name_does_nothing() {
    assert!(request_widget_edit_headers_enter_event(&buffer(&[]), &loaded()).is_none());
    assert!(request_widget_edit_headers_enter_event(&buffer(&[(1, "v")]), &loaded()).is_none());
    assert!(
        request_widget_edit_headers_enter_event(&buffer(&[(0, ""), (1, "v")]), &loaded()).is_none()
    );
}

#[test]
fn enter_on_the_add_button_saves_and_reloads() {
    let mut app = editing();
    app.input_buffer = buffer(&[(0, "Content-Type"), (1, "application/json")]);
    app.sub_focus_element = 2;
    let command = app.handle_key(press(KeyCode::Enter));
    let written = match command {
        Command::SaveRequest { collection, request, document } => {
            assert_eq!(collection, "users");
            assert_eq!(request, "login.json");
            assert_eq!(
                document.headers.get("Content-Type"),
                Some(&String::from("application/json"))
            );
            assert_eq!(document.headers.get("Accept"), Some(&String::from("*/*")));
            assert_eq!(document.url, "https://example.com/login");
            document
        }
        other => panic!("unexpected command {:?}", other),
    };
    assert!(matches!(app.pending, Pending::SaveDocument));
    assert_eq!(app.request_data.headers.len(), 1);

    let command = app.resume(Reply::Done);
    match command {
        Command::LoadRequest { collection, request } => {
            assert_eq!(collection, "users");
            assert_eq!(request, "login.json");
        }
        other => panic!("unexpected command {:?}", other),
    }
    let command = app.resume(Reply::Document(written));
    assert!(matches!(command, Command::Continue));
    assert!(app.is_idle());
    assert_eq!(
        app.request_data.headers.get("Content-Type"),
        Some(&String::from("application/json"))
    );
    assert_eq!(app.request_data.headers.len(), 2);
    assert!(app.input_buffer.is_empty());
    assert!(matches!(app.current_operation, WindowOperation::Null));
}

#[test]
fn typed_header_is_committed() {
    let mut app = editing();
    for c in "Accept".chars() {
        app.handle_key(key(c));
    }
    app.handle_key(press(KeyCode::Tab));
    for c in "text/plain".chars() {
        app.handle_key(key(c));
    }
    app.handle_key(press(KeyCode::Tab));
    assert_eq!(app.sub_focus_element, 2);
    let command = app.handle_key(press(KeyCode::Enter));
    match command {
        Command::SaveRequest { document, .. } => {
            assert_eq!(document.headers.len(), 1);
            assert_eq!(document.headers.get("Accept"), Some(&String::from("text/plain")));
        }
        other => panic!("unexpected command {:?}", other),
    }
}

#[test]
fn enter_on_another_field_does_nothing() {
    let mut app = editing();
    app.input_buffer = buffer(&[(0, "Content-Type"), (1, "application/json")]);
    for field in [0u8, 1u8] {
        app.sub_focus_element = field;
        let command = app.handle_key(press(KeyCode::Enter));
        assert!(matches!(command, Command::Continue));
        assert!(app.is_idle());
        assert_eq!(app.input_buffer.len(), 2);
    }
}

#[test]
fn enter_on_another_tab_does_nothing() {
    let mut app = editing();
    app.input_buffer = buffer(&[(0, "Content-Type"), (1, "application/json")]);
    app.sub_focus_element = 2;
    app.selected_tab = 1;
    let command = app.handle_key(press(KeyCode::Enter));
    assert!(matches!(command, Command::Continue));
    assert!(app.is_idle());
}

#[test]
fn enter_without_a_header_name_does_nothing() {
    let mut app = editing();
    app.input_buffer = buffer(&[(1, "application/json")]);
    app.sub_focus_element = 2;
    let command = app.handle_key(press(KeyCode::Enter));
    assert!(matches!(command, Command::Continue));
    assert!(app.is_idle());
    assert_eq!(app.request_data.headers.len(), 1);
}

#[test]
fn a_failed_write_is_reported() {
    let mut app = editing();
    app.input_buffer = buffer(&[(0, "Content-Type"), (1, "application/json")]);
    app.sub_focus_element = 2;
    app.handle_key(press(KeyCode::Enter));
    let command = app.resume(Reply::Failed(String::from("disk full")));
    assert!(matches!(command, Command::Continue));
    assert!(app.is_idle());
    assert!(app.is_show_popup);
    assert_eq!(app.popup_msg, "disk full");
    assert_eq!(app.request_data.headers.len(), 1);
}
