use fetched::app::App;
use fetched::enums::{FocusedWindow, InputMode, InputStrategy, WindowOperation};
use fetched::handler::event_handler;
use fetched::protocol::{Command, KeyCode, KeyEvent, Pending, Reply};
use fetched::request::RequestStructure;
use fetched::theme::Config;

fn press(code: KeyCode) -> KeyEvent {
    KeyEvent { code, control: false, pressed: true }
}

fn key(c: char) -> KeyEvent {
    press(KeyCode::Char(c))
}

fn names(list: &[&str]) -> Vec<String> {
    list.iter().map(|name| name.to_string()).collect()
}

fn app_with(list: &[&str]) -> App {
    App::new(Config::default(), names(list))
}

fn entered(requests: &[&str]) -> App {
    let mut app = app_with(&["users", "orders"]);
    app.handle_key(key('l'));
    let command = app.resume(Reply::Listing(names(requests)));
    if let Command::LoadRequest { .. } = command {
        app.resume(Reply::Document(RequestStructure::default()));
    }
    assert!(app.is_idle());
    app
}

fn type_text(app: &mut App, text: &str) {
    for c in text.chars() {
        app.handle_key(key(c));
    }
}

#[test]
fn quit_command_leaves_the_program_once() {
    let mut app = app_with(&["users"]);
    let mut exits = 0;
    for event in [key(':'), key('q'), press(KeyCode::Enter)] {
        assert_eq!(exits, 0);
        if let Command::Exit = app.handle_key(event) {
            exits += 1;
        }
    }
    assert_eq!(exits, 1);
    assert_eq!(app.input, "");
    assert_eq!(app.character_index, 0);
    assert_eq!(app.input_mode, InputMode::Normal);
}

#[test]
fn quit_command_may_carry_arguments() {
    let mut app = app_with(&["users"]);
    app.handle_key(key(':'));
    type_text(&mut app, "q now");
    let command = app.handle_key(press(KeyCode::Enter));
    assert!(matches!(command, Command::Exit));
}

#[test]
fn unknown_command_is_reported() {
    let mut app = app_with(&["users"]);
    app.handle_key(key(':'));
    type_text(&mut app, "quit");
    let command = app.handle_key(press(KeyCode::Enter));
    assert!(matches!(command, Command::Continue));
    assert!(app.is_show_popup);
    assert_eq!(app.popup_msg, "Command not found");
    assert_eq!(app.input, "");
    assert_eq!(app.character_index, 0);
    assert_eq!(app.input_mode, InputMode::Normal);
    app.handle_key(press(KeyCode::Esc));
    assert!(!app.is_show_popup);
}

#[test]
fn command_with_a_leading_space_is_not_found() {
    let mut app = app_with(&["users"]);
    app.handle_key(key(':'));
    type_text(&mut app, " q");
    let command = app.handle_key(press(KeyCode::Enter));
    assert!(matches!(command, Command::Continue));
    assert_eq!(app.popup_msg, "Command not found");
}

#[test]
fn empty_command_is_not_found() {
    let mut app = app_with(&["users"]);
    app.handle_key(key(':'));
    let command = app.handle_key(press(KeyCode::Enter));
    assert!(matches!(command, Command::Continue));
    assert!(app.is_show_popup);
}

#[test]
fn search_is_submitted_like_a_command() {
    let mut app = app_with(&["users"]);
    let mut exits = 0;
    for event in [key('/'), key('q'), press(KeyCode::Enter)] {
        assert_eq!(exits, 0);
        if let Command::Exit = app.handle_key(event) {
            exits += 1;
        }
    }
    assert_eq!(exits, 1);
    assert!(!app.is_show_popup);
    assert_eq!(app.input, "");
    assert_eq!(app.character_index, 0);
    assert_eq!(app.input_mode, InputMode::Normal);
    assert_eq!(app.collections, names(&["users"]));
}

#[test]
fn unknown_search_is_reported() {
    let mut app = app_with(&["users"]);
    app.handle_key(key('/'));
    assert_eq!(app.input_strategy, InputStrategy::Search);
    type_text(&mut app, "zz top");
    let command = app.handle_key(press(KeyCode::Enter));
    assert!(matches!(command, Command::Continue));
    assert!(app.is_show_popup);
    assert_eq!(app.popup_msg, "Command not found");
    assert_eq!(app.input, "");
    assert_eq!(app.character_index, 0);
    assert_eq!(app.input_mode, InputMode::Normal);
    assert_eq!(app.collections, names(&["users"]));
}

#[test]
fn event_handler_reads_the_first_word() {
    let mut app = app_with(&["users"]);
    let command = event_handler(InputStrategy::Command, String::from("q"), &mut app);
    assert!(matches!(command, Command::Exit));
    assert!(!app.is_show_popup);
    let command = event_handler(InputStrategy::Search, String::from("q"), &mut app);
    assert!(matches!(command, Command::Exit));
    assert!(!app.is_show_popup);
    let command = event_handler(InputStrategy::Search, String::from("q and more"), &mut app);
    assert!(matches!(command, Command::Exit));
    let command = event_handler(InputStrategy::Command, String::from("w"), &mut app);
    assert!(matches!(command, Command::Continue));
    assert!(app.is_show_popup);
    assert_eq!(app.popup_msg, "Command not found");
}

#[test]
fn event_handler_reports_an_unknown_search() {
    let mut app = app_with(&["users"]);
    let command = event_handler(InputStrategy::Search, String::from("zz"), &mut app);
    assert!(matches!(command, Command::Continue));
    assert!(app.is_show_popup);
    assert_eq!(app.popup_msg, "Command not found");
}

#[test]
fn event_handler_does_not_read_the_answer_to_a_prompt() {
    let mut app = app_with(&["users"]);
    let command = event_handler(InputStrategy::Prompt, String::from("q"), &mut app);
    assert!(matches!(command, Command::Continue));
    let command = event_handler(InputStrategy::Prompt, String::from("zz"), &mut app);
    assert!(matches!(command, Command::Continue));
    assert!(!app.is_show_popup);
}

#[test]
fn prompts_ask_on_the_input_line() {
    let mut app = app_with(&["users"]);
    app.handle_key(key('a'));
    assert_eq!(app.input_mode, InputMode::Control);
    assert_eq!(app.input_strategy, InputStrategy::Prompt);
    assert!(matches!(app.current_operation, WindowOperation::Create));
    assert_eq!(app.decide_input_title(), Some(String::from("Collection Name")));
    app.handle_key(press(KeyCode::Esc));
    app.handle_key(key('d'));
    assert!(matches!(app.current_operation, WindowOperation::Delete));
    assert_eq!(app.decide_input_title(), Some(String::from("Delete Collection [y/N]")));
}

#[test]
fn input_titles_follow_strategy_and_operation() {
    let mut app = entered(&["login.json"]);
    assert_eq!(app.decide_input_title(), Some(String::from("Command")));
    app.input_strategy = InputStrategy::Search;
    assert_eq!(app.decide_input_title(), Some(String::from("Search")));
    app.prompt(WindowOperation::Create);
    assert_eq!(app.decide_input_title(), Some(String::from("Request Name")));
    app.prompt(WindowOperation::Rename);
    assert_eq!(app.decide_input_title(), None);
    app.current_operation = WindowOperation::Null;
    assert_eq!(app.decide_input_title(), None);
}

#[test]
fn declined_delete_changes_nothing() {
    let mut app = app_with(&["users", "orders"]);
    app.handle_key(key('d'));
    app.handle_key(key('n'));
    let command = app.handle_key(press(KeyCode::Enter));
    assert!(matches!(command, Command::Continue));
    assert!(app.is_idle());
    assert_eq!(app.collections, names(&["users", "orders"]));
    assert_eq!(app.input_mode, InputMode::Normal);
    assert_eq!(app.input, "");
    assert_eq!(app.character_index, 0);
    assert!(!app.is_show_popup);
}

#[test]
fn delete_needs_exactly_a_small_y() {
    for answer in ["Y", "yes", " y", "y ", ""] {
        let mut app = app_with(&["users", "orders"]);
        app.handle_key(key('d'));
        type_text(&mut app, answer);
        let command = app.handle_key(press(KeyCode::Enter));
        assert!(matches!(command, Command::Continue), "answer {:?}", answer);
        assert!(app.is_idle());
        assert_eq!(app.collections, names(&["users", "orders"]));
    }
}

#[test]
fn confirmed_delete_removes_the_selected_request() {
    let mut app = entered(&["login.json", "signup.json"]);
    app.handle_key(key('d'));
    app.handle_key(key('y'));
    let command = app.handle_key(press(KeyCode::Enter));
    match command {
        Command::DeleteRequest { collection, name } => {
            assert_eq!(collection, "users");
            assert_eq!(name, "login.json");
        }
        other => panic!("unexpected command {:?}", other),
    }
    assert_eq!(app.input_mode, InputMode::Normal);
    assert!(matches!(app.pending, Pending::StoreChange));

    let command = app.resume(Reply::Done);
    match command {
        Command::ListChildren { collection } => assert_eq!(collection, "users"),
        other => panic!("unexpected command {:?}", other),
    }
    let command = app.resume(Reply::Listing(names(&["signup.json"])));
    assert!(matches!(command, Command::Continue));
    assert!(app.is_idle());
    assert_eq!(app.collections, names(&["signup.json"]));
    assert!(app.show_collection_children);
    assert_eq!(app.selected_collection, "users");
    assert_eq!(app.collection_window_list_state.selected(), Some(0));
}

#[test]
fn deleting_the_last_request_moves_the_highlight_back() {
    let mut app = entered(&["login.json", "signup.json"]);
    app.handle_key(key('j'));
    app.resume(Reply::Document(RequestStructure::default()));
    app.handle_key(key('d'));
    app.handle_key(key('y'));
    let command = app.handle_key(press(KeyCode::Enter));
    match command {
        Command::DeleteRequest { name, .. } => assert_eq!(name, "signup.json"),
        other => panic!("unexpected command {:?}", other),
    }
    app.resume(Reply::Done);
    app.resume(Reply::Listing(names(&["login.json"])));
    assert_eq!(app.collection_window_list_state.selected(), Some(0));
    app.handle_key(key('d'));
    app.handle_key(key('y'));
    app.handle_key(press(KeyCode::Enter));
    app.resume(Reply::Done);
    app.resume(Reply::Listing(Vec::new()));
    assert_eq!(app.collection_window_list_state.selected(), None);
    assert!(app.collections.is_empty());
}

#[test]
fn confirmed_delete_removes_the_selected_collection() {
    let mut app = app_with(&["users", "orders"]);
    app.handle_key(key('j'));
    app.handle_key(key('d'));
    app.handle_key(key('y'));
    let command = app.handle_key(press(KeyCode::Enter));
    match command {
        Command::DeleteCollection { name } => assert_eq!(name, "orders"),
        other => panic!("unexpected command {:?}", other),
    }
    let command = app.resume(Reply::Done);
    assert!(matches!(command, Command::ListCollections));
    app.resume(Reply::Listing(names(&["users"])));
    assert_eq!(app.collections, names(&["users"]));
    assert!(!app.show_collection_children);
    assert_eq!(app.collection_window_list_state.selected(), Some(0));
}

#[test]
fn delete_without_a_selection_does_nothing() {
    let mut app = app_with(&[]);
    app.handle_key(key('d'));
    app.handle_key(key('y'));
    let command = app.handle_key(press(KeyCode::Enter));
    assert!(matches!(command, Command::Continue));
    assert!(app.is_idle());
}

#[test]
fn create_makes_a_collection_at_the_top() {
    let mut app = app_with(&["users"]);
    app.handle_key(key('a'));
    type_text(&mut app, "orders");
    let command = app.handle_key(press(KeyCode::Enter));
    match command {
        Command::CreateCollection { name } => assert_eq!(name, "orders"),
        other => panic!("unexpected command {:?}", other),
    }
    let command = app.resume(Reply::Done);
    assert!(matches!(command, Command::ListCollections));
    app.resume(Reply::Listing(names(&["orders", "users"])));
    assert_eq!(app.collections, names(&["orders", "users"]));
    assert!(app.is_idle());
}

#[test]
fn create_makes_a_request_inside_a_collection() {
    let mut app = entered(&["login.json"]);
    app.handle_key(key('a'));
    type_text(&mut app, "signup.json");
    let command = app.handle_key(press(KeyCode::Enter));
    match command {
        Command::CreateRequest { collection, name, document } => {
            assert_eq!(collection, "users");
            assert_eq!(name, "signup.json");
            assert_eq!(document.method, "POST");
            assert_eq!(document.url, "");
            assert_eq!(document.headers.len(), 0);
            assert_eq!(document.query_parameters.len(), 0);
            assert_eq!(document.body_type, "");
            assert_eq!(document.body, "");
            assert!(!document.options.validate_ssl);
            assert!(!document.options.follow_redirect);
            assert!(!document.options.attach_cookies);
            assert_eq!(document.options.proxy, "");
            assert_eq!(document.options.timeout, 0);
        }
        other => panic!("unexpected command {:?}", other),
    }
    let command = app.resume(Reply::Done);
    match command {
        Command::ListChildren { collection } => assert_eq!(collection, "users"),
        other => panic!("unexpected command {:?}", other),
    }
    app.resume(Reply::Listing(names(&["login.json", "signup.json"])));
    assert_eq!(app.collections, names(&["login.json", "signup.json"]));
}

#[test]
fn a_failed_change_is_reported_and_the_list_refreshed() {
    let mut app = app_with(&["users"]);
    app.handle_key(key('a'));
    type_text(&mut app, "users");
    app.handle_key(press(KeyCode::Enter));
    let command = app.resume(Reply::Failed(String::from("File exists")));
    assert!(matches!(command, Command::ListCollections));
    assert!(app.is_show_popup);
    assert_eq!(app.popup_msg, "File exists");
    app.resume(Reply::Listing(names(&["users"])));
    assert!(app.is_idle());
    assert_eq!(app.collections, names(&["users"]));
}

#[test]
fn prompts_outside_the_collections_are_unsupported() {
    let mut app = app_with(&["users"]);
    app.handle_key(key('2'));
    app.handle_key(key('a'));
    type_text(&mut app, "name");
    let command = app.handle_key(press(KeyCode::Enter));
    assert!(matches!(command, Command::Unsupported));
    assert!(app.is_idle());
    assert_eq!(app.input_mode, InputMode::Normal);
    assert_eq!(app.input, "");
    assert_eq!(app.collections, names(&["users"]));
}

#[test]
fn prompted_operations_other_than_create_and_delete_are_unsupported() {
    let mut app = app_with(&["users"]);
    let command =
        app.execute_operation_on_selected_window_with_promt(WindowOperation::Rename, String::from("x"));
    assert!(matches!(command, Command::Unsupported));
    assert!(app.is_idle());
    app.focused_window = FocusedWindow::Response;
    let command =
        app.execute_operation_on_selected_window_with_promt(WindowOperation::Create, String::from("x"));
    assert!(matches!(command, Command::Unsupported));
}

#[test]
fn show_popup_shows_the_message() {
    let mut app = app_with(&["users"]);
    app.show_popup(String::from("saved"));
    assert!(app.is_show_popup);
    assert_eq!(app.popup_msg, "saved");
    assert_eq!(app.popup_type.to_string(), "Info");
    app.show_error(String::from("lost"));
    assert_eq!(app.popup_msg, "lost");
    assert_eq!(app.popup_type.to_string(), "Error");
}
