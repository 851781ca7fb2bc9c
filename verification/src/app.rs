//! The application state, and the transitions that keys and replies make.
//!
//! Every function here is proved to do to the state exactly what the
//! function of the same name in [`crate::model`] says.

use std::collections::HashMap;
use vstd::prelude::*;
use vstd::string::*;

use crate::enums::{
    FocusedWindow, InputMode, InputStrategy, LogTypes, WindowMotion, WindowOperation,
    REQUEST_TAB_COUNT, RESPONSE_TAB_COUNT,
};
use crate::handler::event_handler;
use crate::helpers::{wrap_decrement, wrap_increment};
use crate::model::{
    lemma_transitions_preserve_wf, spec_next_field, AppView, Listed, HEADER_FIELD_COUNT,
};
use crate::protocol::{names_view, Command, KeyCode, KeyEvent, Pending, PendingView, Reply};
use crate::request::{
    buffer_texts, request_widget_edit_headers_enter_event, RequestStructure, HEADER_COMMIT_FIELD,
};
use crate::selection::ListState;
use crate::text::{
    byte_index, char_count, clamped, delete_before, insert_char, spec_byte_index,
};
use crate::theme::Config;

verus! {

broadcast use vstd::std_specs::hash::group_hash_axioms;

/// The state of the application.
pub struct App {
    /// The document of the request that is shown.
    pub request_data: RequestStructure,
    /// What was typed into each field of the widget that is being edited.
    pub input_buffer: HashMap<u8, String>,
    pub theme: Config,
    /// The text of the input line.
    pub input: String,
    /// The position of the cursor in the input line, in characters.
    pub character_index: usize,
    pub input_mode: InputMode,
    pub input_strategy: InputStrategy,
    pub focused_window: FocusedWindow,
    /// The names that the list shows: the collections, or the requests of
    /// the collection that was entered.
    pub collections: Vec<String>,
    pub collection_window_list_state: ListState,
    /// The collection that was entered; empty where none was.
    pub selected_collection: String,
    pub selected_request: String,
    /// Whether the list shows the requests of a collection.
    pub show_collection_children: bool,
    pub selected_tab: usize,
    pub vertical_scroll: usize,
    pub selected_response_tab: usize,
    pub current_operation: WindowOperation,
    /// The field of the widget that is being edited which has the focus.
    pub sub_focus_element: u8,
    pub is_show_popup: bool,
    pub popup_msg: String,
    pub popup_type: LogTypes,
    /// The reply that is awaited.
    pub pending: Pending,
    /// The names that the store listed last, and of what.
    pub listed: Ghost<Listed>,
}

impl View for App {
    type V = AppView;

    open spec fn view(&self) -> AppView {
        AppView {
            request_data: self.request_data@,
            input_buffer: buffer_texts(self.input_buffer@),
            theme: self.theme,
            input: self.input@,
            character_index: self.character_index as int,
            input_mode: self.input_mode,
            input_strategy: self.input_strategy,
            focused_window: self.focused_window,
            collections: names_view(self.collections@),
            collection_window_list_state: self.collection_window_list_state,
            selected_collection: self.selected_collection@,
            selected_request: self.selected_request@,
            show_collection_children: self.show_collection_children,
            selected_tab: self.selected_tab as int,
            vertical_scroll: self.vertical_scroll,
            selected_response_tab: self.selected_response_tab as int,
            current_operation: self.current_operation,
            sub_focus_element: self.sub_focus_element,
            is_show_popup: self.is_show_popup,
            popup_msg: self.popup_msg@,
            popup_type: self.popup_type,
            pending: self.pending@,
            listed: self.listed@,
        }
    }
}

/// The text of a name that may be missing.
pub open spec fn name_view(name: Option<String>) -> Option<Seq<char>> {
    match name {
        Some(text) => Some(text@),
        None => None,
    }
}

/// The texts of the two names that locate a request, where there are any.
pub open spec fn location_view(location: Option<(String, String)>) -> Option<
    (Seq<char>, Seq<char>),
> {
    match location {
        Some(names) => Some((names.0@, names.1@)),
        None => None,
    }
}

impl App {
    /// The state in which the program starts: nothing typed, the keys
    /// navigating, and the list showing the collections with the first of
    /// them highlighted.
    pub fn new(theme: Config, collections: Vec<String>) -> (app: App)
        ensures
            app@ == AppView::initial(theme, names_view(collections@)),
            app@.wf(),
    {
        let mut list = ListState::default().with_selected(Some(0));
        list.clamp(collections.len());
        let ghost names = names_view(collections@);
        let app = App {
            request_data: RequestStructure::default(),
            input_buffer: HashMap::new(),
            theme,
            input: String::new(),
            character_index: 0,
            input_mode: InputMode::Normal,
            input_strategy: InputStrategy::Command,
            focused_window: FocusedWindow::Collections,
            collections,
            collection_window_list_state: list,
            selected_collection: String::new(),
            selected_request: String::new(),
            show_collection_children: false,
            selected_tab: 0,
            vertical_scroll: 0,
            selected_response_tab: 0,
            current_operation: WindowOperation::Null,
            sub_focus_element: 0,
            is_show_popup: false,
            popup_msg: String::new(),
            popup_type: LogTypes::Info,
            pending: Pending::Idle,
            listed: Ghost(Listed { parent: None, names }),
        };
        proof {
            assert(app@ =~= AppView::initial(theme, names));
            crate::model::lemma_initial_wf(theme, names);
        }
        app
    }

    /// Whether no reply is awaited, so that the state may be drawn and the
    /// next key read.
    pub fn is_idle(&self) -> (idle: bool)
        ensures
            idle == (self@.pending is Idle),
    {
        match self.pending {
            Pending::Idle => true,
            _ => false,
        }
    }

    /// A cursor position brought back into the input line.
    pub fn clamp_cursor(&self, new_cursor_pos: usize) -> (position: usize)
        ensures
            position == clamped(new_cursor_pos as int, self@.input.len() as int),
            self@.input.len() <= usize::MAX,
    {
        let len: usize = char_count(&self.input);
        if new_cursor_pos > len {
            len
        } else {
            new_cursor_pos
        }
    }

    /// The byte offset of the cursor in the input line.
    pub fn byte_index(&self) -> (offset: usize)
        ensures
            offset == spec_byte_index(self@.input, self@.character_index),
    {
        byte_index(&self.input, self.character_index)
    }

    /// Moves the cursor one character to the left, if there is one.
    pub fn move_cursor_left(&mut self)
        ensures
            final(self)@ == old(self)@.move_cursor_left(),
            old(self)@.wf() ==> final(self)@.wf(),
    {
        proof {
            if self@.wf() {
                lemma_transitions_preserve_wf(self@);
            }
        }
        let cursor_moved_left: usize = self.character_index.saturating_sub(1);
        self.character_index = self.clamp_cursor(cursor_moved_left);
        assert(self@ =~= old(self)@.move_cursor_left());
    }

    /// Moves the cursor one character to the right, if there is one.
    pub fn move_cursor_right(&mut self)
        ensures
            final(self)@ == old(self)@.move_cursor_right(),
            old(self)@.wf() ==> final(self)@.wf(),
    {
        proof {
            if self@.wf() {
                lemma_transitions_preserve_wf(self@);
            }
        }
        let cursor_moved_right: usize = self.character_index.saturating_add(1);
        self.character_index = self.clamp_cursor(cursor_moved_right);
        assert(self@ =~= old(self)@.move_cursor_right());
    }

    /// Copies the input line into the buffer of the field that has the
    /// focus, while fields are being edited.
    fn mirror(&mut self)
        ensures
            final(self)@ == old(self)@.mirrored(),
    {
        if self.input_mode == InputMode::Insert {
            self.input_buffer.insert(self.sub_focus_element, self.input.clone());
        }
        assert(self@ =~= old(self)@.mirrored());
    }

    /// Types `new_char` at the cursor.
    pub fn enter_char(&mut self, new_char: char)
        ensures
            final(self)@ == old(self)@.enter_char(new_char),
            final(self)@.cursor_in_bounds(),
            old(self)@.wf() ==> final(self)@.wf(),
    {
        proof {
            if self@.wf() {
                lemma_transitions_preserve_wf(self@);
            }
        }
        insert_char(&mut self.input, self.character_index, new_char);
        self.move_cursor_right();
        self.mirror();
        assert(self@ =~= old(self)@.enter_char(new_char));
    }

    /// Deletes the character in front of the cursor. With the cursor at the
    /// start nothing changes.
    pub fn delete_char(&mut self)
        ensures
            final(self)@ == old(self)@.delete_char(),
            old(self)@.character_index == 0 ==> final(self)@ == old(self)@,
            old(self)@.cursor_in_bounds() ==> final(self)@.cursor_in_bounds(),
            old(self)@.wf() ==> final(self)@.wf(),
    {
        proof {
            if self@.wf() {
                lemma_transitions_preserve_wf(self@);
            }
        }
        let is_not_cursor_leftmost = self.character_index != 0;
        if is_not_cursor_leftmost {
            delete_before(&mut self.input, self.character_index);
            self.move_cursor_left();
            self.mirror();
        }
        assert(self@ =~= old(self)@.delete_char());
    }

    /// Puts the cursor at the start of the input line.
    pub fn reset_cursor(&mut self)
        ensures
            final(self)@ == old(self)@.reset_cursor(),
            old(self)@.wf() ==> final(self)@.wf(),
    {
        proof {
            if self@.wf() {
                lemma_transitions_preserve_wf(self@);
            }
        }
        self.character_index = 0;
        assert(self@ =~= old(self)@.reset_cursor());
    }

    /// Empties the input line and the buffers of all fields.
    pub fn reset_input(&mut self)
        ensures
            final(self)@ == old(self)@.reset_input(),
            old(self)@.wf() ==> final(self)@.wf(),
    {
        proof {
            if self@.wf() {
                lemma_transitions_preserve_wf(self@);
            }
        }
        self.input = String::new();
        self.character_index = 0;
        self.input_buffer.clear();
        assert(self@ =~= old(self)@.reset_input());
    }

    /// Asks on the input line for what `operation` needs.
    pub fn prompt(&mut self, operation: WindowOperation)
        ensures
            final(self)@ == old(self)@.prompt(operation),
            old(self)@.wf() ==> final(self)@.wf(),
    {
        proof {
            if self@.wf() {
                lemma_transitions_preserve_wf(self@);
            }
        }
        self.input_mode = InputMode::Control;
        self.input_strategy = InputStrategy::Prompt;
        self.current_operation = operation;
        assert(self@ =~= old(self)@.prompt(operation));
    }

    /// Shows the notification `msg`.
    pub fn show_popup(&mut self, msg: String)
        ensures
            final(self)@ == old(self)@.show_popup(msg@),
            old(self)@.wf() ==> final(self)@.wf(),
    {
        proof {
            if self@.wf() {
                lemma_transitions_preserve_wf(self@);
            }
        }
        self.is_show_popup = true;
        self.popup_msg = msg;
        assert(self@ =~= old(self)@.show_popup(msg@));
    }

    /// Shows the failure `reason` as a notification.
    pub fn show_error(&mut self, reason: String)
        ensures
            final(self)@ == old(self)@.show_error(reason@),
            old(self)@.wf() ==> final(self)@.wf(),
    {
        proof {
            if self@.wf() {
                lemma_transitions_preserve_wf(self@);
            }
        }
        self.show_popup(reason);
        self.popup_type = LogTypes::Error;
        assert(self@ =~= old(self)@.show_error(reason@));
    }

    /// Closes the notification, gives the input up, and lets the keys
    /// navigate again.
    pub fn cancel(&mut self)
        ensures
            final(self)@ == old(self)@.cancel(),
            old(self)@.wf() ==> final(self)@.wf(),
    {
        proof {
            if self@.wf() {
                lemma_transitions_preserve_wf(self@);
            }
        }
        self.is_show_popup = false;
        self.input_mode = InputMode::Normal;
        self.reset_input();
        assert(self@ =~= old(self)@.cancel());
    }

    /// Moves the focus to the field `value` and empties the input line.
    pub fn update_sub_focus_element(&mut self, value: u8)
        ensures
            final(self)@ == old(self)@.update_sub_focus_element(value),
            old(self)@.wf() && value < HEADER_FIELD_COUNT ==> final(self)@.wf(),
    {
        proof {
            if self@.wf() {
                lemma_transitions_preserve_wf(self@);
            }
        }
        self.sub_focus_element = value;
        self.input = String::new();
        self.character_index = 0;
        assert(self@ =~= old(self)@.update_sub_focus_element(value));
    }

    /// While the fields of the request are edited, moves the focus to the
    /// next field, and from the last to the first.
    pub fn handle_tab_key(&mut self)
        ensures
            final(self)@ == old(self)@.handle_tab_key(),
            old(self)@.sub_focus_element < HEADER_FIELD_COUNT ==> final(self)@.sub_focus_element
                < HEADER_FIELD_COUNT,
            old(self)@.wf() ==> final(self)@.wf(),
    {
        proof {
            if self@.wf() {
                lemma_transitions_preserve_wf(self@);
            }
        }
        if self.input_mode == InputMode::Insert && self.focused_window == FocusedWindow::Request
            && self.current_operation == WindowOperation::Edit {
            let next: u8 = if self.sub_focus_element >= HEADER_FIELD_COUNT - 1 {
                0
            } else {
                self.sub_focus_element + 1
            };
            assert(next == spec_next_field(self.sub_focus_element));
            self.update_sub_focus_element(next);
        }
    }

    /// The title of the input line, where it has one.
    pub fn decide_input_title(&self) -> (title: Option<String>)
        ensures
            name_view(title) == self@.input_title(),
    {
        match self.input_strategy {
            InputStrategy::Command => Some(String::from_str("Command")),
            InputStrategy::Search => Some(String::from_str("Search")),
            InputStrategy::Prompt => match self.current_operation {
                WindowOperation::Create => {
                    if self.show_collection_children {
                        Some(String::from_str("Request Name"))
                    } else {
                        Some(String::from_str("Collection Name"))
                    }
                },
                WindowOperation::Delete => Some(String::from_str("Delete Collection [y/N]")),
                _ => None,
            },
        }
    }

    /// The name under the highlight of the list, if the highlight is on one.
    pub fn get_selected_value(&self) -> (name: Option<String>)
        ensures
            name_view(name) == self@.selected_value(),
    {
        match self.collection_window_list_state.selected() {
            Some(i) => {
                if i < self.collections.len() {
                    Some(self.collections[i].clone())
                } else {
                    None
                }
            },
            None => None,
        }
    }

    /// The collection and the request that locate the document of the
    /// request under the highlight.
    pub fn get_request_file_path(&self) -> (location: Option<(String, String)>)
        ensures
            location_view(location) == match self@.selected_value() {
                Some(name) => Some((self@.selected_collection, name)),
                None => None,
            },
    {
        match self.get_selected_value() {
            Some(name) => Some((self.selected_collection.clone(), name)),
            None => None,
        }
    }

    /// Asks for the document of the request under the highlight, where the
    /// highlight is on one.
    pub fn refresh_request_data(&mut self) -> (command: Command)
        ensures
            final(self)@ == old(self)@.load_selected().state,
            command@ == old(self)@.load_selected().command,
            old(self)@.wf() ==> final(self)@.wf(),
    {
        proof {
            if self@.wf() {
                lemma_transitions_preserve_wf(self@);
            }
        }
        match self.get_request_file_path() {
            Some((collection, request)) => {
                self.pending = Pending::LoadDocument;
                assert(self@ =~= old(self)@.load_selected().state);
                Command::LoadRequest { collection, request }
            },
            None => Command::Continue,
        }
    }

    /// After a move in the list: inside a collection, asks for the document
    /// of the request under the highlight.
    fn load_if_entered(&mut self) -> (command: Command)
        ensures
            final(self)@ == old(self)@.load_if_entered().state,
            command@ == old(self)@.load_if_entered().command,
    {
        if self.show_collection_children {
            self.refresh_request_data()
        } else {
            Command::Continue
        }
    }

    /// Takes note of how far drawing has scrolled the list: the item at
    /// `offset` is the first one displayed. Nothing else of the state
    /// changes when it is drawn.
    pub fn set_scroll_offset(&mut self, offset: usize)
        ensures
            final(self)@ == old(self)@.scrolled_to(offset),
            old(self)@.wf() ==> final(self)@.wf(),
    {
        proof {
            if self@.wf() {
                lemma_transitions_preserve_wf(self@);
            }
        }
        self.collection_window_list_state.offset = offset;
        assert(self@ =~= old(self)@.scrolled_to(offset));
    }

    /// Puts the highlight of the list on the first name.
    fn select_first(&mut self)
        ensures
            final(self)@ == old(self)@.select_first(),
    {
        self.collection_window_list_state.select(Some(0));
        self.collection_window_list_state.clamp(self.collections.len());
        assert(self@ =~= old(self)@.select_first());
    }

    /// A motion in the window of the collections.
    fn collections_motion(&mut self, motion: WindowMotion) -> (command: Command)
        ensures
            final(self)@ == old(self)@.collections_motion(motion).state,
            command@ == old(self)@.collections_motion(motion).command,
    {
        match motion {
            WindowMotion::Up => {
                self.collection_window_list_state.select_next();
                self.collection_window_list_state.clamp(self.collections.len());
                self.load_if_entered()
            },
            WindowMotion::Down => {
                self.collection_window_list_state.select_previous();
                self.collection_window_list_state.clamp(self.collections.len());
                self.load_if_entered()
            },
            WindowMotion::Left => {
                if self.show_collection_children {
                    self.pending = Pending::LeaveCollection;
                    assert(self@ =~= old(self)@.collections_motion(motion).state);
                    Command::ListCollections
                } else {
                    self.select_first();
                    Command::Continue
                }
            },
            WindowMotion::Right => {
                if self.show_collection_children {
                    self.select_first();
                    self.load_if_entered()
                } else {
                    match self.get_selected_value() {
                        Some(name) => {
                            if char_count(&name) > 0 {
                                self.pending = Pending::EnterCollection {
                                    collection: name.clone(),
                                };
                                assert(self@ =~= old(self)@.collections_motion(motion).state);
                                Command::ListChildren { collection: name }
                            } else {
                                self.select_first();
                                Command::Continue
                            }
                        },
                        None => {
                            self.select_first();
                            Command::Continue
                        },
                    }
                }
            },
            _ => self.load_if_entered(),
        }
    }

    /// A motion in the window of the request.
    fn request_motion(&mut self, motion: WindowMotion)
        ensures
            final(self)@ == old(self)@.request_motion(motion),
    {
        match motion {
            WindowMotion::Left => {
                self.selected_tab = wrap_decrement(self.selected_tab, REQUEST_TAB_COUNT);
            },
            WindowMotion::Right => {
                self.selected_tab = wrap_increment(self.selected_tab, REQUEST_TAB_COUNT);
            },
            WindowMotion::Down => {
                self.vertical_scroll = self.vertical_scroll.saturating_add(1);
            },
            _ => {},
        }
        assert(self@ =~= old(self)@.request_motion(motion));
    }

    /// A motion in the window of the response.
    fn response_motion(&mut self, motion: WindowMotion)
        ensures
            final(self)@ == old(self)@.response_motion(motion),
    {
        match motion {
            WindowMotion::Left => {
                self.selected_response_tab = wrap_decrement(
                    self.selected_response_tab,
                    RESPONSE_TAB_COUNT,
                );
            },
            WindowMotion::Right => {
                self.selected_response_tab = wrap_increment(
                    self.selected_response_tab,
                    RESPONSE_TAB_COUNT,
                );
            },
            _ => {},
        }
        assert(self@ =~= old(self)@.response_motion(motion));
    }

    /// A motion in the window that has the focus.
    pub fn select_collection_to_send_motion(&mut self, motion: WindowMotion) -> (command: Command)
        ensures
            final(self)@ == old(self)@.select_collection_to_send_motion(motion).state,
            command@ == old(self)@.select_collection_to_send_motion(motion).command,
            old(self)@.wf() ==> final(self)@.wf(),
    {
        proof {
            if self@.wf() {
                lemma_transitions_preserve_wf(self@);
            }
        }
        match self.focused_window {
            FocusedWindow::Collections => self.collections_motion(motion),
            FocusedWindow::Request => {
                self.request_motion(motion);
                Command::Continue
            },
            FocusedWindow::Response => {
                self.response_motion(motion);
                Command::Continue
            },
            FocusedWindow::Input => Command::Continue,
        }
    }

    /// Begins an operation that needs no further input in the window that
    /// has the focus.
    pub fn execute_operation_on_selected_window(&mut self, operation: WindowOperation) -> (command:
        Command)
        ensures
            final(self)@ == old(self)@.execute_operation_on_selected_window(operation).state,
            command@ == old(self)@.execute_operation_on_selected_window(operation).command,
            old(self)@.wf() ==> final(self)@.wf(),
    {
        proof {
            if self@.wf() {
                lemma_transitions_preserve_wf(self@);
            }
        }
        self.current_operation = operation;
        let command = match self.focused_window {
            FocusedWindow::Collections => match operation {
                WindowOperation::Open => {
                    if self.show_collection_children {
                        match self.get_request_file_path() {
                            Some((collection, request)) => Command::OpenEditor {
                                collection,
                                request,
                            },
                            None => Command::Continue,
                        }
                    } else {
                        Command::Continue
                    }
                },
                _ => Command::Continue,
            },
            FocusedWindow::Request => match operation {
                WindowOperation::Edit => {
                    self.input_mode = InputMode::Insert;
                    Command::Continue
                },
                _ => Command::Continue,
            },
            _ => Command::Continue,
        };
        assert(self@ =~= old(self)@.execute_operation_on_selected_window(operation).state);
        command
    }

    /// Carries an operation out on the answer `promt` to its question.
    pub fn execute_operation_on_selected_window_with_promt(
        &mut self,
        operation: WindowOperation,
        promt: String,
    ) -> (command: Command)
        ensures
            final(self)@ == old(self)@.execute_operation_on_selected_window_with_promt(
                operation,
                promt@,
            ).state,
            command@ == old(self)@.execute_operation_on_selected_window_with_promt(
                operation,
                promt@,
            ).command,
            old(self)@.wf() ==> final(self)@.wf(),
    {
        proof {
            if self@.wf() {
                lemma_transitions_preserve_wf(self@);
            }
        }
        let command = match self.focused_window {
            FocusedWindow::Collections => match operation {
                WindowOperation::Create => {
                    self.pending = Pending::StoreChange;
                    if self.show_collection_children {
                        Command::CreateRequest {
                            collection: self.selected_collection.clone(),
                            name: promt,
                            document: RequestStructure::template(),
                        }
                    } else {
                        Command::CreateCollection { name: promt }
                    }
                },
                WindowOperation::Delete => {
                    if promt == String::from_str("y") {
                        match self.get_selected_value() {
                            Some(name) => {
                                self.pending = Pending::StoreChange;
                                if self.show_collection_children {
                                    Command::DeleteRequest {
                                        collection: self.selected_collection.clone(),
                                        name,
                                    }
                                } else {
                                    Command::DeleteCollection { name }
                                }
                            },
                            None => Command::Continue,
                        }
                    } else {
                        Command::Continue
                    }
                },
                _ => Command::Unsupported,
            },
            _ => Command::Unsupported,
        };
        assert(self@ =~= old(self)@.execute_operation_on_selected_window_with_promt(
            operation,
            promt@,
        ).state);
        command
    }

    /// Submits the input line: reads it as the strategy says, then empties
    /// it and lets the keys navigate again.
    pub fn submit_message(&mut self) -> (command: Command)
        ensures
            final(self)@ == old(self)@.submit_message().state,
            command@ == old(self)@.submit_message().command,
            final(self)@.input.len() == 0,
            final(self)@.character_index == 0,
            final(self)@.input_mode == InputMode::Normal,
            old(self)@.wf() ==> final(self)@.wf(),
    {
        proof {
            if self@.wf() {
                lemma_transitions_preserve_wf(self@);
            }
        }
        let command = if self.input_strategy == InputStrategy::Prompt {
            self.execute_operation_on_selected_window_with_promt(
                self.current_operation,
                self.input.clone(),
            )
        } else {
            event_handler(self.input_strategy, self.input.clone(), self)
        };
        self.input = String::new();
        self.reset_cursor();
        self.input_mode = InputMode::Normal;
        assert(self@ =~= old(self)@.submit_message().state);
        command
    }

    /// What Enter does while fields are edited: with the focus on the
    /// button of the header editor, the edited header is merged into the
    /// document, which is handed over to be written.
    pub fn handle_enter_on_insert_mode(&mut self) -> (command: Command)
        ensures
            final(self)@ == old(self)@.handle_enter_on_insert_mode().state,
            command@ == old(self)@.handle_enter_on_insert_mode().command,
            old(self)@.wf() ==> final(self)@.wf(),
    {
        proof {
            if self@.wf() {
                lemma_transitions_preserve_wf(self@);
            }
        }
        if self.focused_window == FocusedWindow::Request && self.selected_tab == 0
            && self.sub_focus_element == HEADER_COMMIT_FIELD && self.show_collection_children {
            match self.get_request_file_path() {
                Some((collection, request)) => {
                    match request_widget_edit_headers_enter_event(
                        &self.input_buffer,
                        &self.request_data,
                    ) {
                        Some(document) => {
                            self.pending = Pending::SaveDocument;
                            assert(self@ =~= old(self)@.handle_enter_on_insert_mode().state);
                            Command::SaveRequest { collection, request, document }
                        },
                        None => Command::Continue,
                    }
                },
                None => Command::Continue,
            }
        } else {
            Command::Continue
        }
    }

    /// A character key while the keys navigate.
    fn normal_char(&mut self, c: char, control: bool) -> (command: Command)
        ensures
            final(self)@ == old(self)@.normal_char(c, control).state,
            command@ == old(self)@.normal_char(c, control).command,
    {
        if c == 'c' {
            if control {
                Command::Exit
            } else {
                Command::Continue
            }
        } else if c == ':' {
            self.input_strategy = InputStrategy::Command;
            self.input_mode = InputMode::Control;
            assert(self@ =~= old(self)@.normal_char(c, control).state);
            Command::Continue
        } else if c == '/' {
            self.input_strategy = InputStrategy::Search;
            self.input_mode = InputMode::Control;
            assert(self@ =~= old(self)@.normal_char(c, control).state);
            Command::Continue
        } else if c == '1' {
            self.focused_window = FocusedWindow::Collections;
            assert(self@ =~= old(self)@.normal_char(c, control).state);
            Command::Continue
        } else if c == '2' {
            self.focused_window = FocusedWindow::Request;
            assert(self@ =~= old(self)@.normal_char(c, control).state);
            Command::Continue
        } else if c == '3' {
            self.focused_window = FocusedWindow::Response;
            assert(self@ =~= old(self)@.normal_char(c, control).state);
            Command::Continue
        } else if c == 'k' {
            self.select_collection_to_send_motion(WindowMotion::Down)
        } else if c == 'j' {
            self.select_collection_to_send_motion(WindowMotion::Up)
        } else if c == 'h' {
            self.select_collection_to_send_motion(WindowMotion::Left)
        } else if c == 'l' {
            self.select_collection_to_send_motion(WindowMotion::Right)
        } else if c == 'a' {
            self.prompt(WindowOperation::Create);
            Command::Continue
        } else if c == 'd' {
            self.prompt(WindowOperation::Delete);
            Command::Continue
        } else if c == 'o' {
            self.execute_operation_on_selected_window(WindowOperation::Open)
        } else if c == 'i' {
            self.execute_operation_on_selected_window(WindowOperation::Edit)
        } else {
            Command::Continue
        }
    }

    /// A key while the keys navigate.
    fn normal_key(&mut self, key: KeyEvent) -> (command: Command)
        ensures
            final(self)@ == old(self)@.normal_key(key).state,
            command@ == old(self)@.normal_key(key).command,
    {
        match key.code {
            KeyCode::Char(c) => self.normal_char(c, key.control),
            KeyCode::Esc => {
                self.cancel();
                Command::Continue
            },
            _ => Command::Continue,
        }
    }

    /// A key while the input line is edited.
    fn control_key(&mut self, key: KeyEvent) -> (command: Command)
        ensures
            final(self)@ == old(self)@.control_key(key).state,
            command@ == old(self)@.control_key(key).command,
    {
        if !key.pressed {
            return Command::Continue;
        }
        match key.code {
            KeyCode::Enter => self.submit_message(),
            KeyCode::Char(to_insert) => {
                self.enter_char(to_insert);
                Command::Continue
            },
            KeyCode::Backspace => {
                self.delete_char();
                Command::Continue
            },
            KeyCode::Left => {
                self.move_cursor_left();
                Command::Continue
            },
            KeyCode::Right => {
                self.move_cursor_right();
                Command::Continue
            },
            KeyCode::Esc => {
                self.cancel();
                Command::Continue
            },
            _ => Command::Continue,
        }
    }

    /// A key while fields are edited.
    fn insert_key(&mut self, key: KeyEvent) -> (command: Command)
        ensures
            final(self)@ == old(self)@.insert_key(key).state,
            command@ == old(self)@.insert_key(key).command,
    {
        if !key.pressed {
            return Command::Continue;
        }
        match key.code {
            KeyCode::Char(to_insert) => {
                self.enter_char(to_insert);
                Command::Continue
            },
            KeyCode::Backspace => {
                self.delete_char();
                Command::Continue
            },
            KeyCode::Esc => {
                self.cancel();
                Command::Continue
            },
            KeyCode::Tab => {
                self.handle_tab_key();
                Command::Continue
            },
            KeyCode::Enter => self.handle_enter_on_insert_mode(),
            _ => Command::Continue,
        }
    }

    /// Handles one key: changes the state as the key and the mode say, and
    /// returns what the program around the state has to do next. While a
    /// reply is awaited, keys are not listened to.
    pub fn handle_key(&mut self, key: KeyEvent) -> (command: Command)
        ensures
            final(self)@ == old(self)@.handle_key(key).state,
            command@ == old(self)@.handle_key(key).command,
            old(self)@.wf() ==> final(self)@.wf(),
            old(self)@.wf() && old(self)@.pending is Idle ==> (command@.awaits_reply() <==> !(
            final(self)@.pending is Idle)),
    {
        proof {
            if self@.wf() {
                crate::model::lemma_handle_key_preserves_wf(self@, key);
            }
        }
        if !self.is_idle() {
            return Command::Continue;
        }
        match self.input_mode {
            InputMode::Normal => self.normal_key(key),
            InputMode::Control => self.control_key(key),
            InputMode::Insert => self.insert_key(key),
        }
    }

    /// The command that asks for the names that the list shows.
    fn listing_command(&self) -> (command: Command)
        ensures
            command@ == self@.listing_command(),
    {
        if self.show_collection_children {
            Command::ListChildren { collection: self.selected_collection.clone() }
        } else {
            Command::ListCollections
        }
    }

    /// The reply to a command that changed the store.
    fn resume_store_change(&mut self, reply: Reply) -> (command: Command)
        requires
            old(self)@.pending is Idle,
        ensures
            final(self)@ == (AppView { pending: PendingView::StoreChange, ..old(self)@ }).resume(
                reply@,
            ).state,
            command@ == (AppView { pending: PendingView::StoreChange, ..old(self)@ }).resume(
                reply@,
            ).command,
    {
        let ghost before = AppView { pending: PendingView::StoreChange, ..self@ };
        let command = match reply {
            Reply::Failed(reason) => {
                let command = self.listing_command();
                self.pending = Pending::RefreshListing;
                self.show_error(reason);
                command
            },
            Reply::Done => {
                let command = self.listing_command();
                self.pending = Pending::RefreshListing;
                command
            },
            _ => {
                self.show_error(String::from_str("Unexpected reply"));
                Command::Continue
            },
        };
        assert(self@ =~= before.resume(reply@).state);
        command
    }

    /// The reply to the command that listed the requests of a collection in
    /// order to enter it.
    fn resume_enter_collection(&mut self, collection: String, reply: Reply) -> (command: Command)
        requires
            old(self)@.pending is Idle,
        ensures
            final(self)@ == (AppView {
                pending: PendingView::EnterCollection { collection: collection@ },
                ..old(self)@
            }).resume(reply@).state,
            command@ == (AppView {
                pending: PendingView::EnterCollection { collection: collection@ },
                ..old(self)@
            }).resume(reply@).command,
    {
        let ghost before = AppView {
            pending: PendingView::EnterCollection { collection: collection@ },
            ..self@
        };
        match reply {
            Reply::Failed(reason) => {
                self.show_error(reason);
                assert(self@ =~= before.resume(reply@).state);
                Command::Continue
            },
            Reply::Listing(names) => {
                self.listed = Ghost(
                    Listed { parent: Some(collection@), names: names_view(names@) },
                );
                self.show_collection_children = true;
                self.selected_collection = collection;
                self.collections = names;
                self.select_first();
                assert(self@ =~= before.entered(collection@, names_view(names@)));
                self.load_if_entered()
            },
            _ => {
                self.show_error(String::from_str("Unexpected reply"));
                assert(self@ =~= before.resume(reply@).state);
                Command::Continue
            },
        }
    }

    /// The reply to the command that listed the collections in order to
    /// leave a collection.
    fn resume_leave_collection(&mut self, reply: Reply) -> (command: Command)
        requires
            old(self)@.pending is Idle,
        ensures
            final(self)@ == (AppView { pending: PendingView::LeaveCollection, ..old(self)@ }).resume(
                reply@,
            ).state,
            command@ == (AppView { pending: PendingView::LeaveCollection, ..old(self)@ }).resume(
                reply@,
            ).command,
    {
        let ghost before = AppView { pending: PendingView::LeaveCollection, ..self@ };
        match reply {
            Reply::Failed(reason) => {
                self.show_error(reason);
            },
            Reply::Listing(names) => {
                self.listed = Ghost(Listed { parent: None, names: names_view(names@) });
                self.show_collection_children = false;
                self.selected_collection = String::new();
                self.collections = names;
                self.select_first();
            },
            _ => {
                self.show_error(String::from_str("Unexpected reply"));
            },
        }
        assert(self@ =~= before.resume(reply@).state);
        Command::Continue
    }

    /// The reply to the command that listed the names anew.
    fn resume_refresh_listing(&mut self, reply: Reply) -> (command: Command)
        requires
            old(self)@.pending is Idle,
        ensures
            final(self)@ == (AppView { pending: PendingView::RefreshListing, ..old(self)@ }).resume(
                reply@,
            ).state,
            command@ == (AppView { pending: PendingView::RefreshListing, ..old(self)@ }).resume(
                reply@,
            ).command,
    {
        let ghost before = AppView { pending: PendingView::RefreshListing, ..self@ };
        match reply {
            Reply::Failed(reason) => {
                self.show_error(reason);
            },
            Reply::Listing(names) => {
                self.listed = Ghost(
                    Listed { parent: self.listed@.parent, names: names_view(names@) },
                );
                self.collections = names;
                self.collection_window_list_state.clamp(self.collections.len());
            },
            _ => {
                self.show_error(String::from_str("Unexpected reply"));
            },
        }
        assert(self@ =~= before.resume(reply@).state);
        Command::Continue
    }

    /// The reply to the command that asked for a document.
    fn resume_load_document(&mut self, reply: Reply) -> (command: Command)
        requires
            old(self)@.pending is Idle,
        ensures
            final(self)@ == (AppView { pending: PendingView::LoadDocument, ..old(self)@ }).resume(
                reply@,
            ).state,
            command@ == (AppView { pending: PendingView::LoadDocument, ..old(self)@ }).resume(
                reply@,
            ).command,
    {
        let ghost before = AppView { pending: PendingView::LoadDocument, ..self@ };
        match reply {
            Reply::Failed(reason) => {
                self.show_error(reason);
            },
            Reply::Document(document) => {
                self.request_data = document;
                self.current_operation = WindowOperation::Null;
                self.input_buffer.clear();
            },
            _ => {
                self.show_error(String::from_str("Unexpected reply"));
            },
        }
        assert(self@ =~= before.resume(reply@).state);
        Command::Continue
    }

    /// The reply to the command that wrote a document.
    fn resume_save_document(&mut self, reply: Reply) -> (command: Command)
        requires
            old(self)@.pending is Idle,
        ensures
            final(self)@ == (AppView { pending: PendingView::SaveDocument, ..old(self)@ }).resume(
                reply@,
            ).state,
            command@ == (AppView { pending: PendingView::SaveDocument, ..old(self)@ }).resume(
                reply@,
            ).command,
    {
        let ghost before = AppView { pending: PendingView::SaveDocument, ..self@ };
        match reply {
            Reply::Failed(reason) => {
                self.show_error(reason);
                assert(self@ =~= before.resume(reply@).state);
                Command::Continue
            },
            Reply::Done => {
                assert(self@ =~= AppView { pending: PendingView::Idle, ..before });
                self.refresh_request_data()
            },
            _ => {
                self.show_error(String::from_str("Unexpected reply"));
                assert(self@ =~= before.resume(reply@).state);
                Command::Continue
            },
        }
    }

    /// Takes the reply to the last command and finishes what the key that
    /// led to the command began. Returns what is to be done next. A reply
    /// that nothing asked for changes nothing.
    pub fn resume(&mut self, reply: Reply) -> (command: Command)
        ensures
            final(self)@ == old(self)@.resume(reply@).state,
            command@ == old(self)@.resume(reply@).command,
            old(self)@.wf() ==> final(self)@.wf(),
            old(self)@.wf() ==> (command@.awaits_reply() <==> !(final(self)@.pending is Idle)),
    {
        proof {
            if self@.wf() {
                crate::model::lemma_resume_preserves_wf(self@, reply@);
            }
        }
        let mut pending = Pending::Idle;
        core::mem::swap(&mut self.pending, &mut pending);
        assert(old(self)@ =~= AppView { pending: pending@, ..self@ });
        match pending {
            Pending::Idle => {
                assert(self@ =~= old(self)@);
                Command::Continue
            },
            Pending::StoreChange => self.resume_store_change(reply),
            Pending::EnterCollection { collection } => self.resume_enter_collection(
                collection,
                reply,
            ),
            Pending::LeaveCollection => self.resume_leave_collection(reply),
            Pending::RefreshListing => self.resume_refresh_listing(reply),
            Pending::LoadDocument => self.resume_load_document(reply),
            Pending::SaveDocument => self.resume_save_document(reply),
        }
    }
}

} // verus!
