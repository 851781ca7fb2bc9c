//! The application state as a mathematical value, and every transition of it
//! as a function on such values.
//!
//! The executable state in [`crate::app`] is proved to follow these
//! functions step by step. What holds of all states, and of all sequences of
//! steps, is stated and proved here.

use vstd::prelude::*;

use crate::enums::{
    FocusedWindow, InputMode, InputStrategy, LogTypes, WindowMotion, WindowOperation,
    REQUEST_TAB_COUNT, RESPONSE_TAB_COUNT,
};
use crate::helpers::{spec_wrap_decrement, spec_wrap_increment};
use crate::protocol::{CommandView, KeyCode, KeyEvent, PendingView, ReplyView};
use crate::request::{
    spec_edit_headers, RequestView, HEADER_COMMIT_FIELD,
};
use crate::selection::{
    lemma_clamp_in_range, selection_in_range, spec_clamp, spec_next_index, spec_previous_index,
    spec_select, ListState,
};
use crate::text::{clamped, spec_delete_before, spec_first_token, spec_insert_char};
use crate::theme::Config;

verus! {

/// The number of fields of the header editor: name, value, and the button
/// that commits them.
pub const HEADER_FIELD_COUNT: u8 = 3;

/// The names that the collection store last handed over, and what they are
/// the names of.
pub struct Listed {
    /// The collection whose requests were listed, or `None` for the list of
    /// all collections.
    pub parent: Option<Seq<char>>,
    pub names: Seq<Seq<char>>,
}

/// The application state as a mathematical value.
#[verifier::ext_equal]
pub struct AppView {
    pub request_data: RequestView,
    pub input_buffer: Map<u8, Seq<char>>,
    pub theme: Config,
    pub input: Seq<char>,
    pub character_index: int,
    pub input_mode: InputMode,
    pub input_strategy: InputStrategy,
    pub focused_window: FocusedWindow,
    pub collections: Seq<Seq<char>>,
    pub collection_window_list_state: ListState,
    pub selected_collection: Seq<char>,
    pub selected_request: Seq<char>,
    pub show_collection_children: bool,
    pub selected_tab: int,
    pub vertical_scroll: usize,
    pub selected_response_tab: int,
    pub current_operation: WindowOperation,
    pub sub_focus_element: u8,
    pub is_show_popup: bool,
    pub popup_msg: Seq<char>,
    pub popup_type: LogTypes,
    pub pending: PendingView,
    pub listed: Listed,
}

/// A state together with what the program around it has to do next.
#[verifier::ext_equal]
pub struct Step {
    pub state: AppView,
    pub command: CommandView,
}

/// One edit of the input line.
pub enum Edit {
    Enter(char),
    Delete,
}

/// What happens to the state: a key is pressed, or a reply comes in.
pub enum Event {
    Key(KeyEvent),
    Reply(ReplyView),
}

/// The field of the header editor that Tab moves to from `field`.
pub open spec fn spec_next_field(field: u8) -> u8 {
    spec_wrap_increment(field as int, HEADER_FIELD_COUNT as int) as u8
}

impl AppView {
    /// The state in which the program starts, given the theme and the names
    /// of the collections.
    pub open spec fn initial(theme: Config, collections: Seq<Seq<char>>) -> AppView {
        AppView {
            request_data: RequestView::initial(),
            input_buffer: Map::empty(),
            theme,
            input: Seq::empty(),
            character_index: 0,
            input_mode: InputMode::Normal,
            input_strategy: InputStrategy::Command,
            focused_window: FocusedWindow::Collections,
            collections,
            collection_window_list_state: spec_clamp(
                ListState { offset: 0, selected: Some(0) },
                collections.len() as int,
            ),
            selected_collection: Seq::empty(),
            selected_request: Seq::empty(),
            show_collection_children: false,
            selected_tab: 0,
            vertical_scroll: 0,
            selected_response_tab: 0,
            current_operation: WindowOperation::Null,
            sub_focus_element: 0,
            is_show_popup: false,
            popup_msg: Seq::empty(),
            popup_type: LogTypes::Info,
            pending: PendingView::Idle,
            listed: Listed { parent: None, names: collections },
        }
    }

    /// Whether the cursor stands inside the input line or at its end.
    pub open spec fn cursor_in_bounds(self) -> bool {
        0 <= self.character_index <= self.input.len()
    }

    /// Whether the list of names agrees with the position in the store: a
    /// collection is entered exactly when it is named, and the names shown
    /// are those last listed, of that collection's requests or of all
    /// collections.
    pub open spec fn position_consistent(self) -> bool {
        &&& self.show_collection_children ==> self.selected_collection.len() > 0
        &&& !self.show_collection_children ==> self.selected_collection.len() == 0
        &&& self.collections == self.listed.names
        &&& self.listed.parent == if self.show_collection_children {
            Some(self.selected_collection)
        } else {
            None
        }
    }

    /// What holds of the state at all times.
    pub open spec fn wf(self) -> bool {
        &&& self.cursor_in_bounds()
        &&& self.sub_focus_element < HEADER_FIELD_COUNT
        &&& 0 <= self.selected_tab < REQUEST_TAB_COUNT
        &&& 0 <= self.selected_response_tab < RESPONSE_TAB_COUNT
        &&& self.position_consistent()
        &&& selection_in_range(self.collection_window_list_state, self.collections.len() as int)
        &&& self.pending matches PendingView::EnterCollection { collection } ==> collection.len()
            > 0
    }

    /// The name under the highlight of the list, if the highlight is on one.
    pub open spec fn selected_value(self) -> Option<Seq<char>> {
        match self.collection_window_list_state.selected {
            Some(i) if i < self.collections.len() => Some(self.collections[i as int]),
            _ => None,
        }
    }

    /// The cursor one character to the left, if there is one.
    pub open spec fn move_cursor_left(self) -> AppView {
        AppView {
            character_index: clamped(
                if self.character_index > 0 {
                    self.character_index - 1
                } else {
                    0
                },
                self.input.len() as int,
            ),
            ..self
        }
    }

    /// The cursor one character to the right, if there is one.
    pub open spec fn move_cursor_right(self) -> AppView {
        AppView {
            character_index: clamped(self.character_index + 1, self.input.len() as int),
            ..self
        }
    }

    /// The input line copied into the buffer of the field that has the
    /// focus, while fields are being edited.
    pub open spec fn mirrored(self) -> AppView {
        if self.input_mode == InputMode::Insert {
            AppView {
                input_buffer: self.input_buffer.insert(self.sub_focus_element, self.input),
                ..self
            }
        } else {
            self
        }
    }

    /// `c` typed at the cursor.
    pub open spec fn enter_char(self, c: char) -> AppView {
        AppView {
            input: spec_insert_char(self.input, self.character_index, c),
            ..self
        }.move_cursor_right().mirrored()
    }

    /// The character in front of the cursor deleted. With the cursor at the
    /// start nothing changes.
    pub open spec fn delete_char(self) -> AppView {
        if self.character_index == 0 {
            self
        } else {
            AppView {
                input: spec_delete_before(self.input, self.character_index),
                ..self
            }.move_cursor_left().mirrored()
        }
    }

    /// The cursor at the start of the input line.
    pub open spec fn reset_cursor(self) -> AppView {
        AppView { character_index: 0, ..self }
    }

    /// The input line and the buffers of all fields emptied.
    pub open spec fn reset_input(self) -> AppView {
        AppView { input: Seq::empty(), character_index: 0, input_buffer: Map::empty(), ..self }
    }

    /// The state asking on the input line for what `operation` needs.
    pub open spec fn prompt(self, operation: WindowOperation) -> AppView {
        AppView {
            input_mode: InputMode::Control,
            input_strategy: InputStrategy::Prompt,
            current_operation: operation,
            ..self
        }
    }

    /// The notification `msg` shown.
    pub open spec fn show_popup(self, msg: Seq<char>) -> AppView {
        AppView { is_show_popup: true, popup_msg: msg, ..self }
    }

    /// The failure `reason` shown as a notification.
    pub open spec fn show_error(self, reason: Seq<char>) -> AppView {
        AppView { popup_type: LogTypes::Error, ..self.show_popup(reason) }
    }

    /// What Esc does: the notification closed, the input given up, and the
    /// keys navigating again.
    pub open spec fn cancel(self) -> AppView {
        AppView { is_show_popup: false, input_mode: InputMode::Normal, ..self }.reset_input()
    }

    /// The focus moved to the field `value`, with an empty input line.
    pub open spec fn update_sub_focus_element(self, value: u8) -> AppView {
        AppView { sub_focus_element: value, input: Seq::empty(), character_index: 0, ..self }
    }

    /// What Tab does: while the request's fields are edited, the focus moves
    /// to the next field, and from the last to the first.
    pub open spec fn handle_tab_key(self) -> AppView {
        if self.input_mode == InputMode::Insert && self.focused_window == FocusedWindow::Request
            && self.current_operation == WindowOperation::Edit {
            self.update_sub_focus_element(spec_next_field(self.sub_focus_element))
        } else {
            self
        }
    }

    /// The title of the input line, where it has one.
    pub open spec fn input_title(self) -> Option<Seq<char>> {
        match self.input_strategy {
            InputStrategy::Command => Some("Command"@),
            InputStrategy::Search => Some("Search"@),
            InputStrategy::Prompt => match self.current_operation {
                WindowOperation::Create => if self.show_collection_children {
                    Some("Request Name"@)
                } else {
                    Some("Collection Name"@)
                },
                WindowOperation::Delete => Some("Delete Collection [y/N]"@),
                _ => None,
            },
        }
    }

    /// The command that asks for the names that the list shows.
    pub open spec fn listing_command(self) -> CommandView {
        if self.show_collection_children {
            CommandView::ListChildren { collection: self.selected_collection }
        } else {
            CommandView::ListCollections
        }
    }

    /// The step that asks for the document of the request under the
    /// highlight, where the highlight is on one.
    pub open spec fn load_selected(self) -> Step {
        match self.selected_value() {
            Some(name) => Step {
                state: AppView { pending: PendingView::LoadDocument, ..self },
                command: CommandView::LoadRequest {
                    collection: self.selected_collection,
                    request: name,
                },
            },
            None => Step { state: self, command: CommandView::Continue },
        }
    }

    /// After a move in the list: inside a collection, the document of the
    /// request under the highlight is asked for.
    pub open spec fn load_if_entered(self) -> Step {
        if self.show_collection_children {
            self.load_selected()
        } else {
            Step { state: self, command: CommandView::Continue }
        }
    }

    /// The list with the given selection state, brought into the list.
    pub open spec fn with_selection(self, state: ListState) -> AppView {
        AppView {
            collection_window_list_state: spec_clamp(state, self.collections.len() as int),
            ..self
        }
    }

    /// The list scrolled so that the item at `offset` is the first one
    /// displayed. This is all that drawing the state changes of it.
    pub open spec fn scrolled_to(self, offset: usize) -> AppView {
        AppView {
            collection_window_list_state: ListState {
                offset,
                selected: self.collection_window_list_state.selected,
            },
            ..self
        }
    }

    /// The highlight of the list put on the first name.
    pub open spec fn select_first(self) -> AppView {
        self.with_selection(spec_select(self.collection_window_list_state, Some(0)))
    }

    /// A motion in the window of the collections.
    pub open spec fn collections_motion(self, motion: WindowMotion) -> Step {
        match motion {
            WindowMotion::Up => self.with_selection(
                spec_select(
                    self.collection_window_list_state,
                    Some(spec_next_index(self.collection_window_list_state.selected)),
                ),
            ).load_if_entered(),
            WindowMotion::Down => self.with_selection(
                spec_select(
                    self.collection_window_list_state,
                    Some(spec_previous_index(self.collection_window_list_state.selected)),
                ),
            ).load_if_entered(),
            WindowMotion::Left => if self.show_collection_children {
                Step {
                    state: AppView { pending: PendingView::LeaveCollection, ..self },
                    command: CommandView::ListCollections,
                }
            } else {
                Step { state: self.select_first(), command: CommandView::Continue }
            },
            WindowMotion::Right => if self.show_collection_children {
                self.select_first().load_if_entered()
            } else {
                match self.selected_value() {
                    Some(name) if name.len() > 0 => Step {
                        state: AppView {
                            pending: PendingView::EnterCollection { collection: name },
                            ..self
                        },
                        command: CommandView::ListChildren { collection: name },
                    },
                    _ => Step { state: self.select_first(), command: CommandView::Continue },
                }
            },
            _ => self.load_if_entered(),
        }
    }

    /// A motion in the window of the request.
    pub open spec fn request_motion(self, motion: WindowMotion) -> AppView {
        match motion {
            WindowMotion::Left => AppView {
                selected_tab: spec_wrap_decrement(self.selected_tab, REQUEST_TAB_COUNT as int),
                ..self
            },
            WindowMotion::Right => AppView {
                selected_tab: spec_wrap_increment(self.selected_tab, REQUEST_TAB_COUNT as int),
                ..self
            },
            WindowMotion::Down => AppView {
                vertical_scroll: if self.vertical_scroll == usize::MAX {
                    self.vertical_scroll
                } else {
                    (self.vertical_scroll + 1) as usize
                },
                ..self
            },
            _ => self,
        }
    }

    /// A motion in the window of the response.
    pub open spec fn response_motion(self, motion: WindowMotion) -> AppView {
        match motion {
            WindowMotion::Left => AppView {
                selected_response_tab: spec_wrap_decrement(
                    self.selected_response_tab,
                    RESPONSE_TAB_COUNT as int,
                ),
                ..self
            },
            WindowMotion::Right => AppView {
                selected_response_tab: spec_wrap_increment(
                    self.selected_response_tab,
                    RESPONSE_TAB_COUNT as int,
                ),
                ..self
            },
            _ => self,
        }
    }

    /// A motion in the window that has the focus.
    pub open spec fn select_collection_to_send_motion(self, motion: WindowMotion) -> Step {
        match self.focused_window {
            FocusedWindow::Collections => self.collections_motion(motion),
            FocusedWindow::Request => Step {
                state: self.request_motion(motion),
                command: CommandView::Continue,
            },
            FocusedWindow::Response => Step {
                state: self.response_motion(motion),
                command: CommandView::Continue,
            },
            FocusedWindow::Input => Step { state: self, command: CommandView::Continue },
        }
    }

    /// An operation that needs no further input, begun in the window that
    /// has the focus.
    pub open spec fn execute_operation_on_selected_window(
        self,
        operation: WindowOperation,
    ) -> Step {
        let begun = AppView { current_operation: operation, ..self };
        match (self.focused_window, operation) {
            (FocusedWindow::Collections, WindowOperation::Open) => {
                if self.show_collection_children && self.selected_value() is Some {
                    Step {
                        state: begun,
                        command: CommandView::OpenEditor {
                            collection: self.selected_collection,
                            request: self.selected_value()->0,
                        },
                    }
                } else {
                    Step { state: begun, command: CommandView::Continue }
                }
            },
            (FocusedWindow::Request, WindowOperation::Edit) => Step {
                state: AppView { input_mode: InputMode::Insert, ..begun },
                command: CommandView::Continue,
            },
            _ => Step { state: begun, command: CommandView::Continue },
        }
    }

    /// The step that hands a change of the store over and waits for word of it.
    pub open spec fn store_change(self, command: CommandView) -> Step {
        Step { state: AppView { pending: PendingView::StoreChange, ..self }, command }
    }

    /// An operation carried out on the answer `promt` to its question.
    pub open spec fn execute_operation_on_selected_window_with_promt(
        self,
        operation: WindowOperation,
        promt: Seq<char>,
    ) -> Step {
        match (self.focused_window, operation) {
            (FocusedWindow::Collections, WindowOperation::Create) => {
                if self.show_collection_children {
                    self.store_change(
                        CommandView::CreateRequest {
                            collection: self.selected_collection,
                            name: promt,
                            document: RequestView::template(),
                        },
                    )
                } else {
                    self.store_change(CommandView::CreateCollection { name: promt })
                }
            },
            (FocusedWindow::Collections, WindowOperation::Delete) => {
                if promt == "y"@ && self.selected_value() is Some {
                    if self.show_collection_children {
                        self.store_change(
                            CommandView::DeleteRequest {
                                collection: self.selected_collection,
                                name: self.selected_value()->0,
                            },
                        )
                    } else {
                        self.store_change(
                            CommandView::DeleteCollection { name: self.selected_value()->0 },
                        )
                    }
                } else {
                    Step { state: self, command: CommandView::Continue }
                }
            },
            _ => Step { state: self, command: CommandView::Unsupported },
        }
    }

    /// A line entered as a command or as a search; the two are read alike.
    /// The first word `q` leaves the program, and every other first word is
    /// answered with a notification. The answer to a prompt is not read here.
    pub open spec fn event_handler(self, input_strategy: InputStrategy, input: Seq<char>) -> Step {
        if input_strategy == InputStrategy::Command || input_strategy == InputStrategy::Search {
            if spec_first_token(input) == "q"@ {
                Step { state: self, command: CommandView::Exit }
            } else {
                Step {
                    state: self.show_popup("Command not found"@),
                    command: CommandView::Continue,
                }
            }
        } else {
            Step { state: self, command: CommandView::Continue }
        }
    }

    /// The input line submitted: it is read as the strategy says, and then
    /// emptied, with the keys navigating again.
    pub open spec fn submit_message(self) -> Step {
        let read = if self.input_strategy == InputStrategy::Prompt {
            self.execute_operation_on_selected_window_with_promt(
                self.current_operation,
                self.input,
            )
        } else {
            self.event_handler(self.input_strategy, self.input)
        };
        Step {
            state: AppView {
                input: Seq::empty(),
                character_index: 0,
                input_mode: InputMode::Normal,
                ..read.state
            },
            command: read.command,
        }
    }

    /// Whether Enter commits the fields that are being edited: the focus is
    /// on the button of the header editor, in a request that can be written.
    pub open spec fn commits_header(self) -> bool {
        &&& self.focused_window == FocusedWindow::Request
        &&& self.selected_tab == 0
        &&& self.sub_focus_element == HEADER_COMMIT_FIELD
        &&& self.show_collection_children
        &&& self.selected_value() is Some
        &&& spec_edit_headers(self.request_data, self.input_buffer) is Some
    }

    /// What Enter does while fields are edited.
    pub open spec fn handle_enter_on_insert_mode(self) -> Step {
        if self.commits_header() {
            Step {
                state: AppView { pending: PendingView::SaveDocument, ..self },
                command: CommandView::SaveRequest {
                    collection: self.selected_collection,
                    request: self.selected_value()->0,
                    document: spec_edit_headers(self.request_data, self.input_buffer)->0,
                },
            }
        } else {
            Step { state: self, command: CommandView::Continue }
        }
    }

    /// The state alone making a step, with nothing for the program around it
    /// to do.
    pub open spec fn quietly(self) -> Step {
        Step { state: self, command: CommandView::Continue }
    }

    /// A character key while the keys navigate.
    pub open spec fn normal_char(self, c: char, control: bool) -> Step {
        if c == 'c' {
            if control {
                Step { state: self, command: CommandView::Exit }
            } else {
                self.quietly()
            }
        } else if c == ':' {
            AppView {
                input_strategy: InputStrategy::Command,
                input_mode: InputMode::Control,
                ..self
            }.quietly()
        } else if c == '/' {
            AppView {
                input_strategy: InputStrategy::Search,
                input_mode: InputMode::Control,
                ..self
            }.quietly()
        } else if c == '1' {
            AppView { focused_window: FocusedWindow::Collections, ..self }.quietly()
        } else if c == '2' {
            AppView { focused_window: FocusedWindow::Request, ..self }.quietly()
        } else if c == '3' {
            AppView { focused_window: FocusedWindow::Response, ..self }.quietly()
        } else if c == 'k' {
            self.select_collection_to_send_motion(WindowMotion::Down)
        } else if c == 'j' {
            self.select_collection_to_send_motion(WindowMotion::Up)
        } else if c == 'h' {
            self.select_collection_to_send_motion(WindowMotion::Left)
        } else if c == 'l' {
            self.select_collection_to_send_motion(WindowMotion::Right)
        } else if c == 'a' {
            self.prompt(WindowOperation::Create).quietly()
        } else if c == 'd' {
            self.prompt(WindowOperation::Delete).quietly()
        } else if c == 'o' {
            self.execute_operation_on_selected_window(WindowOperation::Open)
        } else if c == 'i' {
            self.execute_operation_on_selected_window(WindowOperation::Edit)
        } else {
            self.quietly()
        }
    }

    /// A key while the keys navigate.
    pub open spec fn normal_key(self, key: KeyEvent) -> Step {
        match key.code {
            KeyCode::Char(c) => self.normal_char(c, key.control),
            KeyCode::Esc => self.cancel().quietly(),
            _ => self.quietly(),
        }
    }

    /// A key while the input line is edited.
    pub open spec fn control_key(self, key: KeyEvent) -> Step {
        if !key.pressed {
            self.quietly()
        } else {
            match key.code {
                KeyCode::Enter => self.submit_message(),
                KeyCode::Char(c) => self.enter_char(c).quietly(),
                KeyCode::Backspace => self.delete_char().quietly(),
                KeyCode::Left => self.move_cursor_left().quietly(),
                KeyCode::Right => self.move_cursor_right().quietly(),
                KeyCode::Esc => self.cancel().quietly(),
                _ => self.quietly(),
            }
        }
    }

    /// A key while fields are edited.
    pub open spec fn insert_key(self, key: KeyEvent) -> Step {
        if !key.pressed {
            self.quietly()
        } else {
            match key.code {
                KeyCode::Char(c) => self.enter_char(c).quietly(),
                KeyCode::Backspace => self.delete_char().quietly(),
                KeyCode::Esc => self.cancel().quietly(),
                KeyCode::Tab => self.handle_tab_key().quietly(),
                KeyCode::Enter => self.handle_enter_on_insert_mode(),
                _ => self.quietly(),
            }
        }
    }

    /// What a key does to the state. While a reply is awaited keys are
    /// not listened to.
    pub open spec fn handle_key(self, key: KeyEvent) -> Step {
        if !(self.pending is Idle) {
            self.quietly()
        } else {
            match self.input_mode {
                InputMode::Normal => self.normal_key(key),
                InputMode::Control => self.control_key(key),
                InputMode::Insert => self.insert_key(key),
            }
        }
    }

    /// The state showing the requests `names` of the collection `collection`.
    pub open spec fn entered(self, collection: Seq<char>, names: Seq<Seq<char>>) -> AppView {
        AppView {
            show_collection_children: true,
            selected_collection: collection,
            collections: names,
            listed: Listed { parent: Some(collection), names },
            pending: PendingView::Idle,
            ..self
        }.select_first()
    }

    /// The state showing the collections `names`.
    pub open spec fn left(self, names: Seq<Seq<char>>) -> AppView {
        AppView {
            show_collection_children: false,
            selected_collection: Seq::empty(),
            collections: names,
            listed: Listed { parent: None, names },
            pending: PendingView::Idle,
            ..self
        }.select_first()
    }

    /// The state showing `names` in place of the names it showed.
    pub open spec fn refreshed(self, names: Seq<Seq<char>>) -> AppView {
        AppView {
            collections: names,
            listed: Listed { parent: self.listed.parent, names },
            pending: PendingView::Idle,
            ..self
        }.with_selection(self.collection_window_list_state)
    }

    /// The state showing the document `document`, with no operation in
    /// progress and nothing typed into any field.
    pub open spec fn loaded(self, document: RequestView) -> AppView {
        AppView {
            request_data: document,
            current_operation: WindowOperation::Null,
            input_buffer: Map::empty(),
            pending: PendingView::Idle,
            ..self
        }
    }

    /// What the reply to the last command does to the state.
    pub open spec fn resume(self, reply: ReplyView) -> Step {
        match (self.pending, reply) {
            (PendingView::Idle, _) => self.quietly(),
            (PendingView::StoreChange, ReplyView::Failed(reason)) => Step {
                state: AppView { pending: PendingView::RefreshListing, ..self }.show_error(
                    reason,
                ),
                command: self.listing_command(),
            },
            (_, ReplyView::Failed(reason)) => AppView {
                pending: PendingView::Idle,
                ..self
            }.show_error(reason).quietly(),
            (PendingView::EnterCollection { collection }, ReplyView::Listing(names)) => self.entered(
                collection,
                names,
            ).load_if_entered(),
            (PendingView::LeaveCollection, ReplyView::Listing(names)) => self.left(
                names,
            ).quietly(),
            (PendingView::RefreshListing, ReplyView::Listing(names)) => self.refreshed(
                names,
            ).quietly(),
            (PendingView::StoreChange, ReplyView::Done) => Step {
                state: AppView { pending: PendingView::RefreshListing, ..self },
                command: self.listing_command(),
            },
            (PendingView::SaveDocument, ReplyView::Done) => AppView {
                pending: PendingView::Idle,
                ..self
            }.load_selected(),
            (PendingView::LoadDocument, ReplyView::Document(document)) => self.loaded(
                document,
            ).quietly(),
            _ => AppView { pending: PendingView::Idle, ..self }.show_error(
                "Unexpected reply"@,
            ).quietly(),
        }
    }

    /// The step that an event makes.
    pub open spec fn react(self, event: Event) -> Step {
        match event {
            Event::Key(key) => self.handle_key(key),
            Event::Reply(reply) => self.resume(reply),
        }
    }

    /// The state after the events, one after the other.
    pub open spec fn after(self, events: Seq<Event>) -> AppView
        decreases events.len(),
    {
        if events.len() == 0 {
            self
        } else {
            self.after(events.drop_last()).react(events.last()).state
        }
    }

    /// The state after one edit of the input line.
    pub open spec fn edit(self, edit: Edit) -> AppView {
        match edit {
            Edit::Enter(c) => self.enter_char(c),
            Edit::Delete => self.delete_char(),
        }
    }

    /// The state after the edits, one after the other.
    pub open spec fn edits(self, edits: Seq<Edit>) -> AppView
        decreases edits.len(),
    {
        if edits.len() == 0 {
            self
        } else {
            self.edits(edits.drop_last()).edit(edits.last())
        }
    }

    /// The state after Tab was pressed `presses` times.
    pub open spec fn tab_presses(self, presses: nat) -> AppView
        decreases presses,
    {
        if presses == 0 {
            self
        } else {
            self.tab_presses((presses - 1) as nat).handle_tab_key()
        }
    }
}

/// Whatever is typed and deleted, in whatever order, the cursor stays inside
/// the input line or at its end.
pub proof fn lemma_edits_keep_cursor_in_bounds(state: AppView, edits: Seq<Edit>)
    requires
        state.cursor_in_bounds(),
    ensures
        state.edits(edits).cursor_in_bounds(),
    decreases edits.len(),
{
    if edits.len() > 0 {
        lemma_edits_keep_cursor_in_bounds(state, edits.drop_last());
        lemma_edit_keeps_cursor_in_bounds(state.edits(edits.drop_last()), edits.last());
    }
}

/// One edit leaves the cursor inside the input line or at its end.
pub proof fn lemma_edit_keeps_cursor_in_bounds(state: AppView, edit: Edit)
    requires
        state.cursor_in_bounds(),
    ensures
        state.edit(edit).cursor_in_bounds(),
{
}

/// Deleting with the cursor at the start changes nothing at all.
pub proof fn lemma_delete_at_start_is_noop(state: AppView)
    requires
        state.character_index == 0,
    ensures
        state.delete_char() == state,
{
}

/// While the fields of a request are edited, pressing Tab again and again,
/// starting at the first field, visits the fields in turn and goes from the
/// last back to the first; the focus never leaves the fields.
pub proof fn lemma_tab_cycles(state: AppView, presses: nat)
    requires
        state.input_mode == InputMode::Insert,
        state.focused_window == FocusedWindow::Request,
        state.current_operation == WindowOperation::Edit,
        state.sub_focus_element == 0,
    ensures
        state.tab_presses(presses).sub_focus_element == presses % 3,
        state.tab_presses(presses).sub_focus_element <= 2,
        state.tab_presses(presses).input_mode == InputMode::Insert,
        state.tab_presses(presses).focused_window == FocusedWindow::Request,
        state.tab_presses(presses).current_operation == WindowOperation::Edit,
    decreases presses,
{
    if presses > 0 {
        lemma_tab_cycles(state, (presses - 1) as nat);
    }
}

/// Wherever the focus was, after Tab it is on one of the fields.
pub proof fn lemma_tab_stays_in_fields(state: AppView)
    requires
        state.sub_focus_element < HEADER_FIELD_COUNT,
    ensures
        state.handle_tab_key().sub_focus_element < HEADER_FIELD_COUNT,
{
}

/// Moving right from the last tab of the request window leads to the first,
/// and moving left from the first to the last; in between, the moves go one
/// tab on or back.
pub proof fn lemma_request_tabs_wrap(state: AppView)
    requires
        0 <= state.selected_tab < REQUEST_TAB_COUNT,
    ensures
        state.selected_tab == REQUEST_TAB_COUNT - 1 ==> state.request_motion(
            WindowMotion::Right,
        ).selected_tab == 0,
        state.selected_tab == 0 ==> state.request_motion(WindowMotion::Left).selected_tab
            == REQUEST_TAB_COUNT - 1,
        state.selected_tab < REQUEST_TAB_COUNT - 1 ==> state.request_motion(
            WindowMotion::Right,
        ).selected_tab == state.selected_tab + 1,
        state.selected_tab > 0 ==> state.request_motion(WindowMotion::Left).selected_tab
            == state.selected_tab - 1,
        state.request_motion(WindowMotion::Right).request_motion(WindowMotion::Left).selected_tab
            == state.selected_tab,
{
}

/// The same holds of the tabs of the response window.
pub proof fn lemma_response_tabs_wrap(state: AppView)
    requires
        0 <= state.selected_response_tab < RESPONSE_TAB_COUNT,
    ensures
        state.selected_response_tab == RESPONSE_TAB_COUNT - 1 ==> state.response_motion(
            WindowMotion::Right,
        ).selected_response_tab == 0,
        state.selected_response_tab == 0 ==> state.response_motion(
            WindowMotion::Left,
        ).selected_response_tab == RESPONSE_TAB_COUNT - 1,
        state.response_motion(WindowMotion::Right).response_motion(
            WindowMotion::Left,
        ).selected_response_tab == state.selected_response_tab,
{
}

/// The state in which the program starts is as a state has to be.
pub proof fn lemma_initial_wf(theme: Config, collections: Seq<Seq<char>>)
    ensures
        AppView::initial(theme, collections).wf(),
        AppView::initial(theme, collections).pending is Idle,
{
    lemma_clamp_in_range(ListState { offset: 0, selected: Some(0) }, collections.len() as int);
}

/// What holds of every step that a key makes from a state that is as a
/// state has to be: the state stays so, the names shown and the position in
/// the store are untouched, and, where no reply was awaited before, one is
/// awaited afterwards exactly when the command calls for one.
pub open spec fn key_step_ok(before: AppView, step: Step) -> bool {
    &&& step.state.wf()
    &&& step.state.collections == before.collections
    &&& step.state.show_collection_children == before.show_collection_children
    &&& step.state.selected_collection == before.selected_collection
    &&& step.state.listed == before.listed
    &&& before.pending is Idle ==> (step.command.awaits_reply() <==> !(step.state.pending
        is Idle))
    &&& !(before.pending is Idle) ==> step == before.quietly()
}

proof fn lemma_motion_ok(state: AppView, motion: WindowMotion)
    requires
        state.wf(),
        state.pending is Idle,
    ensures
        key_step_ok(state, state.select_collection_to_send_motion(motion)),
{
    let len = state.collections.len() as int;
    let list = state.collection_window_list_state;
    lemma_clamp_in_range(spec_select(list, Some(0)), len);
    lemma_clamp_in_range(spec_select(list, Some(spec_next_index(list.selected))), len);
    lemma_clamp_in_range(spec_select(list, Some(spec_previous_index(list.selected))), len);
}

proof fn lemma_operation_ok(state: AppView, operation: WindowOperation)
    requires
        state.wf(),
        state.pending is Idle,
    ensures
        key_step_ok(state, state.execute_operation_on_selected_window(operation)),
{
}

proof fn lemma_submit_ok(state: AppView)
    requires
        state.wf(),
        state.pending is Idle,
    ensures
        key_step_ok(state, state.submit_message()),
{
}

proof fn lemma_quiet_edits_ok(state: AppView, c: char)
    requires
        state.wf(),
        state.pending is Idle,
    ensures
        key_step_ok(state, state.enter_char(c).quietly()),
        key_step_ok(state, state.delete_char().quietly()),
        key_step_ok(state, state.move_cursor_left().quietly()),
        key_step_ok(state, state.move_cursor_right().quietly()),
        key_step_ok(state, state.cancel().quietly()),
        key_step_ok(state, state.handle_tab_key().quietly()),
        key_step_ok(state, state.handle_enter_on_insert_mode()),
        key_step_ok(state, state.quietly()),
{
}

proof fn lemma_normal_char_ok(state: AppView, c: char, control: bool)
    requires
        state.wf(),
        state.pending is Idle,
    ensures
        key_step_ok(state, state.normal_char(c, control)),
{
    lemma_motion_ok(state, WindowMotion::Down);
    lemma_motion_ok(state, WindowMotion::Up);
    lemma_motion_ok(state, WindowMotion::Left);
    lemma_motion_ok(state, WindowMotion::Right);
    lemma_operation_ok(state, WindowOperation::Open);
    lemma_operation_ok(state, WindowOperation::Edit);
}

/// No key takes the state out of what it has to be: the cursor stays in
/// bounds, the focus on a field, the tabs among the tabs, the highlight in
/// the list, and the names shown stay those last listed for the position in
/// the store.
pub proof fn lemma_handle_key_preserves_wf(state: AppView, key: KeyEvent)
    requires
        state.wf(),
    ensures
        key_step_ok(state, state.handle_key(key)),
{
    if state.pending is Idle {
        match state.input_mode {
            InputMode::Normal => {
                match key.code {
                    KeyCode::Char(c) => {
                        lemma_normal_char_ok(state, c, key.control);
                    },
                    _ => {
                        lemma_quiet_edits_ok(state, ' ');
                    },
                }
            },
            InputMode::Control => {
                lemma_submit_ok(state);
                match key.code {
                    KeyCode::Char(c) => {
                        lemma_quiet_edits_ok(state, c);
                    },
                    _ => {
                        lemma_quiet_edits_ok(state, ' ');
                    },
                }
            },
            InputMode::Insert => {
                match key.code {
                    KeyCode::Char(c) => {
                        lemma_quiet_edits_ok(state, c);
                    },
                    _ => {
                        lemma_quiet_edits_ok(state, ' ');
                    },
                }
            },
        }
    }
}

/// No reply takes the state out of what it has to be. In particular, after
/// every reply the names shown are those that the store listed last: the
/// requests of the collection that was entered, or else all collections.
pub proof fn lemma_resume_preserves_wf(state: AppView, reply: ReplyView)
    requires
        state.wf(),
    ensures
        state.resume(reply).state.wf(),
        state.resume(reply).command.awaits_reply() <==> !(state.resume(reply).state.pending
            is Idle),
{
    let list = state.collection_window_list_state;
    match reply {
        ReplyView::Listing(names) => {
            lemma_clamp_in_range(spec_select(list, Some(0)), names.len() as int);
            lemma_clamp_in_range(list, names.len() as int);
        },
        _ => {},
    }
}

/// Each single transition keeps the state as a state has to be, whether or
/// not a key led to it.
pub proof fn lemma_transitions_preserve_wf(state: AppView)
    requires
        state.wf(),
    ensures
        state.move_cursor_left().wf(),
        state.move_cursor_right().wf(),
        state.delete_char().wf(),
        state.reset_cursor().wf(),
        state.reset_input().wf(),
        state.cancel().wf(),
        state.handle_tab_key().wf(),
        state.submit_message().state.wf(),
        state.handle_enter_on_insert_mode().state.wf(),
        state.load_selected().state.wf(),
        forall|c: char| (#[trigger] state.enter_char(c)).wf(),
        forall|offset: usize| (#[trigger] state.scrolled_to(offset)).wf(),
        forall|operation: WindowOperation| (#[trigger] state.prompt(operation)).wf(),
        forall|msg: Seq<char>| (#[trigger] state.show_popup(msg)).wf(),
        forall|reason: Seq<char>| (#[trigger] state.show_error(reason)).wf(),
        forall|field: u8|
            field < HEADER_FIELD_COUNT ==> (#[trigger] state.update_sub_focus_element(field)).wf(),
        forall|motion: WindowMotion|
            (#[trigger] state.select_collection_to_send_motion(motion)).state.wf(),
        forall|operation: WindowOperation|
            (#[trigger] state.execute_operation_on_selected_window(operation)).state.wf(),
        forall|operation: WindowOperation, promt: Seq<char>|
            (#[trigger] state.execute_operation_on_selected_window_with_promt(
                operation,
                promt,
            )).state.wf(),
        forall|input_strategy: InputStrategy, input: Seq<char>|
            (#[trigger] state.event_handler(input_strategy, input)).state.wf(),
{
    let len = state.collections.len() as int;
    let list = state.collection_window_list_state;
    lemma_clamp_in_range(spec_select(list, Some(0)), len);
    lemma_clamp_in_range(spec_select(list, Some(spec_next_index(list.selected))), len);
    lemma_clamp_in_range(spec_select(list, Some(spec_previous_index(list.selected))), len);
}

/// Whatever keys are pressed and whatever replies come in, in whatever
/// order, the state that began as the program begins stays as a state has to
/// be. In particular a collection is shown as entered only while it is
/// named, and the names shown are always those that the store listed last
/// for the place that the state is in.
pub proof fn lemma_always_wf(theme: Config, collections: Seq<Seq<char>>, events: Seq<Event>)
    ensures
        AppView::initial(theme, collections).after(events).wf(),
    decreases events.len(),
{
    let start = AppView::initial(theme, collections);
    lemma_initial_wf(theme, collections);
    if events.len() > 0 {
        lemma_always_wf(theme, collections, events.drop_last());
        let before = start.after(events.drop_last());
        match events.last() {
            Event::Key(key) => lemma_handle_key_preserves_wf(before, key),
            Event::Reply(reply) => lemma_resume_preserves_wf(before, reply),
        }
    }
}

} // verus!
