//! What passes between the application state and the program around it.
//!
//! The state never touches the disk, the terminal or another process. Where
//! a key calls for such work, handling the key returns a [`Command`]; the
//! program around the state carries it out and hands back a [`Reply`], upon
//! which the state finishes what the key began. While a reply is awaited the
//! state says so in its [`Pending`] field.

use vstd::prelude::*;

use crate::request::{RequestStructure, RequestView};

verus! {

/// The texts of a list of names.
pub open spec fn names_view(names: Seq<String>) -> Seq<Seq<char>> {
    names.map_values(|name: String| name@)
}

/// What the program around the state has to do next.
#[derive(Debug)]
pub enum Command {
    /// Nothing: draw the state and read the next key.
    Continue,
    /// The key asked for an operation that the focused window does not have.
    Unsupported,
    /// Leave the program.
    Exit,
    /// Open the request in the editor, wait until the editor is closed, and
    /// go on. No reply is awaited.
    OpenEditor { collection: String, request: String },
    /// Reply with the names of all collections.
    ListCollections,
    /// Reply with the names of the requests in the collection.
    ListChildren { collection: String },
    /// Reply with the document of the request.
    LoadRequest { collection: String, request: String },
    /// Write the document in place of the request's, and reply when done.
    SaveRequest { collection: String, request: String, document: RequestStructure },
    /// Create a collection, and reply when done.
    CreateCollection { name: String },
    /// Create a request that holds the document, and reply when done.
    CreateRequest { collection: String, name: String, document: RequestStructure },
    /// Delete a collection, and reply when done.
    DeleteCollection { name: String },
    /// Delete a request, and reply when done.
    DeleteRequest { collection: String, name: String },
}

/// What a [`Command`] holds, with texts as sequences of characters.
pub enum CommandView {
    Continue,
    Unsupported,
    Exit,
    OpenEditor { collection: Seq<char>, request: Seq<char> },
    ListCollections,
    ListChildren { collection: Seq<char> },
    LoadRequest { collection: Seq<char>, request: Seq<char> },
    SaveRequest { collection: Seq<char>, request: Seq<char>, document: RequestView },
    CreateCollection { name: Seq<char> },
    CreateRequest { collection: Seq<char>, name: Seq<char>, document: RequestView },
    DeleteCollection { name: Seq<char> },
    DeleteRequest { collection: Seq<char>, name: Seq<char> },
}

impl View for Command {
    type V = CommandView;

    open spec fn view(&self) -> CommandView {
        match *self {
            Command::Continue => CommandView::Continue,
            Command::Unsupported => CommandView::Unsupported,
            Command::Exit => CommandView::Exit,
            Command::OpenEditor { collection, request } => CommandView::OpenEditor {
                collection: collection@,
                request: request@,
            },
            Command::ListCollections => CommandView::ListCollections,
            Command::ListChildren { collection } => CommandView::ListChildren {
                collection: collection@,
            },
            Command::LoadRequest { collection, request } => CommandView::LoadRequest {
                collection: collection@,
                request: request@,
            },
            Command::SaveRequest { collection, request, document } => CommandView::SaveRequest {
                collection: collection@,
                request: request@,
                document: document@,
            },
            Command::CreateCollection { name } => CommandView::CreateCollection { name: name@ },
            Command::CreateRequest { collection, name, document } => CommandView::CreateRequest {
                collection: collection@,
                name: name@,
                document: document@,
            },
            Command::DeleteCollection { name } => CommandView::DeleteCollection { name: name@ },
            Command::DeleteRequest { collection, name } => CommandView::DeleteRequest {
                collection: collection@,
                name: name@,
            },
        }
    }
}

impl CommandView {
    /// Whether the command is answered with a [`Reply`].
    pub open spec fn awaits_reply(self) -> bool {
        !(self is Continue || self is Unsupported || self is Exit || self is OpenEditor)
    }
}

impl Command {
    /// Whether the command is answered with a [`Reply`].
    pub fn awaits_reply(&self) -> (awaited: bool)
        ensures
            awaited == self@.awaits_reply(),
    {
        match self {
            Command::Continue => false,
            Command::Unsupported => false,
            Command::Exit => false,
            Command::OpenEditor { .. } => false,
            _ => true,
        }
    }
}

/// The answer to a [`Command`].
#[derive(Debug)]
pub enum Reply {
    /// The work was done.
    Done,
    /// The work could not be done, for the reason given.
    Failed(String),
    /// The names that were asked for.
    Listing(Vec<String>),
    /// The document that was asked for.
    Document(RequestStructure),
}

/// What a [`Reply`] holds, with texts as sequences of characters.
pub enum ReplyView {
    Done,
    Failed(Seq<char>),
    Listing(Seq<Seq<char>>),
    Document(RequestView),
}

impl View for Reply {
    type V = ReplyView;

    open spec fn view(&self) -> ReplyView {
        match *self {
            Reply::Done => ReplyView::Done,
            Reply::Failed(reason) => ReplyView::Failed(reason@),
            Reply::Listing(names) => ReplyView::Listing(names_view(names@)),
            Reply::Document(document) => ReplyView::Document(document@),
        }
    }
}

/// The reply that the state is waiting for, and what it is for.
#[derive(Debug)]
pub enum Pending {
    /// Nothing is awaited: the state may be drawn and the next key read.
    Idle,
    /// The requests of the collection, to show them in place of the collections.
    EnterCollection { collection: String },
    /// The collections, to show them again in place of a collection's requests.
    LeaveCollection,
    /// Word that something was created or deleted, after which the list is
    /// brought up to date.
    StoreChange,
    /// The names that the list shows, brought up to date.
    RefreshListing,
    /// The document of the selected request.
    LoadDocument,
    /// Word that the document was written, after which it is read back.
    SaveDocument,
}

/// What a [`Pending`] holds, with texts as sequences of characters.
pub enum PendingView {
    Idle,
    EnterCollection { collection: Seq<char> },
    LeaveCollection,
    StoreChange,
    RefreshListing,
    LoadDocument,
    SaveDocument,
}

impl View for Pending {
    type V = PendingView;

    open spec fn view(&self) -> PendingView {
        match *self {
            Pending::Idle => PendingView::Idle,
            Pending::EnterCollection { collection } => PendingView::EnterCollection {
                collection: collection@,
            },
            Pending::LeaveCollection => PendingView::LeaveCollection,
            Pending::StoreChange => PendingView::StoreChange,
            Pending::RefreshListing => PendingView::RefreshListing,
            Pending::LoadDocument => PendingView::LoadDocument,
            Pending::SaveDocument => PendingView::SaveDocument,
        }
    }
}

/// The keys that the state tells apart.
#[derive(Clone, Copy, Debug, PartialEq, Eq)]
pub enum KeyCode {
    Char(char),
    Enter,
    Backspace,
    Left,
    Right,
    Esc,
    Tab,
    /// Any other key.
    Other,
}

/// One event of the keyboard.
#[derive(Clone, Copy, Debug, PartialEq, Eq)]
pub struct KeyEvent {
    pub code: KeyCode,
    /// Whether Control, and no other modifier, was held.
    pub control: bool,
    /// Whether the key went down, rather than up or into repeat.
    pub pressed: bool,
}

} // verus!
