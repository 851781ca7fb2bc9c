//! The modes, windows, motions and tabs that the application state is built from.

use vstd::prelude::*;
use vstd::string::*;

verus! {

/// Which keymap is active.
#[derive(Clone, Copy, Debug, PartialEq, Eq, Structural)]
pub enum InputMode {
    /// Keys navigate and start operations.
    Normal,
    /// Keys edit the fields of a composite widget.
    Insert,
    /// Keys edit the single input line.
    Control,
}

impl Default for InputMode {
    fn default() -> (value: Self)
        ensures
            value == InputMode::Normal,
    {
        InputMode::Normal
    }
}

impl InputMode {
    /// The name of the mode as it is shown to the user.
    pub open spec fn label(self) -> Seq<char> {
        match self {
            InputMode::Normal => "Normal"@,
            InputMode::Insert => "Insert"@,
            InputMode::Control => "Control"@,
        }
    }

    /// The name of the mode as it is shown to the user.
    pub fn to_string(&self) -> (name: String)
        ensures
            name@ == self.label(),
    {
        match self {
            InputMode::Normal => String::from_str("Normal"),
            InputMode::Insert => String::from_str("Insert"),
            InputMode::Control => String::from_str("Control"),
        }
    }
}

/// How the input line is read when it is submitted.
#[derive(Clone, Copy, Debug, PartialEq, Eq, Structural)]
pub enum InputStrategy {
    /// Entered with `/`.
    Search,
    /// Entered with `:`.
    Command,
    /// The line answers the question of a pending operation.
    Prompt,
}

impl Default for InputStrategy {
    fn default() -> (value: Self)
        ensures
            value == InputStrategy::Search,
    {
        InputStrategy::Search
    }
}

/// The window that owns the motion keys.
#[derive(Clone, Copy, Debug, PartialEq, Eq, Structural)]
pub enum FocusedWindow {
    Collections,
    Request,
    Response,
    Input,
}

impl Default for FocusedWindow {
    fn default() -> (value: Self)
        ensures
            value == FocusedWindow::Collections,
    {
        FocusedWindow::Collections
    }
}

impl FocusedWindow {
    /// The name of the window as it is shown to the user.
    pub open spec fn label(self) -> Seq<char> {
        match self {
            FocusedWindow::Collections => "Collections"@,
            FocusedWindow::Request => "Request"@,
            FocusedWindow::Response => "Response"@,
            FocusedWindow::Input => "Input"@,
        }
    }

    /// The name of the window as it is shown to the user.
    pub fn to_string(&self) -> (name: String)
        ensures
            name@ == self.label(),
    {
        match self {
            FocusedWindow::Collections => String::from_str("Collections"),
            FocusedWindow::Request => String::from_str("Request"),
            FocusedWindow::Response => String::from_str("Response"),
            FocusedWindow::Input => String::from_str("Input"),
        }
    }
}

/// A move inside the focused window.
#[derive(Clone, Copy, Debug, PartialEq, Eq, Structural)]
pub enum WindowMotion {
    Up,
    Down,
    Left,
    Right,
    Expand,
    Collapse,
}

/// An operation on what the focused window shows.
#[derive(Clone, Copy, Debug, PartialEq, Eq, Structural)]
pub enum WindowOperation {
    Create,
    Delete,
    Rename,
    Edit,
    Open,
    /// No operation is in progress.
    Null,
}

impl Default for WindowOperation {
    fn default() -> (value: Self)
        ensures
            value == WindowOperation::Create,
    {
        WindowOperation::Create
    }
}

/// The kinds of widget that the theme has colours for.
#[derive(Clone, Copy, Debug, PartialEq, Eq, Structural)]
pub enum WidgetType {
    Paragraph,
    Tab,
    List,
}

/// Whether a widget is drawn as focused.
#[derive(Clone, Copy, Debug, PartialEq, Eq, Structural)]
pub enum ThemeState {
    Focus,
    Normal,
}

/// The colours that a theme gives for each state.
#[derive(Clone, Copy, Debug, PartialEq, Eq, Structural)]
pub enum ThemeAttribute {
    Foreground,
    Background,
    Highlight,
    Border,
}

/// Where in its parent a container is placed.
#[derive(Clone, Copy, Debug, PartialEq, Eq, Structural)]
pub enum ContainerPositions {
    Top,
    Bottom,
    Middle,
    Center,
    TopCenter,
    BottomCenter,
    MiddleCenter,
    CenterCenter,
    Full,
}

/// The direction in which a layout splits its area.
#[derive(Clone, Copy, Debug, PartialEq, Eq, Structural)]
pub enum LayoutOrientation {
    Vertical,
    Horizontal,
}

/// The kind of a notification.
#[derive(Clone, Copy, Debug, PartialEq, Eq, Structural)]
pub enum LogTypes {
    Info,
    Error,
}

impl Default for LogTypes {
    fn default() -> (value: Self)
        ensures
            value == LogTypes::Info,
    {
        LogTypes::Info
    }
}

impl LogTypes {
    /// The name of the kind as it is shown to the user.
    pub open spec fn label(self) -> Seq<char> {
        match self {
            LogTypes::Info => "Info"@,
            LogTypes::Error => "Error"@,
        }
    }

    /// The name of the kind as it is shown to the user.
    pub fn to_string(&self) -> (name: String)
        ensures
            name@ == self.label(),
    {
        match self {
            LogTypes::Info => String::from_str("Info"),
            LogTypes::Error => String::from_str("Error"),
        }
    }

    /// The kind with the given position in the declaration.
    pub fn from_repr(discriminant: usize) -> (kind: Option<Self>)
        ensures
            kind == if discriminant == 0 {
                Some(LogTypes::Info)
            } else if discriminant == 1 {
                Some(LogTypes::Error)
            } else {
                None
            },
    {
        if discriminant == 0 {
            Some(LogTypes::Info)
        } else if discriminant == 1 {
            Some(LogTypes::Error)
        } else {
            None
        }
    }
}

/// The tabs of the request window, in the order in which they are shown.
#[derive(Clone, Copy, Debug, PartialEq, Eq, Structural)]
pub enum RequestWidgetTabs {
    Header,
    Body,
    Query,
    Authentication,
}

impl Default for RequestWidgetTabs {
    fn default() -> (value: Self)
        ensures
            value == RequestWidgetTabs::Header,
    {
        RequestWidgetTabs::Header
    }
}

/// How many tabs the request window has.
pub const REQUEST_TAB_COUNT: usize = 4;

/// How many tabs the response window has.
pub const RESPONSE_TAB_COUNT: usize = 2;

impl RequestWidgetTabs {
    /// The title of the tab.
    pub open spec fn label(self) -> Seq<char> {
        match self {
            RequestWidgetTabs::Header => "Header"@,
            RequestWidgetTabs::Body => "Body"@,
            RequestWidgetTabs::Query => "Query"@,
            RequestWidgetTabs::Authentication => "Authentication"@,
        }
    }

    /// The position of the tab among the tabs.
    pub open spec fn index(self) -> int {
        match self {
            RequestWidgetTabs::Header => 0,
            RequestWidgetTabs::Body => 1,
            RequestWidgetTabs::Query => 2,
            RequestWidgetTabs::Authentication => 3,
        }
    }

    /// The title of the tab.
    pub fn to_string(&self) -> (name: String)
        ensures
            name@ == self.label(),
    {
        match self {
            RequestWidgetTabs::Header => String::from_str("Header"),
            RequestWidgetTabs::Body => String::from_str("Body"),
            RequestWidgetTabs::Query => String::from_str("Query"),
            RequestWidgetTabs::Authentication => String::from_str("Authentication"),
        }
    }

    /// The tab at the given position, if there is one.
    pub fn from_repr(discriminant: usize) -> (tab: Option<Self>)
        ensures
            discriminant < REQUEST_TAB_COUNT <==> tab is Some,
            tab matches Some(t) ==> t.index() == discriminant,
    {
        if discriminant == 0 {
            Some(RequestWidgetTabs::Header)
        } else if discriminant == 1 {
            Some(RequestWidgetTabs::Body)
        } else if discriminant == 2 {
            Some(RequestWidgetTabs::Query)
        } else if discriminant == 3 {
            Some(RequestWidgetTabs::Authentication)
        } else {
            None
        }
    }

    /// All tabs, in the order in which they are shown.
    pub fn variants() -> (tabs: Vec<Self>)
        ensures
            tabs@.len() == REQUEST_TAB_COUNT,
            forall|i: int| 0 <= i < tabs@.len() ==> (#[trigger] tabs@[i]).index() == i,
    {
        vec![
            RequestWidgetTabs::Header,
            RequestWidgetTabs::Body,
            RequestWidgetTabs::Query,
            RequestWidgetTabs::Authentication,
        ]
    }
}

/// The tabs of the response window, in the order in which they are shown.
#[derive(Clone, Copy, Debug, PartialEq, Eq, Structural)]
pub enum ResponseWidgetTabs {
    ResponseBody,
    ResponseHeader,
}

impl ResponseWidgetTabs {
    /// The title of the tab.
    pub open spec fn label(self) -> Seq<char> {
        match self {
            ResponseWidgetTabs::ResponseBody => "Body"@,
            ResponseWidgetTabs::ResponseHeader => "Header"@,
        }
    }

    /// The position of the tab among the tabs.
    pub open spec fn index(self) -> int {
        match self {
            ResponseWidgetTabs::ResponseBody => 0,
            ResponseWidgetTabs::ResponseHeader => 1,
        }
    }

    /// The title of the tab.
    pub fn to_string(&self) -> (name: String)
        ensures
            name@ == self.label(),
    {
        match self {
            ResponseWidgetTabs::ResponseBody => String::from_str("Body"),
            ResponseWidgetTabs::ResponseHeader => String::from_str("Header"),
        }
    }

    /// The tab at the given position, if there is one.
    pub fn from_repr(discriminant: usize) -> (tab: Option<Self>)
        ensures
            discriminant < RESPONSE_TAB_COUNT <==> tab is Some,
            tab matches Some(t) ==> t.index() == discriminant,
    {
        if discriminant == 0 {
            Some(ResponseWidgetTabs::ResponseBody)
        } else if discriminant == 1 {
            Some(ResponseWidgetTabs::ResponseHeader)
        } else {
            None
        }
    }

    /// All tabs, in the order in which they are shown.
    pub fn variants() -> (tabs: Vec<Self>)
        ensures
            tabs@.len() == RESPONSE_TAB_COUNT,
            forall|i: int| 0 <= i < tabs@.len() ==> (#[trigger] tabs@[i]).index() == i,
    {
        vec![ResponseWidgetTabs::ResponseBody, ResponseWidgetTabs::ResponseHeader]
    }
}

} // verus!
