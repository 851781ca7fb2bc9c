//! The colours of the interface and which of them each widget is drawn with.

use vstd::prelude::*;

use crate::enums::{ThemeState, WidgetType};

verus! {

/// The colours of one state of the interface, each a 24-bit RGB value.
#[derive(Clone, Copy, Debug, PartialEq, Eq, Structural)]
pub struct Colors {
    pub foreground: u32,
    pub background: u32,
    pub highlight: u32,
    pub border: u32,
}

impl Default for Colors {
    fn default() -> (colors: Self)
        ensures
            colors == (Colors { foreground: 0, background: 0, highlight: 0, border: 0 }),
    {
        Colors { foreground: 0, background: 0, highlight: 0, border: 0 }
    }
}

/// The theme: the colours of what has the focus and of everything else.
#[derive(Clone, Copy, Debug, PartialEq, Eq, Structural)]
pub struct Config {
    pub focus: Colors,
    pub normal: Colors,
}

impl Default for Config {
    fn default() -> (theme: Self)
        ensures
            theme.focus == (Colors { foreground: 0, background: 0, highlight: 0, border: 0 }),
            theme.normal == theme.focus,
    {
        Config { focus: Colors::default(), normal: Colors::default() }
    }
}

/// The colours that a widget is drawn with. A colour that is not set is left
/// to the terminal.
#[derive(Clone, Copy, Debug, PartialEq, Eq, Structural)]
pub struct WidgetStyle {
    pub foreground: Option<u32>,
    pub background: Option<u32>,
}

/// The style that the theme gives a widget in a state. The theme has none for
/// a paragraph without focus.
pub open spec fn spec_widget_style(theme: Config, theme_state: ThemeState, widget: WidgetType)
    -> Option<WidgetStyle> {
    match (widget, theme_state) {
        (WidgetType::Paragraph, ThemeState::Focus) => Some(
            WidgetStyle { foreground: Some(theme.focus.foreground), background: None },
        ),
        (WidgetType::Paragraph, ThemeState::Normal) => None,
        (WidgetType::Tab, ThemeState::Focus) => Some(
            WidgetStyle { foreground: Some(theme.focus.foreground), background: None },
        ),
        (WidgetType::Tab, ThemeState::Normal) => Some(
            WidgetStyle { foreground: Some(theme.normal.foreground), background: None },
        ),
        (WidgetType::List, ThemeState::Focus) => Some(
            WidgetStyle {
                foreground: Some(theme.focus.foreground),
                background: Some(theme.focus.highlight),
            },
        ),
        (WidgetType::List, ThemeState::Normal) => Some(
            WidgetStyle { foreground: Some(theme.normal.foreground), background: None },
        ),
    }
}

/// The style of a window's border: highlighted where the window has the focus.
pub fn set_border_style(is_window_selected: bool, theme: Config) -> (style: WidgetStyle)
    ensures
        style.background is None,
        style.foreground == if is_window_selected {
            Some(theme.focus.highlight)
        } else {
            None
        },
{
    if is_window_selected {
        WidgetStyle { foreground: Some(theme.focus.highlight), background: None }
    } else {
        WidgetStyle { foreground: None, background: None }
    }
}

/// The style that the theme gives a widget in a state.
pub fn match_color_theme_for_widgets(theme: Config, theme_state: ThemeState, widget: WidgetType)
    -> (style: Option<WidgetStyle>)
    ensures
        style == spec_widget_style(theme, theme_state, widget),
{
    match widget {
        WidgetType::Paragraph => match theme_state {
            ThemeState::Focus => Some(
                WidgetStyle { foreground: Some(theme.focus.foreground), background: None },
            ),
            ThemeState::Normal => None,
        },
        WidgetType::Tab => match theme_state {
            ThemeState::Focus => Some(
                WidgetStyle { foreground: Some(theme.focus.foreground), background: None },
            ),
            ThemeState::Normal => Some(
                WidgetStyle { foreground: Some(theme.normal.foreground), background: None },
            ),
        },
        WidgetType::List => match theme_state {
            ThemeState::Focus => Some(
                WidgetStyle {
                    foreground: Some(theme.focus.foreground),
                    background: Some(theme.focus.highlight),
                },
            ),
            ThemeState::Normal => Some(
                WidgetStyle { foreground: Some(theme.normal.foreground), background: None },
            ),
        },
    }
}

/// The colour of the border of an input field.
pub fn set_input_block(is_focused: bool, theme: Config) -> (border: u32)
    ensures
        border == if is_focused {
            theme.focus.border
        } else {
            theme.normal.border
        },
{
    if is_focused {
        theme.focus.border
    } else {
        theme.normal.border
    }
}

/// The colour of the border of a button.
pub fn set_button_block(is_focused: bool, theme: Config) -> (border: u32)
    ensures
        border == if is_focused {
            theme.focus.border
        } else {
            theme.normal.border
        },
{
    if is_focused {
        theme.focus.border
    } else {
        theme.normal.border
    }
}

/// The style of the label of a button.
pub fn set_button_style(is_focused: bool, theme: Config) -> (style: WidgetStyle)
    ensures
        style.background is None,
        style.foreground == Some(
            if is_focused {
                theme.focus.foreground
            } else {
                theme.normal.foreground
            },
        ),
{
    if is_focused {
        WidgetStyle { foreground: Some(theme.focus.foreground), background: None }
    } else {
        WidgetStyle { foreground: Some(theme.normal.foreground), background: None }
    }
}

} // verus!
