use fetched::enums::{ThemeState, WidgetType};
use fetched::theme::{
    match_color_theme_for_widgets, set_border_style, set_button_block, set_button_style,
    set_input_block, Colors, Config, WidgetStyle,
};

fn theme() -> Config {
    Config {
        focus: Colors { foreground: 0x11, background: 0x12, highlight: 0x13, border: 0x14 },
        normal: Colors { foreground: 0x21, background: 0x22, highlight: 0x23, border: 0x24 },
    }
}

#[test]
fn default_theme_is_black() {
    let theme = Config::default();
    assert_eq!(theme.focus, Colors { foreground: 0, background: 0, highlight: 0, border: 0 });
    assert_eq!(theme.normal, Colors::default());
}

#[test]
fn border_is_highlighted_for_the_focused_window() {
    assert_eq!(
        set_border_style(true, theme()),
        WidgetStyle { foreground: Some(0x13), background: None }
    );
    assert_eq!(set_border_style(false, theme()), WidgetStyle { foreground: None, background: None });
}

#[test]
fn list_in_focus_has_foreground_and_highlight() {
    assert_eq!(
        match_color_theme_for_widgets(theme(), ThemeState::Focus, WidgetType::List),
        Some(WidgetStyle { foreground: Some(0x11), background: Some(0x13) })
    );
    assert_eq!(
        match_color_theme_for_widgets(theme(), ThemeState::Normal, WidgetType::List),
        Some(WidgetStyle { foreground: Some(0x21), background: None })
    );
}

#[test]
fn tabs_take_the_foreground_of_their_state() {
    assert_eq!(
        match_color_theme_for_widgets(theme(), ThemeState::Focus, WidgetType::Tab),
        Some(WidgetStyle { foreground: Some(0x11), background: None })
    );
    assert_eq!(
        match_color_theme_for_widgets(theme(), ThemeState::Normal, WidgetType::Tab),
        Some(WidgetStyle { foreground: Some(0x21), background: None })
    );
}

#[test]
fn paragraph_has_a_style_only_in_focus() {
    assert_eq!(
        match_color_theme_for_widgets(theme(), ThemeState::Focus, WidgetType::Paragraph),
        Some(WidgetStyle { foreground: Some(0x11), background: None })
    );
    assert_eq!(
        match_color_theme_for_widgets(theme(), ThemeState::Normal, WidgetType::Paragraph),
        None
    );
}

#[test]
fn inputs_and_buttons_take_the_border_of_their_state() {
    assert_eq!(set_input_block(true, theme()), 0x14);
    assert_eq!(set_input_block(false, theme()), 0x24);
    assert_eq!(set_button_block(true, theme()), 0x14);
    assert_eq!(set_button_block(false, theme()), 0x24);
    assert_eq!(
        set_button_style(true, theme()),
        WidgetStyle { foreground: Some(0x11), background: None }
    );
    assert_eq!(
        set_button_style(false, theme()),
        WidgetStyle { foreground: Some(0x21), background: None }
    );
}
