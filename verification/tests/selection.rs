use fetched::app::App;
use fetched::selection::ListState;
use fetched::theme::Config;

#[test]
fn default_list_state_selects_nothing() {
    let state = ListState::default();
    assert_eq!(state.offset, 0);
    assert_eq!(state.selected(), None);
}

#[test]
fn select_next_starts_at_the_first_item() {
    let mut state = ListState::default();
    state.select_next();
    assert_eq!(state.selected(), Some(0));
    state.select_next();
    assert_eq!(state.selected(), Some(1));
}

#[test]
fn select_next_stops_at_the_largest_index() {
    let mut state = ListState::default().with_selected(Some(usize::MAX));
    state.select_next();
    assert_eq!(state.selected(), Some(usize::MAX));
}

#[test]
fn select_previous_stops_at_the_first_item() {
    let mut state = ListState::default().with_selected(Some(2));
    state.select_previous();
    assert_eq!(state.selected(), Some(1));
    state.select_previous();
    state.select_previous();
    assert_eq!(state.selected(), Some(0));
}

#[test]
fn select_previous_without_selection_goes_to_the_largest_index() {
    let mut state = ListState::default();
    state.select_previous();
    assert_eq!(state.selected(), Some(usize::MAX));
}

#[test]
fn select_none_scrolls_back_to_the_top() {
    let mut state = ListState { offset: 4, selected: Some(6) };
    state.select(Some(5));
    assert_eq!(state, ListState { offset: 4, selected: Some(5) });
    state.select(None);
    assert_eq!(state, ListState { offset: 0, selected: None });
}

#[test]
fn moves_keep_the_offset() {
    let mut state = ListState { offset: 3, selected: Some(6) };
    state.select_next();
    assert_eq!(state, ListState { offset: 3, selected: Some(7) });
    state.select_previous();
    assert_eq!(state, ListState { offset: 3, selected: Some(6) });
}

#[test]
fn clamp_brings_the_selection_into_the_list() {
    let mut state = ListState { offset: 1, selected: Some(9) };
    state.clamp(4);
    assert_eq!(state, ListState { offset: 1, selected: Some(3) });
    state.clamp(4);
    assert_eq!(state, ListState { offset: 1, selected: Some(3) });
    state.clamp(0);
    assert_eq!(state, ListState { offset: 0, selected: None });
}

#[test]
fn clamp_leaves_no_selection_alone() {
    let mut state = ListState { offset: 2, selected: None };
    state.clamp(3);
    assert_eq!(state, ListState { offset: 2, selected: None });
}

#[test]
fn drawing_may_scroll_the_list_and_nothing_else() {
    let names = ["a", "b", "c"].iter().map(|name| name.to_string()).collect();
    let mut app = App::new(Config::default(), names);
    app.set_scroll_offset(2);
    assert_eq!(app.collection_window_list_state, ListState { offset: 2, selected: Some(0) });
    assert_eq!(app.collections, vec!["a", "b", "c"]);
    assert!(app.is_idle());
}
