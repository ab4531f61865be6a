use launcher_menu::state::AppState;

fn filled(names: &[&str]) -> AppState<String> {
    let mut st = AppState::new();
    st.apply_results(names.iter().map(|s| s.to_string()).collect());
    st
}

#[test]
fn new_state_is_empty() {
    let st: AppState<String> = AppState::new();
    assert_eq!(st.items.len(), 0);
    assert_eq!(st.selected, 0);
    assert_eq!(st.search, "");
    assert!(st.is_well_formed());
}

#[test]
fn selection_saturates_at_both_ends() {
    let mut st = filled(&["a", "b", "c"]);
    st.select_up();
    assert_eq!(st.selected, 0);
    st.select_down();
    st.select_down();
    assert_eq!(st.selected, 2);
    st.select_down();
    st.select_down();
    assert_eq!(st.selected, 2);
    st.select_up();
    assert_eq!(st.selected, 1);
}

#[test]
fn long_navigation_burst_stays_in_bounds() {
    let mut st = filled(&["a", "b", "c", "d"]);
    for i in 0..1000 {
        if i % 3 == 0 {
            st.select_up();
        } else {
            st.select_down();
        }
        assert!(st.selected < st.items.len());
        assert!(st.is_well_formed());
    }
}

#[test]
fn navigation_on_empty_list_stays_at_zero() {
    let mut st: AppState<String> = AppState::new();
    st.select_down();
    assert_eq!(st.selected, 0);
    st.select_up();
    assert_eq!(st.selected, 0);
    assert!(st.is_well_formed());
}

#[test]
fn set_search_leaves_items_and_cursor() {
    let mut st = filled(&["a", "b"]);
    st.select_down();
    st.set_search("query".to_string());
    assert_eq!(st.search, "query");
    assert_eq!(st.items, vec!["a".to_string(), "b".to_string()]);
    assert_eq!(st.selected, 1);
}

#[test]
fn apply_results_resets_cursor() {
    let mut st = filled(&["a", "b", "c"]);
    st.select_down();
    st.select_down();
    assert_eq!(st.selected, 2);
    st.apply_results(vec!["x".to_string()]);
    assert_eq!(st.selected, 0);
    assert_eq!(st.items, vec!["x".to_string()]);
}

#[test]
fn select_ignores_out_of_range_index() {
    let mut st = filled(&["a", "b"]);
    assert!(st.select(1));
    assert_eq!(st.selected, 1);
    assert!(!st.select(2));
    assert_eq!(st.selected, 1);
}

#[test]
fn commit_removes_the_selected_item() {
    let mut st = filled(&["a", "b", "c"]);
    st.select_down();
    let chosen = st.commit();
    assert_eq!(chosen, Some("b".to_string()));
    assert_eq!(st.items, vec!["a".to_string(), "c".to_string()]);
    assert!(st.is_well_formed());
}

#[test]
fn commit_on_empty_list_returns_nothing() {
    let mut st: AppState<String> = AppState::new();
    assert_eq!(st.commit(), None);
    assert_eq!(st.items.len(), 0);
}

#[test]
fn commit_of_last_item_pulls_cursor_back() {
    let mut st = filled(&["a", "b"]);
    st.select_down();
    let chosen = st.commit();
    assert_eq!(chosen, Some("b".to_string()));
    assert_eq!(st.selected, 0);
    assert!(st.is_well_formed());
}
