use launcher_menu::clock::{FrameClock, FRAME_PERIOD_MS};
use launcher_menu::debounce::Debouncer;
use launcher_menu::events::{AppEvent, InputEvent, Key};
use launcher_menu::layout::menu_height;
use launcher_menu::scheduler::Scheduler;
use launcher_menu::state::AppState;

fn fresh() -> Scheduler<String> {
    Scheduler::new(AppState::new())
}

#[test]
fn end_to_end_query_navigate_commit() {
    // items = [], selected = 0; type "fo"; after the debounce window the
    // search runs with "fo" and returns ["foo", "bar"]; Down then Enter
    // commits "bar" and ends the loop.
    let mut sched = fresh();
    let mut deb = Debouncer::new();
    assert_eq!(sched.app.items.len(), 0);
    assert_eq!(sched.app.selected, 0);

    let r = sched.handle_input(InputEvent::TextEdited("fo".to_string()));
    let query = match r {
        AppEvent::Search(q) => q,
        _ => panic!("a changed query must ask for a search"),
    };
    assert_eq!(query, "fo");
    deb.submit(query, 0);

    assert_eq!(deb.poll(99), None);
    let started = deb.poll(100).expect("debounce window elapsed");
    assert_eq!(started, "fo");

    // The host's search function answers.
    let results = vec!["foo".to_string(), "bar".to_string()];
    deb.on_search_complete(120);
    sched.on_search_result(results);
    assert_eq!(sched.app.items, vec!["foo".to_string(), "bar".to_string()]);
    assert_eq!(sched.app.selected, 0);
    assert!(sched.needs_redraw());

    let r = sched.handle_input(InputEvent::KeyPressed(Key::Down));
    assert!(matches!(r, AppEvent::Continue));
    assert_eq!(sched.app.selected, 1);

    let r = sched.handle_input(InputEvent::KeyPressed(Key::Return));
    assert!(matches!(r, AppEvent::Exit));
    assert!(!sched.is_running());
    assert_eq!(sched.into_selection(), Some("bar".to_string()));
}

#[test]
fn escape_cancels_without_selection() {
    let mut sched = fresh();
    sched.on_search_result(vec!["foo".to_string()]);
    let r = sched.handle_input(InputEvent::KeyPressed(Key::Escape));
    assert!(matches!(r, AppEvent::Exit));
    assert_eq!(sched.into_selection(), None);
}

#[test]
fn close_request_and_focus_loss_end_the_loop() {
    let mut sched = fresh();
    let r = sched.handle_input(InputEvent::CloseRequested);
    assert!(matches!(r, AppEvent::Exit));
    assert!(!sched.is_running());

    let mut sched = fresh();
    let r = sched.handle_input(InputEvent::FocusChanged(true));
    assert!(matches!(r, AppEvent::Continue));
    assert!(sched.is_running());
    let r = sched.handle_input(InputEvent::FocusChanged(false));
    assert!(matches!(r, AppEvent::Exit));
    assert_eq!(sched.into_selection(), None);
}

#[test]
fn commit_on_empty_list_ends_with_nothing() {
    let mut sched = fresh();
    let r = sched.handle_input(InputEvent::KeyPressed(Key::Return));
    assert!(matches!(r, AppEvent::Exit));
    assert_eq!(sched.into_selection(), None);
}

#[test]
fn unchanged_query_asks_for_no_search() {
    let mut sched = fresh();
    let r = sched.handle_input(InputEvent::TextEdited("ab".to_string()));
    assert!(matches!(r, AppEvent::Search(_)));
    let r = sched.handle_input(InputEvent::TextEdited("ab".to_string()));
    assert!(matches!(r, AppEvent::Continue));
    assert_eq!(sched.app.search, "ab");
}

#[test]
fn other_keys_are_ignored() {
    let mut sched = fresh();
    sched.on_search_result(vec!["a".to_string(), "b".to_string()]);
    sched.mark_rendered();
    let r = sched.handle_input(InputEvent::KeyPressed(Key::Other));
    assert!(matches!(r, AppEvent::Continue));
    assert!(!sched.needs_redraw());
    assert_eq!(sched.app.selected, 0);
}

#[test]
fn first_iteration_always_draws() {
    let mut sched = fresh();
    assert!(sched.needs_redraw());
    sched.mark_rendered();
    assert!(!sched.needs_redraw());
    sched.handle_input(InputEvent::KeyPressed(Key::Down));
    assert!(sched.needs_redraw());
}

#[test]
fn widget_selection_reports_move_the_cursor() {
    let mut sched = fresh();
    sched.on_search_result(vec!["a".to_string(), "b".to_string(), "c".to_string()]);
    sched.mark_rendered();
    let r = sched.handle_input(InputEvent::SelectionChanged(2));
    assert!(matches!(r, AppEvent::Continue));
    assert_eq!(sched.app.selected, 2);
    assert!(sched.needs_redraw());

    sched.mark_rendered();
    let r = sched.handle_input(InputEvent::SelectionChanged(9));
    assert!(matches!(r, AppEvent::Continue));
    assert_eq!(sched.app.selected, 2);
    assert!(!sched.needs_redraw());
}

#[test]
fn resize_events_are_parked_for_the_pipeline() {
    let mut sched = fresh();
    assert_eq!(sched.take_pending_resize(), None);
    sched.handle_input(InputEvent::Resized(1024, 768));
    sched.handle_input(InputEvent::ScaleFactorChanged(2048, 1536));
    assert_eq!(sched.take_pending_resize(), Some((2048, 1536)));
    assert_eq!(sched.take_pending_resize(), None);
}

#[test]
fn closed_search_channel_keeps_last_items() {
    let mut sched = fresh();
    sched.on_search_result(vec!["a".to_string()]);
    sched.on_results_closed();
    assert!(sched.results_closed);
    assert_eq!(sched.app.items, vec!["a".to_string()]);
    assert!(sched.is_running());
}

#[test]
fn frame_clock_ticks_at_its_cadence() {
    assert_eq!(FRAME_PERIOD_MS, 16);
    let mut clock = FrameClock::new(0, FRAME_PERIOD_MS);
    assert!(clock.due(0));
    clock.advance(0);
    assert!(!clock.due(15));
    assert!(clock.due(16));
    clock.advance(20);
    assert!(!clock.due(35));
    assert!(clock.due(36));
}

#[test]
fn window_height_fits_input_row_and_items() {
    assert_eq!(menu_height(0), 22);
    assert_eq!(menu_height(2), 58);
    assert_eq!(menu_height(10), 202);
}
