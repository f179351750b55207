use procview::controller::App;
use procview::controller::AppState;
use procview::controller::Key;
use procview::controller::ITEM_HEIGHT;
use procview::record::ProcessRecord;

fn record(pid: u32, name: &str) -> ProcessRecord {
    ProcessRecord {
        pid,
        name: name.to_string(),
        cpu_usage: "0".to_string(),
        memory: 0,
    }
}

fn pids(app: &App) -> Vec<u32> {
    app.items.iter().map(|r| r.pid).collect()
}

fn loaded(names: &[(u32, &str)]) -> App {
    let mut app = App::new();
    let records = names.iter().map(|(p, n)| record(*p, n)).collect();
    app.load_snapshot(records);
    app
}

fn buffer_string(app: &App) -> String {
    app.input.iter().collect()
}

#[test]
fn new_controller_is_empty_and_browsing() {
    let app = App::new();
    assert!(app.items.is_empty());
    assert_eq!(app.selection, None);
    assert_eq!(app.mode, AppState::ProcessMode);
    assert!(!app.show_popup);
    assert!(app.input.is_empty());
    assert_eq!(app.character_index, 0);
    assert!(app.messages.is_empty());
}

#[test]
fn selection_stays_in_range_over_navigation() {
    let mut app = loaded(&[(1, "a"), (2, "b"), (3, "c")]);
    let steps = [true, true, false, true, false, false, true, true, true, false];
    for &forward in steps.iter() {
        if forward {
            app.next();
        } else {
            app.previous();
        }
        let sel = app.selection.expect("non-empty list must keep a selection");
        assert!(sel < app.items.len());
    }
}

#[test]
fn navigation_on_empty_list_is_noop() {
    let mut app = App::new();
    app.next();
    assert_eq!(app.selection, None);
    app.previous();
    assert_eq!(app.selection, None);
}

#[test]
fn next_then_previous_roundtrip() {
    for start in 0..3usize {
        let mut app = loaded(&[(1, "a"), (2, "b"), (3, "c")]);
        app.selection = Some(start);
        app.next();
        app.previous();
        assert_eq!(app.selection, Some(start));
        app.previous();
        app.next();
        assert_eq!(app.selection, Some(start));
    }
}

#[test]
fn wrap_from_last_row_to_first() {
    let mut app = loaded(&[(1, "a"), (2, "b"), (3, "c")]);
    app.selection = Some(2);
    app.next();
    assert_eq!(app.selection, Some(0));
}

#[test]
fn wrap_from_first_row_to_last() {
    let mut app = loaded(&[(1, "a"), (2, "b"), (3, "c")]);
    app.selection = Some(0);
    app.previous();
    assert_eq!(app.selection, Some(2));
}

#[test]
fn single_row_navigation_stays_put() {
    let mut app = loaded(&[(7, "only")]);
    app.next();
    assert_eq!(app.selection, Some(0));
    app.previous();
    assert_eq!(app.selection, Some(0));
}

#[test]
fn empty_search_is_identity_filter() {
    let mut app = loaded(&[(1, "alpha"), (2, "beta"), (3, "alphabet")]);
    let before = pids(&app);
    app.submit_message();
    assert_eq!(pids(&app), before);
}

#[test]
fn search_keeps_matching_subsequence_in_order() {
    let mut app = loaded(&[(1, "alpha"), (2, "beta"), (3, "alphabet")]);
    assert!(!app.handle_key(Key::Char('/'), true));
    assert_eq!(app.mode, AppState::SearchMode);
    assert!(app.show_popup);
    for c in "alpha".chars() {
        assert!(!app.handle_key(Key::Char(c), true));
    }
    assert!(!app.handle_key(Key::Enter, true));
    assert_eq!(pids(&app), vec![1, 3]);
    assert_eq!(app.items[0].name, "alpha");
    assert_eq!(app.items[1].name, "alphabet");
    assert_eq!(app.mode, AppState::ProcessMode);
    assert!(!app.show_popup);
    assert!(app.input.is_empty());
    assert_eq!(app.character_index, 0);
}

#[test]
fn search_is_case_sensitive() {
    let mut app = loaded(&[(1, "Alpha"), (2, "alpha")]);
    app.input = "alpha".chars().collect();
    app.character_index = 5;
    app.search();
    assert_eq!(pids(&app), vec![2]);
}

#[test]
fn search_with_no_match_empties_list_and_selection() {
    let mut app = loaded(&[(1, "alpha"), (2, "beta")]);
    app.input = "zzz".chars().collect();
    app.character_index = 3;
    app.search();
    assert!(app.items.is_empty());
    assert_eq!(app.selection, None);
}

#[test]
fn search_clamps_selection_to_shorter_list() {
    let mut app = loaded(&[(1, "alpha"), (2, "beta"), (3, "alphabet")]);
    app.selection = Some(2);
    app.input = "beta".chars().collect();
    app.character_index = 4;
    app.search();
    assert_eq!(pids(&app), vec![2]);
    assert_eq!(app.selection, Some(0));
}

#[test]
fn insert_then_delete_restores_buffer() {
    let mut app = App::new();
    app.input = "abc".chars().collect();
    app.character_index = 2;
    app.enter_char('x');
    assert_eq!(buffer_string(&app), "abxc");
    assert_eq!(app.character_index, 3);
    app.delete_char();
    assert_eq!(buffer_string(&app), "abc");
    assert_eq!(app.character_index, 2);
}

#[test]
fn insert_then_delete_restores_multibyte_buffer() {
    let mut app = App::new();
    app.input = "héllo".chars().collect();
    app.character_index = 1;
    app.enter_char('日');
    assert_eq!(buffer_string(&app), "h日éllo");
    assert_eq!(app.character_index, 2);
    app.delete_char();
    assert_eq!(buffer_string(&app), "héllo");
    assert_eq!(app.character_index, 1);
}

#[test]
fn caret_moves_then_delete_scenario() {
    let mut app = App::new();
    app.input = "abc".chars().collect();
    app.character_index = 3;
    app.move_cursor_left();
    app.move_cursor_left();
    assert_eq!(app.character_index, 1);
    app.delete_char();
    assert_eq!(buffer_string(&app), "bc");
    assert_eq!(app.character_index, 0);
}

#[test]
fn caret_clamps_at_both_ends() {
    let mut app = App::new();
    app.input = "ab".chars().collect();
    app.character_index = 0;
    app.move_cursor_left();
    assert_eq!(app.character_index, 0);
    app.delete_char();
    assert_eq!(buffer_string(&app), "ab");
    app.character_index = 2;
    app.move_cursor_right();
    assert_eq!(app.character_index, 2);
}

#[test]
fn load_snapshot_clamps_selection() {
    let mut app = loaded(&[(1, "a"), (2, "b"), (3, "c")]);
    app.selection = Some(2);
    app.load_snapshot(vec![record(4, "d"), record(5, "e")]);
    assert_eq!(app.selection, Some(1));
    app.load_snapshot(Vec::new());
    assert_eq!(app.selection, None);
    app.load_snapshot(vec![record(6, "f"), record(7, "g")]);
    assert_eq!(app.selection, Some(0));
}

#[test]
fn load_snapshot_sorts_by_identifier() {
    let mut app = App::new();
    app.load_snapshot(vec![record(5, "e"), record(1, "a"), record(3, "c")]);
    assert_eq!(pids(&app), vec![1, 3, 5]);
}

#[test]
fn kill_on_empty_list_is_noop() {
    let mut app = App::new();
    app.input = "leftover".chars().collect();
    app.character_index = 3;
    app.delete_proc();
    assert!(app.items.is_empty());
    assert_eq!(app.selection, None);
    assert_eq!(app.mode, AppState::ProcessMode);
    assert!(!app.show_popup);
    assert_eq!(buffer_string(&app), "leftover");
    assert_eq!(app.character_index, 3);
}

#[test]
fn kill_key_on_empty_list_is_noop() {
    let mut app = App::new();
    assert!(!app.handle_key(Key::Char('d'), true));
    assert!(app.items.is_empty());
    assert_eq!(app.selection, None);
    assert_eq!(app.mode, AppState::ProcessMode);
}

#[test]
fn byte_index_counts_encoded_widths() {
    let mut app = App::new();
    app.input = "aé日".chars().collect();
    let expected = [0usize, 1, 3, 6];
    for (caret, want) in expected.iter().enumerate() {
        app.character_index = caret;
        assert_eq!(app.byte_index(), *want);
    }
}

#[test]
fn scroll_is_derived_from_selection_and_length() {
    let mut app = loaded(&[(1, "a"), (2, "b"), (3, "c")]);
    app.selection = Some(2);
    assert_eq!(app.scroll_position(), 2 * ITEM_HEIGHT);
    assert_eq!(app.scroll_extent(), 2 * ITEM_HEIGHT);
    let empty = App::new();
    assert_eq!(empty.scroll_position(), 0);
    assert_eq!(empty.scroll_extent(), 0);
}

#[test]
fn toggle_search_clears_on_entry_keeps_on_cancel() {
    let mut app = loaded(&[(1, "alpha")]);
    assert!(!app.handle_key(Key::Char('/'), true));
    for c in "abc".chars() {
        app.handle_key(Key::Char(c), true);
    }
    assert!(!app.handle_key(Key::Char('/'), true));
    assert_eq!(app.mode, AppState::ProcessMode);
    assert!(!app.show_popup);
    assert_eq!(buffer_string(&app), "abc");
    app.handle_key(Key::Char('/'), true);
    assert_eq!(app.mode, AppState::SearchMode);
    assert!(app.input.is_empty());
    assert_eq!(app.character_index, 0);
}

#[test]
fn search_mode_ignores_release_events() {
    let mut app = loaded(&[(1, "alpha")]);
    app.handle_key(Key::Char('/'), true);
    assert!(!app.handle_key(Key::Char('x'), false));
    assert!(app.input.is_empty());
    assert_eq!(app.mode, AppState::SearchMode);
}

#[test]
fn quit_only_requested_from_browsing() {
    let mut app = loaded(&[(1, "alpha")]);
    assert!(app.handle_key(Key::Char('q'), true));
    app.handle_key(Key::Char('/'), true);
    assert!(!app.handle_key(Key::Char('q'), true));
    assert_eq!(buffer_string(&app), "q");
}

#[test]
fn unknown_keys_are_ignored_in_browsing() {
    let mut app = loaded(&[(1, "alpha"), (2, "beta")]);
    app.selection = Some(1);
    assert!(!app.handle_key(Key::Char('x'), true));
    assert!(!app.handle_key(Key::Enter, true));
    assert!(!app.handle_key(Key::Left, true));
    assert_eq!(pids(&app), vec![1, 2]);
    assert_eq!(app.selection, Some(1));
    assert_eq!(app.mode, AppState::ProcessMode);
}

#[test]
fn caret_keys_edit_in_search_mode() {
    let mut app = loaded(&[(1, "alpha")]);
    app.handle_key(Key::Char('/'), true);
    for c in "abc".chars() {
        app.handle_key(Key::Char(c), true);
    }
    app.handle_key(Key::Left, true);
    app.handle_key(Key::Left, true);
    assert_eq!(app.character_index, 1);
    app.handle_key(Key::Right, true);
    assert_eq!(app.character_index, 2);
    app.handle_key(Key::Backspace, true);
    assert_eq!(buffer_string(&app), "ac");
    assert_eq!(app.character_index, 1);
}

#[test]
fn submit_records_search_history() {
    let mut app = loaded(&[(1, "alpha")]);
    app.input = "al".chars().collect();
    app.character_index = 2;
    app.submit_message();
    assert_eq!(app.messages.len(), 1);
    let message: String = app.messages[0].iter().collect();
    assert_eq!(message, "al");
    assert!(app.input.is_empty());
}

#[test]
fn clean_discards_list_and_selection() {
    let mut app = loaded(&[(1, "alpha"), (2, "beta")]);
    app.clean();
    assert!(app.items.is_empty());
    assert_eq!(app.selection, None);
}

#[test]
fn refresh_loads_sorted_live_snapshot() {
    let mut app = App::new();
    app.refresh();
    for window in app.items.windows(2) {
        assert!(window[0].pid <= window[1].pid);
    }
    if !app.items.is_empty() {
        assert_eq!(app.selection, Some(0));
    } else {
        assert_eq!(app.selection, None);
    }
}
