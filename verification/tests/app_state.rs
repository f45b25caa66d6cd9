use brew_explorer::app::{App, ListSelection, ModalState, UpdateStage};
use brew_explorer::brew_info_response::{BrewFormulae, BrewInfoResponse, BrewInstalled, BrewVersions};
use brew_explorer::package_info::PackageInfo;
use brew_explorer::repository::{FetchError, HomebrewRepository};

fn formula(name: &str, desc: &str) -> BrewFormulae {
    BrewFormulae {
        name: name.to_string(),
        tap: None,
        desc: desc.to_string(),
        homepage: None,
        versions: BrewVersions { stable: Some("1.0".to_string()), head: None },
        installed: vec![BrewInstalled {
            version: "1.0".to_string(),
            time: Some(1),
            installed_as_dependency: false,
            installed_on_request: true,
        }],
        outdated: false,
        caveats: None,
    }
}

fn report(names: &[&str]) -> Result<BrewInfoResponse, FetchError> {
    Ok(BrewInfoResponse {
        formulae: names.iter().map(|n| formula(n, "a package")).collect(),
        casks: vec![],
    })
}

fn app_with(names: &[&str]) -> App {
    App::new(HomebrewRepository::new(report(names), 0), 0)
}

fn numbered(count: usize) -> App {
    let names: Vec<String> = (0..count).map(|i| format!("p{:02}", i)).collect();
    let refs: Vec<&str> = names.iter().map(|n| n.as_str()).collect();
    app_with(&refs)
}

fn names(packages: &[PackageInfo]) -> Vec<String> {
    packages.iter().map(|p| p.name.clone()).collect()
}

fn selected_name(app: &App) -> Option<String> {
    app.get_selected_package().map(|p| p.name.clone())
}

#[test]
fn new_app_shows_the_directory_with_the_cursor_on_top() {
    let app = app_with(&["a", "b", "c"]);
    assert_eq!(names(&app.items), vec!["a", "b", "c"]);
    assert_eq!(names(&app.filtered_items), vec!["a", "b", "c"]);
    assert_eq!(app.list_state.selected(), Some(0));
    assert_eq!(app.scroll_offset, 0);
    assert_eq!(app.last_interaction, 0);
    assert!(!app.should_quit);
    assert_eq!(app.search_query, "");
    assert!(!app.is_searching);
    assert_eq!(app.pre_search_selection, None);
    assert!(app.status_messages.is_empty());
    assert_eq!(app.current_columns, 1);
    assert_eq!(app.rows_per_column, 0);
    assert_eq!(app.column_scroll_offset, 0);
    assert!(!app.is_updating);
    assert_eq!(app.update_package_name, None);
    assert_eq!(app.update_start_time, None);
    assert_eq!(app.update_stage, UpdateStage::Idle);
    assert!(!app.is_uninstalling);
    assert!(!app.real_update_called);
    assert!(!app.real_action_pending);
    assert_eq!(app.pending_uninstall_package, None);
    assert_eq!(app.modal_state, ModalState::Closed);
    assert_eq!(selected_name(&app), Some("a".to_string()));
    assert_eq!(app.get_selected_package_details().map(|p| p.name), Some("a".to_string()));
    assert_eq!(names(app.get_display_items()), vec!["a", "b", "c"]);
}

#[test]
fn list_selection_holds_what_was_selected() {
    let mut cursor = ListSelection::new();
    assert_eq!(cursor.selected(), None);
    cursor.select(Some(4));
    assert_eq!(cursor.selected(), Some(4));
    cursor.select(None);
    assert_eq!(cursor.selected(), None);
}

#[test]
fn next_and_previous_go_round() {
    let mut app = app_with(&["a", "b", "c"]);
    app.scroll_offset = 9;
    app.next(100);
    assert_eq!(app.list_state.selected(), Some(1));
    assert_eq!(app.scroll_offset, 0);
    assert_eq!(app.last_interaction, 100);
    app.next(200);
    app.next(300);
    assert_eq!(app.list_state.selected(), Some(0));
    app.previous(400);
    assert_eq!(app.list_state.selected(), Some(2));
    app.previous(500);
    assert_eq!(app.list_state.selected(), Some(1));
    assert_eq!(app.last_interaction, 500);
    app.list_state.select(None);
    app.next(600);
    assert_eq!(app.list_state.selected(), Some(0));
    app.list_state.select(None);
    app.previous(700);
    assert_eq!(app.list_state.selected(), Some(0));
    // A cursor beyond the list comes back to the top.
    app.list_state.select(Some(usize::MAX));
    app.next(800);
    assert_eq!(app.list_state.selected(), Some(0));
}

#[test]
fn cursor_stays_in_an_empty_list() {
    let mut app = app_with(&["a", "b"]);
    app.items.clear();
    app.list_state.select(Some(1));
    app.scroll_offset = 3;
    app.next(10);
    app.previous(10);
    app.page_down(10);
    app.page_up(10);
    app.first(10);
    app.go_to_last(10);
    app.update_layout(2, 5);
    app.move_left(10);
    app.move_right(10);
    assert_eq!(app.list_state.selected(), Some(1));
    assert_eq!(app.scroll_offset, 3);
    assert_eq!(app.last_interaction, 0);
    assert_eq!(selected_name(&app), None);
}

#[test]
fn pages_are_ten_rows() {
    let mut app = numbered(25);
    app.page_down(1);
    assert_eq!(app.list_state.selected(), Some(10));
    app.page_down(2);
    assert_eq!(app.list_state.selected(), Some(20));
    app.page_down(3);
    assert_eq!(app.list_state.selected(), Some(24));
    app.page_down(4);
    assert_eq!(app.list_state.selected(), Some(24));
    app.page_up(5);
    assert_eq!(app.list_state.selected(), Some(14));
    app.page_up(6);
    assert_eq!(app.list_state.selected(), Some(4));
    app.page_up(7);
    assert_eq!(app.list_state.selected(), Some(0));
    assert_eq!(app.last_interaction, 7);
    app.go_to_last(8);
    assert_eq!(app.list_state.selected(), Some(24));
    app.first(9);
    assert_eq!(app.list_state.selected(), Some(0));
    app.list_state.select(None);
    app.page_down(10);
    assert_eq!(app.list_state.selected(), Some(10));
    app.list_state.select(Some(usize::MAX));
    app.page_down(11);
    assert_eq!(app.list_state.selected(), Some(24));
    app.list_state.select(Some(14));
    app.page_down(12);
    assert_eq!(app.list_state.selected(), Some(24));
    app.list_state.select(Some(13));
    app.page_down(13);
    assert_eq!(app.list_state.selected(), Some(23));
}

#[test]
fn columns_are_walked_left_and_right() {
    let mut app = numbered(25);
    // One column: no step sideways.
    app.move_right(1);
    assert_eq!(app.list_state.selected(), Some(0));
    // Three columns of ten rows: 0..9, 10..19, 20..24.
    app.update_layout(3, 10);
    assert_eq!(app.current_columns, 3);
    assert_eq!(app.rows_per_column, 10);
    app.list_state.select(Some(3));
    app.move_right(2);
    assert_eq!(app.list_state.selected(), Some(13));
    app.move_right(3);
    assert_eq!(app.list_state.selected(), Some(23));
    app.move_right(4);
    assert_eq!(app.list_state.selected(), Some(23));
    assert_eq!(app.last_interaction, 3);
    app.move_left(5);
    assert_eq!(app.list_state.selected(), Some(13));
    app.move_left(6);
    assert_eq!(app.list_state.selected(), Some(3));
    app.move_left(7);
    assert_eq!(app.list_state.selected(), Some(3));
    assert_eq!(app.last_interaction, 6);
    // Row 7 has nothing in the third column.
    app.list_state.select(Some(17));
    app.move_right(8);
    assert_eq!(app.list_state.selected(), Some(17));
    // Without a known layout nothing moves.
    app.update_layout(3, 0);
    app.move_left(9);
    app.move_right(9);
    assert_eq!(app.list_state.selected(), Some(17));
    app.update_layout(3, 10);
    app.list_state.select(None);
    app.move_right(10);
    assert_eq!(app.list_state.selected(), None);
}

#[test]
fn columns_scroll_to_keep_the_cursor_on_display() {
    let mut app = numbered(60);
    // Two columns of ten rows are on display; the list has six.
    app.update_layout(2, 10);
    app.list_state.select(Some(9));
    app.next(1);
    assert_eq!(app.list_state.selected(), Some(10));
    assert_eq!(app.column_scroll_offset, 0);
    app.list_state.select(Some(19));
    app.next(2);
    assert_eq!(app.column_scroll_offset, 1);
    app.go_to_last(3);
    assert_eq!(app.list_state.selected(), Some(59));
    assert_eq!(app.column_scroll_offset, 4);
    app.page_up(4);
    assert_eq!(app.list_state.selected(), Some(49));
    assert_eq!(app.column_scroll_offset, 4);
    app.page_up(5);
    assert_eq!(app.column_scroll_offset, 3);
    app.first(6);
    assert_eq!(app.column_scroll_offset, 0);
    app.column_scroll_offset = 3;
    app.list_state.select(Some(45));
    app.ensure_selection_visible();
    assert_eq!(app.column_scroll_offset, 3);
    app.list_state.select(None);
    app.ensure_selection_visible();
    assert_eq!(app.column_scroll_offset, 3);
    app.reset_column_scroll();
    assert_eq!(app.column_scroll_offset, 0);
    // A single column never scrolls.
    app.update_layout(1, 10);
    app.go_to_last(7);
    assert_eq!(app.column_scroll_offset, 0);
}

#[test]
fn long_names_scroll_after_three_seconds_of_rest() {
    let mut app = app_with(&["a-rather-long-package-name", "b"]);
    // 26 bytes in a width of 10: the scroll goes round after 16 + 5 places.
    app.update_scroll(10, 3_000);
    assert_eq!(app.scroll_offset, 0);
    app.update_scroll(10, 3_001);
    assert_eq!(app.scroll_offset, 1);
    app.scroll_offset = 19;
    app.update_scroll(10, 4_000);
    assert_eq!(app.scroll_offset, 20);
    app.update_scroll(10, 4_100);
    assert_eq!(app.scroll_offset, 0);
    app.scroll_offset = usize::MAX;
    app.update_scroll(10, 4_200);
    assert_eq!(app.scroll_offset, (((usize::MAX as u128) + 1) % 21) as usize);
    // A name that fits does not scroll.
    app.scroll_offset = 2;
    app.update_scroll(26, 9_000);
    assert_eq!(app.scroll_offset, 2);
    app.next(10_000);
    assert_eq!(app.scroll_offset, 0);
    app.update_scroll(0, 99_000);
    assert_eq!(app.scroll_offset, 0);
    app.list_state.select(None);
    app.scroll_offset = 2;
    app.update_scroll(0, 99_000);
    assert_eq!(app.scroll_offset, 2);
    app.reset_scroll(5);
    assert_eq!(app.scroll_offset, 0);
    assert_eq!(app.last_interaction, 5);
}

#[test]
fn names_scroll_by_their_length_in_bytes() {
    let mut app = app_with(&["éé"]);
    // Two characters, four bytes.
    app.update_scroll(3, 10_000);
    assert_eq!(app.scroll_offset, 1);
    app.update_scroll(3, 10_000);
    assert_eq!(app.scroll_offset, 0);
}

#[test]
fn status_log_keeps_the_latest_five() {
    let mut app = app_with(&["a"]);
    assert_eq!(app.get_current_status(0), None);
    for i in 1..=7u64 {
        app.add_status_message(format!("message {}", i), i * 10);
    }
    assert_eq!(app.status_messages.len(), 5);
    assert_eq!(app.status_messages[0], ("message 3".to_string(), 30));
    assert_eq!(app.status_messages[4], ("message 7".to_string(), 70));
    assert_eq!(app.get_current_status(80), Some("message 7".to_string()));
    assert_eq!(app.status_messages.len(), 5);
}

#[test]
fn status_messages_expire_after_ten_seconds() {
    let mut app = app_with(&["a"]);
    app.add_status_message("first".to_string(), 1_000);
    app.add_status_message("second".to_string(), 2_000);
    assert_eq!(app.get_current_status(11_000), Some("second".to_string()));
    assert_eq!(app.status_messages.len(), 2);
    assert_eq!(app.get_current_status(11_001), Some("second".to_string()));
    assert_eq!(app.status_messages.len(), 1);
    assert_eq!(app.get_current_status(12_000), Some("second".to_string()));
    assert_eq!(app.get_current_status(12_001), None);
    assert!(app.status_messages.is_empty());
    // Only the front of the log is looked at.
    app.add_status_message("young".to_string(), 50_000);
    app.add_status_message("old".to_string(), 1_000);
    assert_eq!(app.get_current_status(55_000), Some("old".to_string()));
    assert_eq!(app.status_messages.len(), 2);
    assert_eq!(app.get_current_status(60_001), None);
}

#[test]
fn search_filters_by_name_and_description() {
    let mut app = App::new(
        HomebrewRepository::new(
            Ok(BrewInfoResponse {
                formulae: vec![
                    formula("wget", "Internet file retriever"),
                    formula("curl", "Get a file from an HTTP server"),
                    formula("HTTPie", "User-friendly cURL replacement"),
                    formula("jq", "Lightweight JSON processor"),
                ],
                casks: vec![],
            }),
            0,
        ),
        0,
    );
    app.list_state.select(Some(2));
    app.column_scroll_offset = 3;
    app.start_search(10);
    assert!(app.is_searching);
    assert_eq!(app.pre_search_selection, Some(2));
    assert_eq!(app.column_scroll_offset, 0);
    assert_eq!(app.list_state.selected(), Some(0));
    assert_eq!(names(&app.filtered_items), vec!["wget", "curl", "HTTPie", "jq"]);
    for c in "CURL".chars() {
        app.add_search_char(c, 20);
    }
    assert_eq!(app.search_query, "CURL");
    assert_eq!(names(&app.filtered_items), vec!["curl", "HTTPie"]);
    assert_eq!(names(app.get_display_items()), vec!["curl", "HTTPie"]);
    assert_eq!(app.list_state.selected(), Some(0));
    assert_eq!(app.last_interaction, 20);
    app.add_search_char('x', 30);
    assert!(app.filtered_items.is_empty());
    assert_eq!(app.list_state.selected(), None);
    assert_eq!(selected_name(&app), None);
    app.remove_search_char(40);
    assert_eq!(app.search_query, "CURL");
    assert_eq!(names(&app.filtered_items), vec!["curl", "HTTPie"]);
    for _ in 0..4 {
        app.remove_search_char(50);
    }
    assert_eq!(app.search_query, "");
    assert_eq!(app.filtered_items.len(), 4);
    app.last_interaction = 0;
    app.remove_search_char(60);
    assert_eq!(app.last_interaction, 0);
    for c in "file".chars() {
        app.add_search_char(c, 70);
    }
    assert_eq!(names(&app.filtered_items), vec!["wget", "curl"]);
    assert_eq!(names(&app.items), vec!["wget", "curl", "HTTPie", "jq"]);
}

#[test]
fn search_query_is_left_alone_outside_a_search() {
    let mut app = app_with(&["a", "b"]);
    app.add_search_char('b', 10);
    app.remove_search_char(10);
    assert_eq!(app.search_query, "");
    assert_eq!(app.last_interaction, 0);
    assert_eq!(names(&app.filtered_items), vec!["a", "b"]);
}

#[test]
fn end_search_keeps_the_cursor_on_the_package() {
    let mut app = app_with(&["alpha", "beta", "gamma", "delta"]);
    app.start_search(1);
    app.add_search_char('m', 2);
    assert_eq!(names(&app.filtered_items), vec!["gamma"]);
    app.column_scroll_offset = 2;
    app.end_search(3);
    assert!(!app.is_searching);
    assert_eq!(app.search_query, "");
    assert_eq!(app.list_state.selected(), Some(2));
    assert_eq!(app.column_scroll_offset, 0);
    assert_eq!(app.last_interaction, 3);
    assert_eq!(selected_name(&app), Some("gamma".to_string()));
    // Without a selected result the cursor goes to the top.
    app.start_search(4);
    app.add_search_char('z', 5);
    assert_eq!(app.list_state.selected(), None);
    app.end_search(6);
    assert_eq!(app.list_state.selected(), Some(0));
    app.items.clear();
    app.start_search(7);
    app.end_search(8);
    assert_eq!(app.list_state.selected(), None);
}

#[test]
fn filter_keeps_a_given_row_as_far_as_the_list_reaches() {
    let mut app = app_with(&["a", "b", "c", "d"]);
    app.apply_filter_with_selection(Some(2), 1);
    assert_eq!(app.list_state.selected(), Some(2));
    app.apply_filter_with_selection(Some(9), 2);
    assert_eq!(app.list_state.selected(), Some(3));
    app.apply_filter(3);
    assert_eq!(app.list_state.selected(), Some(0));
    // While a search is on, the results set the reach.
    app.start_search(4);
    app.add_search_char('b', 5);
    app.apply_filter_with_selection(Some(2), 6);
    assert_eq!(app.list_state.selected(), Some(0));
    app.add_search_char('x', 7);
    app.apply_filter_with_selection(Some(2), 8);
    assert_eq!(app.list_state.selected(), None);
    assert_eq!(app.last_interaction, 8);
    app.end_search(9);
    app.search_query = "nothing".to_string();
    app.apply_filter_with_selection(Some(1), 10);
    assert_eq!(app.list_state.selected(), Some(1));
    assert!(app.filtered_items.is_empty());
    app.apply_filter(11);
    assert_eq!(app.list_state.selected(), None);
}

#[test]
fn refresh_shows_the_new_directory() {
    let mut app = app_with(&["a", "b", "c"]);
    app.list_state.select(Some(2));
    app.column_scroll_offset = 1;
    app.refresh_packages(report(&["x", "y"]), 5_000);
    assert_eq!(names(&app.items), vec!["x", "y"]);
    assert_eq!(names(&app.filtered_items), vec!["x", "y"]);
    assert_eq!(app.list_state.selected(), Some(0));
    assert_eq!(app.column_scroll_offset, 0);
    assert_eq!(app.last_interaction, 5_000);
    assert!(!app.repository.refresh_due(35_000));
    app.refresh_packages_with_selection(report(&["x", "y", "z"]), Some(7), 6_000);
    assert_eq!(app.list_state.selected(), Some(2));
    app.refresh_packages_with_selection(
        Err(FetchError::Unavailable("offline".to_string())),
        Some(1),
        7_000,
    );
    assert_eq!(names(&app.items), vec!["x", "y", "z"]);
    assert_eq!(app.list_state.selected(), Some(1));
    app.quit();
    assert!(app.should_quit);
}

#[test]
fn details_are_asked_for_while_a_placeholder_is_shown() {
    let mut app = app_with(&["a", "b"]);
    app.list_state.select(Some(1));
    let shown = app.selected_details(1_000).expect("b is selected");
    assert_eq!(shown.name, "b");
    assert_eq!(shown.description, "Loading details.");
    assert_eq!(shown.current_version, "1.0");
    assert_eq!(shown.installed_version, Some("1.0".to_string()));
    assert_eq!(shown.homepage, "No homepage available");
    assert_eq!(app.repository.scheduler().queued(), 1);
    // Shown again within the second: no second request. The dots move on.
    assert_eq!(app.repository.advance_animation(1_400), 1);
    assert_eq!(app.selected_details(1_500).expect("b").description, "Loading details..");
    assert_eq!(app.repository.advance_animation(1_800), 2);
    assert_eq!(app.selected_details(1_900).expect("b").description, "Loading details...");
    assert_eq!(app.repository.scheduler().queued(), 1);
    // The request is urgent: it overtakes what was asked for before.
    assert!(app.repository.request_details("a", false, 0));
    assert_eq!(app.repository.next_detail_request(), Some("b".to_string()));
    let mut detailed = formula("b", "The second letter");
    detailed.versions = BrewVersions { stable: Some("2.0".to_string()), head: None };
    app.repository
        .store_details("b", Ok(BrewInfoResponse { formulae: vec![detailed], casks: vec![] }));
    let shown = app.selected_details(5_000).expect("b is selected");
    assert_eq!(shown.description, "The second letter");
    assert_eq!(shown.current_version, "2.0");
    assert_eq!(app.repository.scheduler().queued(), 0);
    // The list itself is as it was.
    assert_eq!(app.items[1].description, "a package");
    app.list_state.select(None);
    assert!(app.selected_details(6_000).is_none());
    app.list_state.select(Some(7));
    assert!(app.selected_details(6_000).is_none());
    assert_eq!(app.repository.scheduler().queued(), 0);
}
