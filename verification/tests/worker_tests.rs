use rcwi::cwl::{apply_query_results, decode_query_row, finish_query_results,
    list_log_groups_begin, list_log_groups_done, list_log_groups_failed, list_log_groups_page,
    query_failed, start_query_snapshot, DecodeError, QueryField};
use rcwi::log_groups::{filter_log_groups, toggle_selected};
use rcwi::overview::QueryLogRow;
use rcwi::status_bar::StatusLevel;
use rcwi::{App, Key, Mode, SelectedView, Widget};

fn names(list: &[&str]) -> Vec<String> {
    list.iter().map(|s| s.to_string()).collect()
}

fn field(name: &str, value: &str) -> QueryField {
    QueryField { field: name.to_string(), value: value.to_string() }
}

fn row(message: &str) -> QueryLogRow {
    QueryLogRow {
        message: message.to_string(),
        timestamp: "2024-01-01T00:00:00Z".to_string(),
        ptr: "pointer".to_string(),
    }
}

#[test]
fn two_pages_merge_in_order_and_search_finds_the_key() {
    let mut app = App::default();
    list_log_groups_begin(&mut app);
    list_log_groups_page(&mut app, names(&["a", "b"]));
    list_log_groups_page(&mut app, names(&["c"]));
    assert_eq!(app.log_groups.log_groups, vec!["a", "b", "c"]);
    app.log_groups.log_filter = "c".to_string();
    filter_log_groups(&mut app.log_groups);
    assert_eq!(app.log_groups.filtered_log_groups, vec![2usize]);
    list_log_groups_done(&mut app);
    assert_eq!(app.status_message.text, "Log groups request completed");
    assert_eq!(app.status_message.level, StatusLevel::Info);
}

#[test]
fn empty_filter_passes_every_position() {
    let mut app = App::default();
    list_log_groups_begin(&mut app);
    list_log_groups_page(&mut app, names(&["alpha", "beta", "gamma"]));
    assert_eq!(app.log_groups.log_filter, "");
    assert_eq!(app.log_groups.filtered_log_groups, vec![0usize, 1, 2]);
}

#[test]
fn filter_narrows_and_clearing_restores() {
    let mut app = App::default();
    list_log_groups_begin(&mut app);
    list_log_groups_page(&mut app, names(&["alpha", "beta", "gamma"]));
    app.log_groups.log_filter = "beta".to_string();
    filter_log_groups(&mut app.log_groups);
    assert_eq!(app.log_groups.filtered_log_groups, vec![1usize]);
    app.log_groups.log_filter = String::new();
    filter_log_groups(&mut app.log_groups);
    assert_eq!(app.log_groups.filtered_log_groups, vec![0usize, 1, 2]);
}

#[test]
fn selection_survives_a_relisting() {
    let mut app = App::default();
    list_log_groups_begin(&mut app);
    list_log_groups_page(&mut app, names(&["a", "b"]));
    app.selected = SelectedView::LogGroups;
    app.mode = Mode::Insert;
    app.focused = Widget::LogGroupsResults;
    app.handle_key(Key::Enter);
    assert_eq!(app.log_groups.selected_log_groups, vec!["a"]);
    // a new listing resets the names but not the selection
    list_log_groups_begin(&mut app);
    assert!(app.log_groups.log_groups.is_empty());
    assert_eq!(app.log_groups.selected_log_groups, vec!["a"]);
    list_log_groups_page(&mut app, names(&["b", "c"]));
    assert_eq!(app.log_groups.selected_log_groups, vec!["a"]);
}

#[test]
fn toggling_twice_leaves_selection_unchanged() {
    let mut app = App::default();
    list_log_groups_begin(&mut app);
    list_log_groups_page(&mut app, names(&["a", "b", "c"]));
    app.selected = SelectedView::LogGroups;
    app.mode = Mode::Insert;
    app.focused = Widget::LogGroupsResults;
    app.handle_key(Key::Char('j')); // row 1
    app.handle_key(Key::Enter);
    assert_eq!(app.log_groups.selected_log_groups, vec!["b"]);
    app.handle_key(Key::Enter);
    assert!(app.log_groups.selected_log_groups.is_empty());
}

#[test]
fn toggle_is_by_value_not_position() {
    let mut app = App::default();
    list_log_groups_begin(&mut app);
    list_log_groups_page(&mut app, names(&["a", "b"]));
    toggle_selected(&mut app.log_groups, "a".to_string());
    toggle_selected(&mut app.log_groups, "b".to_string());
    // the same name toggles off even when handed in from elsewhere
    toggle_selected(&mut app.log_groups, "a".to_string());
    assert_eq!(app.log_groups.selected_log_groups, vec!["b"]);
}

#[test]
fn listing_failure_keeps_merged_pages() {
    let mut app = App::default();
    list_log_groups_begin(&mut app);
    list_log_groups_page(&mut app, names(&["kept"]));
    list_log_groups_failed(&mut app);
    assert_eq!(app.log_groups.log_groups, vec!["kept"]);
    assert_eq!(app.status_message.text, "Log groups request failed");
    assert_eq!(app.status_message.level, StatusLevel::Error);
}

#[test]
fn polling_replaces_rows_wholesale() {
    let mut app = App::default();
    // the backend reports Running once with no rows, then Complete with two
    apply_query_results(&mut app, vec![]);
    assert!(app.log_results.query_results.is_empty());
    finish_query_results(&mut app, vec![row("first"), row("second")]);
    assert_eq!(app.log_results.query_results.len(), 2);
    assert_eq!(app.log_results.query_results[0].message, "first");
    assert_eq!(app.log_results.query_results[1].message, "second");
    assert_eq!(app.status_message.text, "Cloudwatch Insights query completed");
    assert_eq!(app.status_message.level, StatusLevel::Info);
}

#[test]
fn replacing_rows_clamps_the_cursor() {
    let mut app = App::default();
    apply_query_results(&mut app, vec![row("a"), row("b"), row("c")]);
    app.log_results.query_result_selected = 2;
    apply_query_results(&mut app, vec![row("only")]);
    assert_eq!(app.log_results.query_result_selected, 0);
    apply_query_results(&mut app, vec![]);
    assert_eq!(app.log_results.query_result_selected, 0);
}

#[test]
fn query_snapshot_takes_selection_query_and_window() {
    let mut app = App::default();
    list_log_groups_begin(&mut app);
    list_log_groups_page(&mut app, names(&["grp"]));
    toggle_selected(&mut app.log_groups, "grp".to_string());
    app.time_selector =
        rcwi::time_select::TimeSelector::from_strings("2024-01-01", "2024-01-02").unwrap();
    let (groups, query, start, end) = start_query_snapshot(&mut app);
    assert_eq!(groups, vec!["grp"]);
    assert_eq!(query, app.query);
    assert_eq!(start, 1704067200);
    assert_eq!(end, 1704153600);
    assert_eq!(app.status_message.text, "Cloudwatch Insights query started");
}

#[test]
fn failed_query_reports_an_error() {
    let mut app = App::default();
    query_failed(&mut app);
    assert_eq!(app.status_message.text, "Cloudwatch Insights query failed");
    assert_eq!(app.status_message.level, StatusLevel::Error);
}

#[test]
fn decode_takes_the_last_value_of_each_field() {
    let fields = vec![
        field("@timestamp", "ts"),
        field("@message", "early"),
        field("extra", "ignored"),
        field("@message", "late"),
        field("@ptr", "p"),
    ];
    let row = decode_query_row(&fields).unwrap();
    assert_eq!(row.message, "late");
    assert_eq!(row.timestamp, "ts");
    assert_eq!(row.ptr, "p");
}

#[test]
fn decode_names_the_first_missing_field() {
    assert_eq!(
        decode_query_row(&vec![field("@timestamp", "ts"), field("@ptr", "p")]),
        Err(DecodeError::MissingMessage)
    );
    assert_eq!(
        decode_query_row(&vec![field("@message", "m"), field("@ptr", "p")]),
        Err(DecodeError::MissingTimestamp)
    );
    assert_eq!(
        decode_query_row(&vec![field("@message", "m"), field("@timestamp", "ts")]),
        Err(DecodeError::MissingPtr)
    );
}
