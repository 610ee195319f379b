use rcwi::cwl::{apply_query_results, AwsReq};
use rcwi::overview::QueryLogRow;
use rcwi::status_bar::{StatusLevel, StatusMessage};
use rcwi::time_select::{RelativeUnit, Time};
use rcwi::{apply_editor_result, App, Key, Mode, SelectedView, Widget};

fn row(message: &str) -> QueryLogRow {
    QueryLogRow {
        message: message.to_string(),
        timestamp: "2024-01-01T00:00:00Z".to_string(),
        ptr: "pointer".to_string(),
    }
}

#[test]
fn default_app_state() {
    let app = App::default();
    assert_eq!(app.selected, SelectedView::Overview);
    assert_eq!(app.focused, Widget::LogGroups);
    assert_eq!(app.mode, Mode::Normal);
    assert!(!app.break_inner);
    assert!(!app.quit);
    assert_eq!(app.query, "fields @timestamp, @message\n| sort @timestamp desc\n");
    assert!(app.log_groups.log_groups.is_empty());
    assert!(app.log_results.query_results.is_empty());
    assert_eq!(app.status_message.text, "");
}

#[test]
fn quit_key_in_normal_mode() {
    let mut app = App::default();
    let req = app.handle_key(Key::Char('q'));
    assert!(req.is_none());
    assert!(app.quit);
}

#[test]
fn quit_key_is_text_while_popup_open() {
    let mut app = App::default();
    app.focused = Widget::TimeSelector;
    assert!(app.handle_key(Key::Enter).is_none());
    assert!(app.time_selector.popup);
    assert_eq!(app.time_selector.edit_start, "1h");
    let req = app.handle_key(Key::Char('q'));
    assert!(req.is_none());
    assert!(!app.quit);
    assert_eq!(app.time_selector.edit_start, "1hq");
}

#[test]
fn focus_cycles_on_overview() {
    let mut app = App::default();
    app.handle_key(Key::Char('l'));
    assert_eq!(app.focused, Widget::TimeSelector);
    app.handle_key(Key::Char('h'));
    assert_eq!(app.focused, Widget::LogGroups);
    app.handle_key(Key::Char('j'));
    assert_eq!(app.focused, Widget::Query);
    app.handle_key(Key::Down);
    assert_eq!(app.focused, Widget::LogRows);
    app.handle_key(Key::Up);
    assert_eq!(app.focused, Widget::Query);
    app.handle_key(Key::Char('k'));
    assert_eq!(app.focused, Widget::LogGroups);
}

#[test]
fn enter_on_log_groups_requests_listing_when_empty() {
    let mut app = App::default();
    let req = app.handle_key(Key::Enter);
    assert_eq!(req, Some(AwsReq::ListLogGroups));
    assert_eq!(app.selected, SelectedView::LogGroups);
}

#[test]
fn run_key_requests_query_from_any_focus() {
    let mut app = App::default();
    assert_eq!(app.handle_key(Key::Char('r')), Some(AwsReq::RunQuery));
    app.focused = Widget::Query;
    assert_eq!(app.handle_key(Key::Char('r')), Some(AwsReq::RunQuery));
}

#[test]
fn enter_on_query_requests_editor() {
    let mut app = App::default();
    app.focused = Widget::Query;
    assert!(app.handle_key(Key::Enter).is_none());
    assert!(app.break_inner);
}

#[test]
fn popup_edit_confirm_replaces_selector() {
    let mut app = App::default();
    app.focused = Widget::TimeSelector;
    app.handle_key(Key::Enter);
    assert!(app.time_selector.popup);
    // rewrite the start buffer to thirty minutes
    app.handle_key(Key::Backspace);
    app.handle_key(Key::Backspace);
    app.handle_key(Key::Char('3'));
    app.handle_key(Key::Char('0'));
    app.handle_key(Key::Char('m'));
    assert_eq!(app.time_selector.edit_start, "30m");
    app.handle_key(Key::Enter);
    assert!(!app.time_selector.popup);
    assert_eq!(app.time_selector.selected_start, Time::Relative(RelativeUnit::Minutes, 30));
    assert_eq!(app.time_selector.selected_start_string, "30m");
    assert_eq!(app.status_message.text, "New time range selected");
    assert_eq!(app.status_message.level, StatusLevel::Info);
}

#[test]
fn popup_rejects_invalid_pair_and_stays_open() {
    let mut app = App::default();
    app.focused = Widget::TimeSelector;
    app.handle_key(Key::Enter);
    // make the end buffer relative too: "1h" vs "2h"
    app.handle_key(Key::Tab);
    app.handle_key(Key::Backspace);
    app.handle_key(Key::Backspace);
    app.handle_key(Key::Backspace);
    app.handle_key(Key::Char('2'));
    app.handle_key(Key::Char('h'));
    assert_eq!(app.time_selector.edit_end, "2h");
    app.handle_key(Key::Enter);
    assert!(app.time_selector.popup);
    assert_eq!(app.time_selector.selected_end, Time::Now);
    assert_eq!(app.status_message.text, "Both start and end time can't be relative");
    assert_eq!(app.status_message.level, StatusLevel::Error);
}

#[test]
fn popup_escape_discards_edits() {
    let mut app = App::default();
    app.focused = Widget::TimeSelector;
    app.handle_key(Key::Enter);
    app.handle_key(Key::Char('z'));
    app.handle_key(Key::Esc);
    assert!(!app.time_selector.popup);
    assert_eq!(app.time_selector.selected_start, Time::Relative(RelativeUnit::Hours, 1));
    assert_eq!(app.time_selector.selected_start_string, "1h");
    // reopening reseeds the buffers from the kept selector
    app.handle_key(Key::Enter);
    assert_eq!(app.time_selector.edit_start, "1h");
}

#[test]
fn row_navigation_wraps() {
    let mut app = App::default();
    apply_query_results(&mut app, vec![row("one"), row("two"), row("three")]);
    app.focused = Widget::LogRows;
    app.handle_key(Key::Enter);
    assert_eq!(app.mode, Mode::Insert);
    assert_eq!(app.log_results.query_result_selected, 0);
    app.handle_key(Key::Char('j'));
    assert_eq!(app.log_results.query_result_selected, 1);
    app.handle_key(Key::Char('j'));
    app.handle_key(Key::Char('j'));
    assert_eq!(app.log_results.query_result_selected, 0);
    app.handle_key(Key::Char('k'));
    assert_eq!(app.log_results.query_result_selected, 2);
    app.handle_key(Key::Esc);
    assert_eq!(app.mode, Mode::Normal);
}

#[test]
fn yank_on_empty_results_changes_nothing() {
    let mut app = App::default();
    app.focused = Widget::LogRows;
    app.mode = Mode::Insert;
    app.handle_key(Key::Char('y'));
    assert_eq!(app.status_message.text, "");
}

#[test]
fn yank_reports_an_outcome() {
    let mut app = App::default();
    apply_query_results(&mut app, vec![row("the message")]);
    app.focused = Widget::LogRows;
    app.mode = Mode::Insert;
    app.handle_key(Key::Char('y'));
    let text = app.status_message.text.clone();
    assert!(text == "Yanked to clipboard." || text == "Clipboard action failed.");
}

#[test]
fn editor_result_replaces_query_or_keeps_it() {
    let mut app = App::default();
    app.break_inner = true;
    apply_editor_result(&mut app, Some("fields @message".to_string()));
    assert_eq!(app.query, "fields @message");
    assert!(!app.break_inner);
    app.break_inner = true;
    apply_editor_result(&mut app, None);
    assert_eq!(app.query, "fields @message");
    assert!(!app.break_inner);
    assert_eq!(app.status_message.text, "Editor input failed");
    assert_eq!(app.status_message.level, StatusLevel::Error);
}

#[test]
fn status_constructors_and_labels() {
    let ok = StatusMessage::info("fine");
    assert_eq!(ok.text, "fine");
    assert_eq!(ok.level, StatusLevel::Info);
    assert_eq!(ok.level.label(), "INFO");
    let bad = StatusMessage::error("broken");
    assert_eq!(bad.text, "broken");
    assert_eq!(bad.level, StatusLevel::Error);
    assert_eq!(bad.level.label(), "ERROR");
}

#[test]
fn event_pump_defaults() {
    let config = rcwi::events::Config::default();
    assert_eq!(config.tick_rate_ms, 250);
    let event: rcwi::events::Event<char> = rcwi::events::Event::Input('x');
    assert!(matches!(event, rcwi::events::Event::Input('x')));
    assert!(matches!(rcwi::events::Event::<char>::Tick, rcwi::events::Event::Tick));
}
