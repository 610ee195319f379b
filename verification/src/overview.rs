//! The overview screen's state machine: focus cycling, the time-selector
//! popup, query-result row navigation and the clipboard yank.
use vstd::prelude::*;
use crate::cwl::AwsReq;
use crate::status_bar::{StatusLevel, StatusMessage, StatusV};
use crate::text::{pop_char, push_char};
use crate::time_select::{spec_from_strings, spec_message, TimeSelector, TimeSelectorInput,
    TimeSelectorV};
use crate::{App, AppV, Key, Mode, SelectedView, Widget};

verus! {

/// One decoded query-result row.
#[derive(Debug, PartialEq, Eq)]
pub struct QueryLogRow {
    pub message: String,
    pub timestamp: String,
    pub ptr: String,
}

/// Abstract value of a row.
#[verifier::ext_equal]
pub ghost struct RowV {
    pub message: Seq<char>,
    pub timestamp: Seq<char>,
    pub ptr: Seq<char>,
}

impl View for QueryLogRow {
    type V = RowV;

    open spec fn view(&self) -> RowV {
        RowV { message: self.message@, timestamp: self.timestamp@, ptr: self.ptr@ }
    }
}

impl DeepView for QueryLogRow {
    type V = RowV;

    open spec fn deep_view(&self) -> RowV {
        self@
    }
}

/// The rows of the last query poll and the cursor over them.
pub struct LogResults {
    pub query_results: Vec<QueryLogRow>,
    pub query_result_selected: usize,
}

/// Abstract value of the result pane.
#[verifier::ext_equal]
pub ghost struct LogResultsV {
    pub rows: Seq<RowV>,
    pub selected_row: usize,
}

impl View for LogResults {
    type V = LogResultsV;

    open spec fn view(&self) -> LogResultsV {
        LogResultsV {
            rows: self.query_results.deep_view(),
            selected_row: self.query_result_selected,
        }
    }
}

/// The row cursor stays inside the rows (and at zero when there are none).
pub open spec fn results_wf(v: LogResultsV) -> bool {
    if v.rows.len() == 0 {
        v.selected_row == 0
    } else {
        (v.selected_row as int) < v.rows.len()
    }
}

impl Default for LogResults {
    fn default() -> (r: Self)
        ensures
            r@.rows == Seq::<RowV>::empty(),
            r@.selected_row == 0,
    {
        Self { query_results: Vec::new(), query_result_selected: 0 }
    }
}

/// Relies on arboard's Clipboard::new and set_text: whether the platform
/// clipboard took the text. Nothing is promised of the outcome; it depends
/// on the environment.
#[verifier::external_body]
fn clipboard_set_text(text: &String) -> (r: bool) {
    match arboard::Clipboard::new() {
        Ok(mut cb) => cb.set_text(text.clone()).is_ok(),
        Err(_) => false,
    }
}

// ---------------------------------------------------------------------------
// Transition relations
// ---------------------------------------------------------------------------

/// The cursor one step down, wrapping over `len` rows.
pub open spec fn wrap_next(row: usize, len: usize) -> usize {
    if len == 0 {
        0
    } else {
        let base = (row as int % len as int) as usize;
        if base + 1 == len {
            0
        } else {
            (base + 1) as usize
        }
    }
}

/// The cursor one step up, wrapping over `len` rows.
pub open spec fn wrap_prev(row: usize, len: usize) -> usize {
    if row > 0 && len > 0 {
        ((row - 1) as int % len as int) as usize
    } else if row == 0 && len > 0 {
        (len - 1) as usize
    } else {
        0
    }
}

/// A keystroke while the time-selector popup is open: editing of the active
/// buffer, switching it, confirming (a valid pair replaces the selector and
/// closes the popup; an invalid one keeps both and reports why), or closing
/// the popup and so discarding the edits.
pub open spec fn spec_popup_step(pre: AppV, key: Key) -> AppV {
    let ts = pre.time_selector;
    match key {
        Key::Backspace => {
            let nts = if ts.input is Start {
                TimeSelectorV { edit_start: crate::text::pop_text(ts.edit_start), ..ts }
            } else {
                TimeSelectorV { edit_end: crate::text::pop_text(ts.edit_end), ..ts }
            };
            AppV { time_selector: nts, ..pre }
        },
        Key::Tab => {
            let flipped = if ts.input is Start {
                TimeSelectorInput::End
            } else {
                TimeSelectorInput::Start
            };
            AppV { time_selector: TimeSelectorV { input: flipped, ..ts }, ..pre }
        },
        Key::Enter => match spec_from_strings(ts.edit_start, ts.edit_end) {
            Ok(nts) => AppV {
                time_selector: nts,
                status_message: StatusV {
                    text: "New time range selected"@,
                    level: StatusLevel::Info,
                },
                ..pre
            },
            Err(e) => AppV {
                status_message: StatusV { text: spec_message(e), level: StatusLevel::Error },
                ..pre
            },
        },
        Key::Esc => AppV { time_selector: TimeSelectorV { popup: false, ..ts }, ..pre },
        Key::Char(c) => {
            let nts = if ts.input is Start {
                TimeSelectorV { edit_start: ts.edit_start.push(c), ..ts }
            } else {
                TimeSelectorV { edit_end: ts.edit_end.push(c), ..ts }
            };
            AppV { time_selector: nts, ..pre }
        },
        _ => pre,
    }
}

/// A keystroke on the overview screen in Normal mode: Enter acts on the
/// focused widget (browse log groups and list them if none are known yet,
/// hand the query to the editor, open the time popup, or start row
/// navigation), the h/j/k/l keys and arrows move focus, and `r` enqueues a
/// query run from any focus.
pub open spec fn spec_overview_normal(pre: AppV, key: Key) -> (AppV, Option<AwsReq>) {
    match key {
        Key::Enter => match pre.focused {
            Widget::LogGroups => (
                AppV { selected: SelectedView::LogGroups, focused: Widget::LogGroups, ..pre },
                if pre.log_groups.log_groups.len() == 0 {
                    Some(AwsReq::ListLogGroups)
                } else {
                    None
                },
            ),
            Widget::Query => (AppV { break_inner: true, ..pre }, None),
            Widget::TimeSelector => (
                AppV {
                    time_selector: TimeSelectorV {
                        popup: true,
                        edit_start: pre.time_selector.start_string,
                        edit_end: pre.time_selector.end_string,
                        ..pre.time_selector
                    },
                    ..pre
                },
                None,
            ),
            Widget::LogRows => (AppV { mode: Mode::Insert, ..pre }, None),
            _ => (pre, None),
        },
        Key::Char('h') | Key::Left => match pre.focused {
            Widget::LogGroups => (AppV { focused: Widget::TimeSelector, ..pre }, None),
            Widget::TimeSelector => (AppV { focused: Widget::LogGroups, ..pre }, None),
            _ => (pre, None),
        },
        Key::Char('j') | Key::Down => match pre.focused {
            Widget::LogGroups | Widget::TimeSelector => (
                AppV { focused: Widget::Query, ..pre },
                None,
            ),
            Widget::Query => (AppV { focused: Widget::LogRows, ..pre }, None),
            _ => (AppV { focused: Widget::LogGroups, ..pre }, None),
        },
        Key::Char('k') | Key::Up => match pre.focused {
            Widget::LogGroups => (AppV { focused: Widget::LogRows, ..pre }, None),
            Widget::Query => (AppV { focused: Widget::LogGroups, ..pre }, None),
            Widget::TimeSelector => (AppV { focused: Widget::LogRows, ..pre }, None),
            Widget::LogRows => (AppV { focused: Widget::Query, ..pre }, None),
            _ => (AppV { focused: Widget::LogGroups, ..pre }, None),
        },
        Key::Char('l') | Key::Right => match pre.focused {
            Widget::LogGroups => (AppV { focused: Widget::TimeSelector, ..pre }, None),
            Widget::TimeSelector => (AppV { focused: Widget::LogGroups, ..pre }, None),
            _ => (pre, None),
        },
        Key::Char('r') => (pre, Some(AwsReq::RunQuery)),
        _ => (pre, None),
    }
}

/// A keystroke on the overview screen in Insert mode, which only the result
/// rows use: j/k move the cursor with wraparound, `y` copies the selected
/// row's message to the clipboard and reports the outcome (`clip_ok`), doing
/// nothing at all when there are no rows, and Esc returns to Normal mode.
pub open spec fn spec_overview_insert(pre: AppV, key: Key, clip_ok: bool) -> AppV {
    if pre.focused is LogRows {
        let len = pre.log_results.rows.len() as usize;
        match key {
            Key::Esc => AppV { mode: Mode::Normal, ..pre },
            Key::Char('j') | Key::Down => AppV {
                log_results: LogResultsV {
                    selected_row: wrap_next(pre.log_results.selected_row, len),
                    ..pre.log_results
                },
                ..pre
            },
            Key::Char('k') | Key::Up => AppV {
                log_results: LogResultsV {
                    selected_row: wrap_prev(pre.log_results.selected_row, len),
                    ..pre.log_results
                },
                ..pre
            },
            Key::Char('y') => {
                if len == 0 {
                    pre
                } else {
                    AppV {
                        status_message: if clip_ok {
                            StatusV { text: "Yanked to clipboard."@, level: StatusLevel::Info }
                        } else {
                            StatusV { text: "Clipboard action failed."@, level: StatusLevel::Error }
                        },
                        ..pre
                    }
                }
            },
            _ => pre,
        }
    } else {
        pre
    }
}

/// A keystroke on the overview screen: the open popup captures everything;
/// otherwise the mode decides.
pub open spec fn spec_overview_step(pre: AppV, key: Key, clip_ok: bool) -> (AppV, Option<AwsReq>) {
    if pre.time_selector.popup {
        (spec_popup_step(pre, key), None)
    } else {
        match pre.mode {
            Mode::Normal => spec_overview_normal(pre, key),
            Mode::Insert => (spec_overview_insert(pre, key, clip_ok), None),
        }
    }
}

// ---------------------------------------------------------------------------
// The handler
// ---------------------------------------------------------------------------

fn popup_handle(app: &mut App, key: Key)
    requires
        old(app).wf(),
    ensures
        final(app).wf(),
        final(app)@ == spec_popup_step(old(app)@, key),
{
    match key {
        Key::Backspace => {
            match app.time_selector.input {
                TimeSelectorInput::Start => {
                    pop_char(&mut app.time_selector.edit_start);
                },
                TimeSelectorInput::End => {
                    pop_char(&mut app.time_selector.edit_end);
                },
            }
            proof {
                assert(app@ =~~= spec_popup_step(old(app)@, key));
            }
        },
        Key::Tab => {
            app.time_selector.input = match app.time_selector.input {
                TimeSelectorInput::Start => TimeSelectorInput::End,
                TimeSelectorInput::End => TimeSelectorInput::Start,
            };
            proof {
                assert(app@ =~~= spec_popup_step(old(app)@, key));
            }
        },
        Key::Enter => {
            let res = TimeSelector::from_strings(
                app.time_selector.edit_start.as_str(),
                app.time_selector.edit_end.as_str(),
            );
            match res {
                Ok(nts) => {
                    app.time_selector = nts;
                    app.status_message = StatusMessage::info("New time range selected");
                },
                Err(e) => {
                    app.status_message = StatusMessage::error(e.message());
                },
            }
            proof {
                assert(app@ =~~= spec_popup_step(old(app)@, key));
            }
        },
        Key::Esc => {
            app.time_selector.popup = false;
            proof {
                assert(app@ =~~= spec_popup_step(old(app)@, key));
            }
        },
        Key::Char(c) => {
            match app.time_selector.input {
                TimeSelectorInput::Start => push_char(&mut app.time_selector.edit_start, c),
                TimeSelectorInput::End => push_char(&mut app.time_selector.edit_end, c),
            }
            proof {
                assert(app@ =~~= spec_popup_step(old(app)@, key));
            }
        },
        _ => {
            proof {
                assert(app@ =~~= spec_popup_step(old(app)@, key));
            }
        },
    }
}

fn overview_normal_handle(app: &mut App, key: Key) -> (req: Option<AwsReq>)
    requires
        old(app).wf(),
    ensures
        final(app).wf(),
        (final(app)@, req) == spec_overview_normal(old(app)@, key),
{
    match key {
        Key::Enter => match app.focused {
            Widget::LogGroups => {
                app.selected = SelectedView::LogGroups;
                app.focused = Widget::LogGroups;
                let req = if app.log_groups.log_groups.len() == 0 {
                    Some(AwsReq::ListLogGroups)
                } else {
                    None
                };
                proof {
                    assert(app@ =~~= spec_overview_normal(old(app)@, key).0);
                }
                req
            },
            Widget::Query => {
                app.break_inner = true;
                proof {
                    assert(app@ =~~= spec_overview_normal(old(app)@, key).0);
                }
                None
            },
            Widget::TimeSelector => {
                app.time_selector.popup = true;
                app.time_selector.edit_start = app.time_selector.selected_start_string.clone();
                app.time_selector.edit_end = app.time_selector.selected_end_string.clone();
                proof {
                    assert(app@ =~~= spec_overview_normal(old(app)@, key).0);
                }
                None
            },
            Widget::LogRows => {
                app.mode = Mode::Insert;
                proof {
                    assert(app@ =~~= spec_overview_normal(old(app)@, key).0);
                }
                None
            },
            Widget::LogGroupsResults => None,
        },
        Key::Char(c) => {
            if c == 'h' || c == 'l' {
                focus_swap_horizontal(app);
                proof {
                    assert(app@ =~~= spec_overview_normal(old(app)@, key).0);
                }
                None
            } else if c == 'j' {
                focus_down(app);
                proof {
                    assert(app@ =~~= spec_overview_normal(old(app)@, key).0);
                }
                None
            } else if c == 'k' {
                focus_up(app);
                proof {
                    assert(app@ =~~= spec_overview_normal(old(app)@, key).0);
                }
                None
            } else if c == 'r' {
                Some(AwsReq::RunQuery)
            } else {
                None
            }
        },
        Key::Left | Key::Right => {
            focus_swap_horizontal(app);
            proof {
                assert(app@ =~~= spec_overview_normal(old(app)@, key).0);
            }
            None
        },
        Key::Down => {
            focus_down(app);
            proof {
                assert(app@ =~~= spec_overview_normal(old(app)@, key).0);
            }
            None
        },
        Key::Up => {
            focus_up(app);
            proof {
                assert(app@ =~~= spec_overview_normal(old(app)@, key).0);
            }
            None
        },
        _ => None,
    }
}

fn focus_swap_horizontal(app: &mut App)
    ensures
        final(app)@ == (AppV {
            focused: match old(app)@.focused {
                Widget::LogGroups => Widget::TimeSelector,
                Widget::TimeSelector => Widget::LogGroups,
                other => other,
            },
            ..old(app)@
        }),
{
    app.focused = match app.focused {
        Widget::LogGroups => Widget::TimeSelector,
        Widget::TimeSelector => Widget::LogGroups,
        other => other,
    };
    proof {
        assert(app@ =~~= (AppV {
            focused: match old(app)@.focused {
                Widget::LogGroups => Widget::TimeSelector,
                Widget::TimeSelector => Widget::LogGroups,
                other => other,
            },
            ..old(app)@
        }));
    }
}

fn focus_down(app: &mut App)
    ensures
        final(app)@ == (AppV {
            focused: match old(app)@.focused {
                Widget::LogGroups | Widget::TimeSelector => Widget::Query,
                Widget::Query => Widget::LogRows,
                _ => Widget::LogGroups,
            },
            ..old(app)@
        }),
{
    app.focused = match app.focused {
        Widget::LogGroups | Widget::TimeSelector => Widget::Query,
        Widget::Query => Widget::LogRows,
        _ => Widget::LogGroups,
    };
    proof {
        assert(app@ =~~= (AppV {
            focused: match old(app)@.focused {
                Widget::LogGroups | Widget::TimeSelector => Widget::Query,
                Widget::Query => Widget::LogRows,
                _ => Widget::LogGroups,
            },
            ..old(app)@
        }));
    }
}

fn focus_up(app: &mut App)
    ensures
        final(app)@ == (AppV {
            focused: match old(app)@.focused {
                Widget::LogGroups => Widget::LogRows,
                Widget::Query => Widget::LogGroups,
                Widget::TimeSelector => Widget::LogRows,
                Widget::LogRows => Widget::Query,
                _ => Widget::LogGroups,
            },
            ..old(app)@
        }),
{
    app.focused = match app.focused {
        Widget::LogGroups => Widget::LogRows,
        Widget::Query => Widget::LogGroups,
        Widget::TimeSelector => Widget::LogRows,
        Widget::LogRows => Widget::Query,
        _ => Widget::LogGroups,
    };
    proof {
        assert(app@ =~~= (AppV {
            focused: match old(app)@.focused {
                Widget::LogGroups => Widget::LogRows,
                Widget::Query => Widget::LogGroups,
                Widget::TimeSelector => Widget::LogRows,
                Widget::LogRows => Widget::Query,
                _ => Widget::LogGroups,
            },
            ..old(app)@
        }));
    }
}

fn rows_next(app: &mut App)
    requires
        old(app).wf(),
    ensures
        final(app).wf(),
        final(app)@ == (AppV {
            log_results: LogResultsV {
                selected_row: wrap_next(
                    old(app)@.log_results.selected_row,
                    old(app)@.log_results.rows.len() as usize,
                ),
                ..old(app)@.log_results
            },
            ..old(app)@
        }),
{
    let len = app.log_results.query_results.len();
    app.log_results.query_result_selected = if len > 0 {
        let base = app.log_results.query_result_selected % len;
        if base + 1 == len {
            0
        } else {
            base + 1
        }
    } else {
        0
    };
    proof {
        assert(app@ =~~= (AppV {
            log_results: LogResultsV {
                selected_row: wrap_next(
                    old(app)@.log_results.selected_row,
                    old(app)@.log_results.rows.len() as usize,
                ),
                ..old(app)@.log_results
            },
            ..old(app)@
        }));
    }
}

fn rows_prev(app: &mut App)
    requires
        old(app).wf(),
    ensures
        final(app).wf(),
        final(app)@ == (AppV {
            log_results: LogResultsV {
                selected_row: wrap_prev(
                    old(app)@.log_results.selected_row,
                    old(app)@.log_results.rows.len() as usize,
                ),
                ..old(app)@.log_results
            },
            ..old(app)@
        }),
{
    let len = app.log_results.query_results.len();
    let r = app.log_results.query_result_selected;
    app.log_results.query_result_selected = if r > 0 && len > 0 {
        (r - 1) % len
    } else if r == 0 && len > 0 {
        len - 1
    } else {
        0
    };
    proof {
        assert(app@ =~~= (AppV {
            log_results: LogResultsV {
                selected_row: wrap_prev(
                    old(app)@.log_results.selected_row,
                    old(app)@.log_results.rows.len() as usize,
                ),
                ..old(app)@.log_results
            },
            ..old(app)@
        }));
    }
}

fn rows_yank(app: &mut App)
    requires
        old(app).wf(),
        old(app)@.focused is LogRows,
    ensures
        final(app).wf(),
        final(app)@ == spec_overview_insert(old(app)@, Key::Char('y'), true) || final(app)@
            == spec_overview_insert(old(app)@, Key::Char('y'), false),
{
    if app.log_results.query_results.len() < 1 {
        proof {
            assert(app@ =~~= spec_overview_insert(old(app)@, Key::Char('y'), true));
        }
        return ;
    }
    let row = app.log_results.query_result_selected;
    let content = &app.log_results.query_results[row].message;
    let ok = clipboard_set_text(content);
    app.status_message = if ok {
        StatusMessage::info("Yanked to clipboard.")
    } else {
        StatusMessage::error("Clipboard action failed.")
    };
    proof {
        if ok {
            assert(app@ =~~= spec_overview_insert(old(app)@, Key::Char('y'), true));
        } else {
            assert(app@ =~~= spec_overview_insert(old(app)@, Key::Char('y'), false));
        }
    }
}

fn overview_insert_handle(app: &mut App, key: Key)
    requires
        old(app).wf(),
    ensures
        final(app).wf(),
        final(app)@ == spec_overview_insert(old(app)@, key, true) || final(app)@
            == spec_overview_insert(old(app)@, key, false),
{
    match app.focused {
        Widget::LogRows => match key {
            Key::Esc => {
                app.mode = Mode::Normal;
                proof {
                    assert(app@ =~~= spec_overview_insert(old(app)@, key, true));
                }
            },
            Key::Char(c) => {
                if c == 'j' {
                    rows_next(app);
                } else if c == 'k' {
                    rows_prev(app);
                } else if c == 'y' {
                    rows_yank(app);
                }
            },
            Key::Down => rows_next(app),
            Key::Up => rows_prev(app),
            _ => {},
        },
        _ => {},
    }
}

/// Dispatches a key on the overview screen: the open time popup captures it,
/// else the mode decides. Hands back the request to enqueue, if any.
pub fn handle_input(app: &mut App, key: Key) -> (req: Option<AwsReq>)
    requires
        old(app).wf(),
    ensures
        final(app).wf(),
        (final(app)@, req) == spec_overview_step(old(app)@, key, true) || (final(app)@, req)
            == spec_overview_step(old(app)@, key, false),
{
    if app.time_selector.popup {
        popup_handle(app, key);
        None
    } else {
        match app.mode {
            Mode::Normal => overview_normal_handle(app, key),
            Mode::Insert => {
                overview_insert_handle(app, key);
                None
            },
        }
    }
}

} // verus!
