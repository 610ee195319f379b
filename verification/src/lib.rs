//! Core engine of a terminal dashboard for a remote log-search service:
//! the shared application state machine, the time-range expression parser
//! and resolver, the incremental log-group search filter, and the request
//! worker's merge protocol. Terminal drawing, networking and process
//! plumbing live outside this crate and only feed plain values in and out.
pub mod cwl;
pub mod events;
pub mod log_groups;
pub mod overview;
pub mod status_bar;
pub mod text;
pub mod time_select;

use vstd::prelude::*;
use crate::cwl::AwsReq;
use crate::log_groups::{lg_wf, LogGroups, LogGroupsV};
use crate::overview::{results_wf, LogResults, LogResultsV, RowV};
use crate::status_bar::{StatusLevel, StatusMessage, StatusV};
use crate::time_select::{selector_wf, spec_default_selector, TimeSelector, TimeSelectorV};

verus! {

/// Which widget receives key input.
#[derive(Clone, Copy, PartialEq, Eq, Structural, Debug)]
pub enum Widget {
    LogGroups,
    LogGroupsResults,
    Query,
    LogRows,
    TimeSelector,
}

/// Which top-level screen is active.
#[derive(Clone, Copy, PartialEq, Eq, Structural, Debug)]
pub enum SelectedView {
    Overview,
    LogGroups,
}

/// The modal input discipline: Normal navigates, Insert edits.
#[derive(Clone, Copy, PartialEq, Eq, Structural, Debug)]
pub enum Mode {
    Normal,
    Insert,
}

/// A key event, as the input loop hands it to the state machine.
#[derive(Clone, Copy, PartialEq, Eq, Structural, Debug)]
pub enum Key {
    Char(char),
    Enter,
    Esc,
    Backspace,
    Tab,
    Left,
    Right,
    Up,
    Down,
    Other,
}

/// The single shared application state, mutated only under exclusive access.
pub struct App {
    pub selected: SelectedView,
    pub focused: Widget,
    pub mode: Mode,
    pub log_groups: LogGroups,
    pub break_inner: bool,
    pub quit: bool,
    pub query: String,
    pub log_results: LogResults,
    pub status_message: StatusMessage,
    pub time_selector: TimeSelector,
}

/// Abstract value of the whole application state.
#[verifier::ext_equal]
pub ghost struct AppV {
    pub selected: SelectedView,
    pub focused: Widget,
    pub mode: Mode,
    pub log_groups: LogGroupsV,
    pub break_inner: bool,
    pub quit: bool,
    pub query: Seq<char>,
    pub log_results: LogResultsV,
    pub status_message: StatusV,
    pub time_selector: TimeSelectorV,
}

impl View for App {
    type V = AppV;

    open spec fn view(&self) -> AppV {
        AppV {
            selected: self.selected,
            focused: self.focused,
            mode: self.mode,
            log_groups: self.log_groups@,
            break_inner: self.break_inner,
            quit: self.quit,
            query: self.query@,
            log_results: self.log_results@,
            status_message: self.status_message@,
            time_selector: self.time_selector@,
        }
    }
}

/// The state's invariants: the filtered view in sync and the selection free
/// of duplicates, at most one relative time bound, and the result cursor
/// inside the rows.
pub open spec fn app_wf(v: AppV) -> bool {
    &&& lg_wf(v.log_groups)
    &&& selector_wf(v.time_selector)
    &&& results_wf(v.log_results)
}

/// A keystroke at the top of the event loop: `q` in Normal mode with the
/// popup closed quits; anything else goes to the active screen's handler.
pub open spec fn spec_handle_key(pre: AppV, key: Key, clip_ok: bool) -> (AppV, Option<AwsReq>) {
    if pre.mode is Normal && !pre.time_selector.popup && key == Key::Char('q') {
        (AppV { quit: true, ..pre }, None)
    } else {
        match pre.selected {
            SelectedView::LogGroups => crate::log_groups::spec_browser_step(pre, key),
            SelectedView::Overview => crate::overview::spec_overview_step(pre, key, clip_ok),
        }
    }
}

impl App {
    pub open spec fn wf(&self) -> bool {
        app_wf(self@)
    }

    /// Dispatches one key event through the focus/mode state machine,
    /// mutating the state and handing back the request to enqueue, if any.
    /// The clipboard's verdict is the one thing the environment decides, so
    /// the outcome matches the transition relation under one of its values.
    pub fn handle_key(&mut self, key: Key) -> (req: Option<AwsReq>)
        requires
            old(self).wf(),
        ensures
            final(self).wf(),
            (final(self)@, req) == spec_handle_key(old(self)@, key, true) || (
            final(self)@,
            req,
            ) == spec_handle_key(old(self)@, key, false),
    {
        let is_quit = match key {
            Key::Char(c) => c == 'q',
            _ => false,
        };
        let normal = match self.mode {
            Mode::Normal => true,
            Mode::Insert => false,
        };
        if normal && !self.time_selector.popup && is_quit {
            self.quit = true;
            proof {
                assert(self@ =~~= spec_handle_key(old(self)@, key, true).0);
            }
            None
        } else {
            match self.selected {
                SelectedView::LogGroups => crate::log_groups::handle_input(self, key),
                SelectedView::Overview => crate::overview::handle_input(self, key),
            }
        }
    }
}

impl Default for App {
    /// The state at startup: the overview with nothing discovered, a default
    /// query template, a blank status and the hour-up-to-now time range.
    fn default() -> (r: Self)
        ensures
            r@.selected == SelectedView::Overview,
            r@.focused == Widget::LogGroups,
            r@.mode == Mode::Normal,
            !r@.break_inner,
            !r@.quit,
            r@.query == "fields @timestamp, @message\n| sort @timestamp desc\n"@,
            r@.log_groups.log_groups == Seq::<Seq<char>>::empty(),
            r@.log_groups.filtered == Seq::<usize>::empty(),
            r@.log_groups.selected == Seq::<Seq<char>>::empty(),
            r@.log_groups.row == 0,
            r@.log_groups.filter == Seq::<char>::empty(),
            r@.log_results.rows == Seq::<RowV>::empty(),
            r@.log_results.selected_row == 0,
            r@.status_message == (StatusV { text: Seq::<char>::empty(), level: StatusLevel::Info }),
            r@.time_selector == spec_default_selector(),
            r.wf(),
    {
        App {
            selected: SelectedView::Overview,
            focused: Widget::LogGroups,
            mode: Mode::Normal,
            break_inner: false,
            query: "fields @timestamp, @message\n| sort @timestamp desc\n".to_owned(),
            quit: false,
            log_results: LogResults::default(),
            status_message: StatusMessage::default(),
            log_groups: LogGroups::default(),
            time_selector: TimeSelector::default(),
        }
    }
}

/// Applies the outer loop's editor outcome to the query text: edited text
/// replaces it; a failed editor keeps the old text and reports the failure.
/// Either way the editor request is considered served.
pub fn apply_editor_result(app: &mut App, edited: Option<String>)
    requires
        old(app).wf(),
    ensures
        final(app).wf(),
        final(app)@ == match edited {
            Some(t) => AppV { query: t@, break_inner: false, ..old(app)@ },
            None => AppV {
                break_inner: false,
                status_message: StatusV {
                    text: "Editor input failed"@,
                    level: StatusLevel::Error,
                },
                ..old(app)@
            },
        },
{
    match edited {
        Some(t) => {
            app.query = t;
            app.break_inner = false;
            proof {
                assert(app@ =~~= (AppV { query: app@.query, break_inner: false, ..old(app)@ }));
            }
        },
        None => {
            app.status_message = StatusMessage::error("Editor input failed");
            app.break_inner = false;
            proof {
                assert(app@ =~~= (AppV {
                    break_inner: false,
                    status_message: StatusV {
                        text: "Editor input failed"@,
                        level: StatusLevel::Error,
                    },
                    ..old(app)@
                }));
            }
        },
    }
}

} // verus!
