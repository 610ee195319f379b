//! The remote-request worker's side of the engine: the request queue's
//! vocabulary, the merge of listed log-group pages into the shared state,
//! the query snapshot, and the decoding and publishing of result rows. The
//! worker's own loop performs the network calls and feeds these functions
//! plain values under exclusive access.
use vstd::prelude::*;
use crate::log_groups::{effective_search, filter_log_groups, index_insert, index_search,
    new_search_index, spec_filtered, LogGroupsV};
use crate::overview::{LogResults, LogResultsV, QueryLogRow};
use crate::status_bar::{StatusLevel, StatusMessage, StatusV};
use crate::time_select::{spec_resolve, TimeError};
use crate::{App, AppV};

verus! {

/// One request the input actor enqueues for the remote worker.
#[derive(Clone, Copy, PartialEq, Eq, Structural, Debug)]
pub enum AwsReq {
    ListLogGroups,
    RunQuery,
}

// ---------------------------------------------------------------------------
// Listing log groups
// ---------------------------------------------------------------------------

/// Starts a new listing: the discovered names and their index are reset and
/// the filtered view emptied. The user's selection survives the reset, as do
/// the filter text, the cursor and everything outside the collection.
pub fn list_log_groups_begin(app: &mut App)
    requires
        old(app).wf(),
    ensures
        final(app).wf(),
        final(app)@ == (AppV {
            log_groups: LogGroupsV {
                log_groups: Seq::<Seq<char>>::empty(),
                filtered: Seq::<usize>::empty(),
                index: final(app)@.log_groups.index,
                ..old(app)@.log_groups
            },
            ..old(app)@
        }),
        forall|q: Seq<char>| #[trigger]
            index_search(final(app)@.log_groups.index, q) == Set::<usize>::empty(),
{
    app.log_groups.log_groups = Vec::new();
    app.log_groups.log_group_search_index = new_search_index();
    filter_log_groups(&mut app.log_groups);
    proof {
        assert(app@.log_groups.log_groups =~= Seq::<Seq<char>>::empty());
        assert(app@.log_groups.filtered =~= Seq::<usize>::empty());
        assert(app@ =~~= (AppV {
            log_groups: LogGroupsV {
                log_groups: Seq::<Seq<char>>::empty(),
                filtered: Seq::<usize>::empty(),
                index: app@.log_groups.index,
                ..old(app)@.log_groups
            },
            ..old(app)@
        }));
    }
}

/// Merges one listed page: each name is indexed under its running offset —
/// the count of names already present plus its place in the page — then
/// appended, and the filtered view is recomputed. The selection is left
/// alone, so names selected before a re-listing survive it, stale or not.
pub fn list_log_groups_page(app: &mut App, names: Vec<String>)
    requires
        old(app).wf(),
        old(app)@.log_groups.log_groups.len() + names.deep_view().len() <= usize::MAX,
    ensures
        final(app).wf(),
        final(app)@ == (AppV {
            log_groups: LogGroupsV {
                log_groups: old(app)@.log_groups.log_groups + names.deep_view(),
                filtered: spec_filtered(
                    old(app)@.log_groups.log_groups.len() + names.deep_view().len(),
                    effective_search(final(app)@.log_groups.index, old(app)@.log_groups.filter),
                ),
                index: final(app)@.log_groups.index,
                ..old(app)@.log_groups
            },
            ..old(app)@
        }),
{
    let n = names.len();
    let mut i: usize = 0;
    while i < n
        invariant
            0 <= i <= n,
            n == names@.len(),
            names.deep_view().len() == n,
            old(app)@.log_groups.log_groups.len() + n <= usize::MAX,
            app@.log_groups.log_groups == old(app)@.log_groups.log_groups + names.deep_view().take(
                i as int,
            ),
            app@ == (AppV {
                log_groups: LogGroupsV {
                    log_groups: app@.log_groups.log_groups,
                    index: app@.log_groups.index,
                    ..old(app)@.log_groups
                },
                ..old(app)@
            }),
        decreases n - i,
    {
        let ghost before = app@.log_groups.log_groups;
        let key = app.log_groups.log_groups.len();
        index_insert(&mut app.log_groups.log_group_search_index, key, &names[i]);
        let name = names[i].clone();
        app.log_groups.log_groups.push(name);
        proof {
            assert(names.deep_view()[i as int] == names@[i as int]@);
            assert(app@.log_groups.log_groups =~= before.push(names.deep_view()[i as int]));
            assert(before.push(names.deep_view()[i as int]) =~= old(app)@.log_groups.log_groups
                + names.deep_view().take(i + 1));
        }
        i += 1;
    }
    proof {
        assert(names.deep_view().take(n as int) =~= names.deep_view());
    }
    filter_log_groups(&mut app.log_groups);
    proof {
        assert(app@ =~~= (AppV {
            log_groups: LogGroupsV {
                log_groups: old(app)@.log_groups.log_groups + names.deep_view(),
                filtered: spec_filtered(
                    old(app)@.log_groups.log_groups.len() + names.deep_view().len(),
                    effective_search(app@.log_groups.index, old(app)@.log_groups.filter),
                ),
                index: app@.log_groups.index,
                ..old(app)@.log_groups
            },
            ..old(app)@
        }));
    }
}

/// Reports a finished listing: every page was merged.
pub fn list_log_groups_done(app: &mut App)
    requires
        old(app).wf(),
    ensures
        final(app).wf(),
        final(app)@ == (AppV {
            status_message: StatusV {
                text: "Log groups request completed"@,
                level: StatusLevel::Info,
            },
            ..old(app)@
        }),
{
    app.status_message = StatusMessage::info("Log groups request completed");
    proof {
        assert(app@ =~~= (AppV {
            status_message: StatusV {
                text: "Log groups request completed"@,
                level: StatusLevel::Info,
            },
            ..old(app)@
        }));
    }
}

/// Reports a listing the backend failed; pages already merged are kept.
pub fn list_log_groups_failed(app: &mut App)
    requires
        old(app).wf(),
    ensures
        final(app).wf(),
        final(app)@ == (AppV {
            status_message: StatusV {
                text: "Log groups request failed"@,
                level: StatusLevel::Error,
            },
            ..old(app)@
        }),
{
    app.status_message = StatusMessage::error("Log groups request failed");
    proof {
        assert(app@ =~~= (AppV {
            status_message: StatusV {
                text: "Log groups request failed"@,
                level: StatusLevel::Error,
            },
            ..old(app)@
        }));
    }
}

// ---------------------------------------------------------------------------
// Running a query
// ---------------------------------------------------------------------------

/// Takes, in one critical section, everything a query run needs — the
/// selected log groups, the query text, and the time range resolved against
/// the wall clock read once — and reports the started run.
pub fn start_query_snapshot(app: &mut App) -> (r: (Vec<String>, String, i64, i64))
    requires
        old(app).wf(),
    ensures
        final(app).wf(),
        final(app)@ == (AppV {
            status_message: StatusV {
                text: "Cloudwatch Insights query started"@,
                level: StatusLevel::Info,
            },
            ..old(app)@
        }),
        r.0.deep_view() == old(app)@.log_groups.selected,
        r.1@ == old(app)@.query,
        exists|t: i64|
            0 <= t && spec_resolve(
                old(app)@.time_selector.start,
                old(app)@.time_selector.end,
                t,
            ) == Ok::<(i64, i64), TimeError>((r.2, r.3)),
{
    let log_groups = app.log_groups.selected_log_groups.clone();
    proof {
        assert forall|k: int| 0 <= k < log_groups@.len() implies log_groups.deep_view()[k]
            == old(app)@.log_groups.selected[k] by {
            assert(cloned::<String>(app.log_groups.selected_log_groups@[k], log_groups@[k]));
        }
        assert(log_groups.deep_view() =~= old(app)@.log_groups.selected);
    }
    let times = app.time_selector.to_timestamps();
    app.status_message = StatusMessage::info("Cloudwatch Insights query started");
    let query = app.query.clone();
    proof {
        assert(app@ =~~= (AppV {
            status_message: StatusV {
                text: "Cloudwatch Insights query started"@,
                level: StatusLevel::Info,
            },
            ..old(app)@
        }));
    }
    (log_groups, query, times.0, times.1)
}

/// Where the cursor lands when the rows are replaced: clamped back into the
/// new rows, at zero when none remain.
pub open spec fn spec_clamp_row(row: usize, len: nat) -> usize {
    if len == 0 {
        0
    } else if row >= len {
        (len - 1) as usize
    } else {
        row
    }
}

/// Publishes one poll's rows: the previous snapshot is replaced wholesale —
/// never appended to — and the cursor is clamped into the new rows.
pub fn apply_query_results(app: &mut App, rows: Vec<QueryLogRow>)
    requires
        old(app).wf(),
    ensures
        final(app).wf(),
        final(app)@ == (AppV {
            log_results: LogResultsV {
                rows: rows.deep_view(),
                selected_row: spec_clamp_row(
                    old(app)@.log_results.selected_row,
                    rows.deep_view().len(),
                ),
            },
            ..old(app)@
        }),
{
    let len = rows.len();
    app.log_results.query_results = rows;
    if len == 0 {
        app.log_results.query_result_selected = 0;
    } else if app.log_results.query_result_selected >= len {
        app.log_results.query_result_selected = len - 1;
    }
    proof {
        assert(app@ =~~= (AppV {
            log_results: LogResultsV {
                rows: app@.log_results.rows,
                selected_row: app@.log_results.selected_row,
            },
            ..old(app)@
        }));
    }
}

/// Publishes the final rows of a completed query and reports it: what the
/// final response carried is what stays, not any intermediate snapshot.
pub fn finish_query_results(app: &mut App, rows: Vec<QueryLogRow>)
    requires
        old(app).wf(),
    ensures
        final(app).wf(),
        final(app)@ == (AppV {
            log_results: LogResultsV {
                rows: rows.deep_view(),
                selected_row: spec_clamp_row(
                    old(app)@.log_results.selected_row,
                    rows.deep_view().len(),
                ),
            },
            status_message: StatusV {
                text: "Cloudwatch Insights query completed"@,
                level: StatusLevel::Info,
            },
            ..old(app)@
        }),
{
    apply_query_results(app, rows);
    app.status_message = StatusMessage::info("Cloudwatch Insights query completed");
    proof {
        assert(app@ =~~= (AppV {
            log_results: final(app)@.log_results,
            status_message: StatusV {
                text: "Cloudwatch Insights query completed"@,
                level: StatusLevel::Info,
            },
            ..old(app)@
        }));
    }
}

/// Reports a query the backend failed to start or run.
pub fn query_failed(app: &mut App)
    requires
        old(app).wf(),
    ensures
        final(app).wf(),
        final(app)@ == (AppV {
            status_message: StatusV {
                text: "Cloudwatch Insights query failed"@,
                level: StatusLevel::Error,
            },
            ..old(app)@
        }),
{
    app.status_message = StatusMessage::error("Cloudwatch Insights query failed");
    proof {
        assert(app@ =~~= (AppV {
            status_message: StatusV {
                text: "Cloudwatch Insights query failed"@,
                level: StatusLevel::Error,
            },
            ..old(app)@
        }));
    }
}

// ---------------------------------------------------------------------------
// Decoding result rows
// ---------------------------------------------------------------------------

/// One field of a backend result row: a name and its value.
#[derive(Debug)]
pub struct QueryField {
    pub field: String,
    pub value: String,
}

/// Abstract value of a field.
#[verifier::ext_equal]
pub ghost struct QueryFieldV {
    pub field: Seq<char>,
    pub value: Seq<char>,
}

impl View for QueryField {
    type V = QueryFieldV;

    open spec fn view(&self) -> QueryFieldV {
        QueryFieldV { field: self.field@, value: self.value@ }
    }
}

impl DeepView for QueryField {
    type V = QueryFieldV;

    open spec fn deep_view(&self) -> QueryFieldV {
        self@
    }
}

/// A malformed backend row: which required field is missing.
#[derive(Clone, Copy, PartialEq, Eq, Structural, Debug)]
pub enum DecodeError {
    MissingMessage,
    MissingTimestamp,
    MissingPtr,
}

/// The value of the last field with the given name, if any: with a repeated
/// name the later value wins, as collecting the pairs into a map would.
pub open spec fn last_value(fields: Seq<QueryFieldV>, name: Seq<char>) -> Option<Seq<char>>
    decreases fields.len(),
{
    if fields.len() == 0 {
        None
    } else if fields.last().field == name {
        Some(fields.last().value)
    } else {
        last_value(fields.drop_last(), name)
    }
}

spec fn opt_text(o: Option<String>) -> Option<Seq<char>> {
    match o {
        Some(s) => Some(s@),
        None => None,
    }
}

/// Decodes one backend result row into the message/timestamp/pointer shape.
/// A row missing any of the three required fields is a defect in the backend
/// response and fails the decode, naming the first missing field.
pub fn decode_query_row(fields: &Vec<QueryField>) -> (r: Result<QueryLogRow, DecodeError>)
    ensures
        match r {
            Ok(row) => {
                &&& last_value(fields.deep_view(), "@message"@) == Some(row@.message)
                &&& last_value(fields.deep_view(), "@timestamp"@) == Some(row@.timestamp)
                &&& last_value(fields.deep_view(), "@ptr"@) == Some(row@.ptr)
            },
            Err(e) => match e {
                DecodeError::MissingMessage => last_value(fields.deep_view(), "@message"@)
                    is None,
                DecodeError::MissingTimestamp => last_value(fields.deep_view(), "@message"@)
                    is Some && last_value(fields.deep_view(), "@timestamp"@) is None,
                DecodeError::MissingPtr => last_value(fields.deep_view(), "@message"@) is Some
                    && last_value(fields.deep_view(), "@timestamp"@) is Some && last_value(
                    fields.deep_view(),
                    "@ptr"@,
                ) is None,
            },
        },
{
    let message_key = "@message".to_owned();
    let timestamp_key = "@timestamp".to_owned();
    let ptr_key = "@ptr".to_owned();
    let mut message: Option<String> = None;
    let mut timestamp: Option<String> = None;
    let mut ptr: Option<String> = None;
    let n = fields.len();
    let mut i: usize = 0;
    while i < n
        invariant
            0 <= i <= n,
            n == fields@.len(),
            fields.deep_view().len() == n,
            message_key@ == "@message"@,
            timestamp_key@ == "@timestamp"@,
            ptr_key@ == "@ptr"@,
            opt_text(message) == last_value(fields.deep_view().take(i as int), "@message"@),
            opt_text(timestamp) == last_value(fields.deep_view().take(i as int), "@timestamp"@),
            opt_text(ptr) == last_value(fields.deep_view().take(i as int), "@ptr"@),
        decreases n - i,
    {
        proof {
            reveal_strlit("@message");
            reveal_strlit("@timestamp");
            reveal_strlit("@ptr");
            assert("@message"@.len() == 8 && "@timestamp"@.len() == 10 && "@ptr"@.len() == 4);
            assert("@message"@ != "@timestamp"@ && "@message"@ != "@ptr"@ && "@timestamp"@
                != "@ptr"@);
            assert(fields.deep_view().take(i + 1).drop_last() =~= fields.deep_view().take(
                i as int,
            ));
            assert(fields.deep_view().take(i + 1).last() == fields.deep_view()[i as int]);
            assert(fields.deep_view()[i as int] == fields@[i as int]@);
        }
        if fields[i].field.eq(&message_key) {
            message = Some(fields[i].value.clone());
        } else if fields[i].field.eq(&timestamp_key) {
            timestamp = Some(fields[i].value.clone());
        } else if fields[i].field.eq(&ptr_key) {
            ptr = Some(fields[i].value.clone());
        }
        i += 1;
    }
    proof {
        assert(fields.deep_view().take(n as int) =~= fields.deep_view());
    }
    let message = match message {
        Some(m) => m,
        None => {
            return Err(DecodeError::MissingMessage);
        },
    };
    let timestamp = match timestamp {
        Some(t) => t,
        None => {
            return Err(DecodeError::MissingTimestamp);
        },
    };
    let ptr = match ptr {
        Some(p) => p,
        None => {
            return Err(DecodeError::MissingPtr);
        },
    };
    Ok(QueryLogRow { message, timestamp, ptr })
}

} // verus!
