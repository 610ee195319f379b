//! The log-group collection: discovered names in order, the incremental
//! search index over them, the filtered view, and the user's selection.
use vstd::prelude::*;
use indicium::simple::SearchIndex;
use crate::cwl::AwsReq;
use crate::overview::{wrap_next, wrap_prev};
use crate::text::{pop_char, pop_text, push_char};
use crate::{App, AppV, Key, Mode, SelectedView, Widget};

verus! {

// ---------------------------------------------------------------------------
// Trusted boundary: indicium's search index. The index value is opaque; the
// one thing the contracts speak of is which keys a search returns, named
// `index_search`.
// ---------------------------------------------------------------------------

/// Indicium's search index over the log-group names, held opaquely: the
/// index type itself is beyond the verifier, so the struct is trusted as a
/// whole and everything the contracts say of it goes through `index_search`.
#[verifier::external_body]
pub struct NameIndex {
    inner: SearchIndex<usize>,
}

/// The set of keys whose indexed text matches the query, as indicium's
/// search returns them: a deterministic function of the index value and the
/// query text.
pub uninterp spec fn index_search(idx: NameIndex, q: Seq<char>) -> Set<usize>;

/// Relies on SearchIndex::default: a fresh index holds nothing, so no query
/// matches anything in it.
#[verifier::external_body]
pub(crate) fn new_search_index() -> (r: NameIndex)
    ensures
        forall|q: Seq<char>| #[trigger] index_search(r, q) == Set::<usize>::empty(),
{
    NameIndex { inner: SearchIndex::default() }
}

/// Relies on SearchIndex::insert: indexes the text under the key. What
/// searches of the changed index return is only visible through
/// `index_search` of the new index value.
#[verifier::external_body]
pub(crate) fn index_insert(idx: &mut NameIndex, key: usize, text: &String) {
    idx.inner.insert(&key, text);
}

/// Relies on SearchIndex::search: hands back exactly the matching keys.
#[verifier::external_body]
pub(crate) fn index_search_keys(idx: &NameIndex, q: &str) -> (r: Vec<usize>)
    ensures
        r@.to_set() == index_search(*idx, q@),
{
    idx.inner.search(q).into_iter().copied().collect()
}

// ---------------------------------------------------------------------------
// The collection
// ---------------------------------------------------------------------------

/// Discovered log groups, their search index, the filter text, the filtered
/// positions, the cursor row, and the names the user selected.
pub struct LogGroups {
    pub log_groups: Vec<String>,
    pub filtered_log_groups: Vec<usize>,
    pub selected_log_groups: Vec<String>,
    pub log_group_search_index: NameIndex,
    pub log_group_row: usize,
    pub log_filter: String,
}

/// Abstract value of the collection. The index rides along as a value: what
/// matters about it is only what `index_search` says of it.
#[verifier::ext_equal]
pub ghost struct LogGroupsV {
    pub log_groups: Seq<Seq<char>>,
    pub filtered: Seq<usize>,
    pub selected: Seq<Seq<char>>,
    pub index: NameIndex,
    pub row: usize,
    pub filter: Seq<char>,
}

impl View for LogGroups {
    type V = LogGroupsV;

    open spec fn view(&self) -> LogGroupsV {
        LogGroupsV {
            log_groups: self.log_groups.deep_view(),
            filtered: self.filtered_log_groups@,
            selected: self.selected_log_groups.deep_view(),
            index: self.log_group_search_index,
            row: self.log_group_row,
            filter: self.log_filter@,
        }
    }
}

/// The key set the filter goes by: an empty filter text queries nothing and
/// so matches everything (the empty result set means "no filter").
pub open spec fn effective_search(idx: NameIndex, q: Seq<char>) -> Set<usize> {
    if q.len() == 0 {
        Set::empty()
    } else {
        index_search(idx, q)
    }
}

/// The positions that pass the filter, in order: all of them when the found
/// set is empty, else exactly the found ones.
pub open spec fn spec_filtered(n: nat, found: Set<usize>) -> Seq<usize>
    decreases n,
{
    if n == 0 {
        Seq::empty()
    } else {
        let rest = spec_filtered((n - 1) as nat, found);
        if found.is_empty() || found.contains((n - 1) as usize) {
            rest.push((n - 1) as usize)
        } else {
            rest
        }
    }
}

/// Every position in order: what an empty filter yields.
pub open spec fn all_positions(n: nat) -> Seq<usize> {
    Seq::new(n, |i: int| i as usize)
}

pub proof fn lemma_spec_filtered_bounds(n: nat, found: Set<usize>)
    requires
        n <= usize::MAX,
    ensures
        forall|k: int|
            0 <= k < spec_filtered(n, found).len() ==> (#[trigger] spec_filtered(n, found)[k])
                < n,
        forall|k1: int, k2: int|
            0 <= k1 < k2 < spec_filtered(n, found).len() ==> spec_filtered(n, found)[k1]
                < spec_filtered(n, found)[k2],
    decreases n,
{
    if n > 0 {
        lemma_spec_filtered_bounds((n - 1) as nat, found);
        let r = spec_filtered((n - 1) as nat, found);
        let s = spec_filtered(n, found);
        if found.is_empty() || found.contains((n - 1) as usize) {
            assert(s == r.push((n - 1) as usize));
            assert(forall|k: int| 0 <= k < s.len() - 1 ==> s[k] == r[k]);
            assert(s[s.len() - 1] == (n - 1) as usize);
        } else {
            assert(s == r);
        }
    }
}

/// An empty filter passes every position: the filtered view is the whole
/// collection in order, whatever the index holds.
pub proof fn lemma_empty_filter_passes_all(n: nat)
    ensures
        spec_filtered(n, Set::<usize>::empty()) == all_positions(n),
    decreases n,
{
    if n == 0 {
        assert(spec_filtered(n, Set::<usize>::empty()) =~= all_positions(n));
    } else {
        lemma_empty_filter_passes_all((n - 1) as nat);
        assert(spec_filtered(n, Set::<usize>::empty()) =~= all_positions(n));
    }
}

fn contains_key(v: &Vec<usize>, x: usize) -> (b: bool)
    ensures
        b == v@.contains(x),
{
    let mut i: usize = 0;
    let n = v.len();
    while i < n
        invariant
            0 <= i <= n,
            n == v@.len(),
            forall|k: int| 0 <= k < i ==> v@[k] != x,
        decreases n - i,
    {
        if v[i] == x {
            return true;
        }
        i += 1;
    }
    false
}

/// Recomputes the filtered positions from the filter text and the index:
/// a position passes when the search found nothing at all (no filter, or a
/// query with no matches means "show everything" here, a policy of this
/// caller and not of the index) or when the search found it.
pub fn filter_log_groups(groups: &mut LogGroups)
    ensures
        final(groups)@ == (LogGroupsV {
            filtered: spec_filtered(
                old(groups)@.log_groups.len(),
                effective_search(old(groups)@.index, old(groups)@.filter),
            ),
            ..old(groups)@
        }),
        old(groups)@.filter.len() == 0 ==> final(groups)@.filtered == all_positions(
            old(groups)@.log_groups.len(),
        ),
{
    let res: Vec<usize> = if groups.log_filter.as_str().is_empty() {
        Vec::new()
    } else {
        index_search_keys(&groups.log_group_search_index, groups.log_filter.as_str())
    };
    proof {
        assert(res@.to_set() =~= effective_search(groups@.index, groups@.filter));
    }
    let n = groups.log_groups.len();
    let res_empty = res.len() == 0;
    proof {
        if res_empty {
            assert(res@.to_set() =~= Set::<usize>::empty());
        } else {
            assert(res@.to_set().contains(res@[0]));
        }
    }
    let mut filtered: Vec<usize> = Vec::new();
    let mut i: usize = 0;
    while i < n
        invariant
            0 <= i <= n,
            n == groups.log_groups.len(),
            res_empty == res@.to_set().is_empty(),
            filtered@ == spec_filtered(i as nat, res@.to_set()),
        decreases n - i,
    {
        if res_empty || contains_key(&res, i) {
            filtered.push(i);
        }
        i += 1;
    }
    groups.filtered_log_groups = filtered;
    proof {
        if groups@.filter.len() == 0 {
            lemma_empty_filter_passes_all(groups@.log_groups.len());
        }
    }
}

// ---------------------------------------------------------------------------
// Selection
// ---------------------------------------------------------------------------

/// The sequence with every occurrence of the value removed.
pub open spec fn spec_remove_all(s: Seq<Seq<char>>, v: Seq<char>) -> Seq<Seq<char>>
    decreases s.len(),
{
    if s.len() == 0 {
        Seq::empty()
    } else {
        let rest = spec_remove_all(s.drop_last(), v);
        if s.last() == v {
            rest
        } else {
            rest.push(s.last())
        }
    }
}

/// A toggle of the value's membership, by value equality: present names are
/// removed, absent ones appended.
pub open spec fn spec_toggle(s: Seq<Seq<char>>, v: Seq<char>) -> Seq<Seq<char>> {
    if s.contains(v) {
        spec_remove_all(s, v)
    } else {
        s.push(v)
    }
}

proof fn lemma_remove_all_absent(s: Seq<Seq<char>>, v: Seq<char>)
    requires
        !s.contains(v),
    ensures
        spec_remove_all(s, v) == s,
    decreases s.len(),
{
    if s.len() > 0 {
        assert(!s.drop_last().contains(v)) by {
            if s.drop_last().contains(v) {
                let k = choose|k: int| 0 <= k < s.drop_last().len() && s.drop_last()[k] == v;
                assert(s[k] == v);
            }
        }
        lemma_remove_all_absent(s.drop_last(), v);
        assert(s.last() != v);
        assert(spec_remove_all(s, v) =~= s);
    } else {
        assert(spec_remove_all(s, v) =~= s);
    }
}

proof fn lemma_remove_all_single(s: Seq<Seq<char>>, v: Seq<char>)
    requires
        s.no_duplicates(),
        s.contains(v),
    ensures
        spec_remove_all(s, v).push(v).to_multiset() == s.to_multiset(),
        !spec_remove_all(s, v).contains(v),
        spec_remove_all(s, v).no_duplicates(),
    decreases s.len(),
{
    broadcast use vstd::seq_lib::group_to_multiset_ensures;

    let dl = s.drop_last();
    assert(dl.no_duplicates());
    if s.last() == v {
        assert(!dl.contains(v)) by {
            if dl.contains(v) {
                let k = choose|k: int| 0 <= k < dl.len() && dl[k] == v;
                assert(s[k] == v && s[s.len() - 1] == v && k != s.len() - 1);
            }
        }
        lemma_remove_all_absent(dl, v);
        assert(spec_remove_all(s, v) == dl);
        assert(dl.push(v) =~= s);
    } else {
        assert(dl.contains(v)) by {
            let k = choose|k: int| 0 <= k < s.len() && s[k] == v;
            assert(k != s.len() - 1);
            assert(dl[k] == v);
        }
        lemma_remove_all_single(dl, v);
        let r = spec_remove_all(dl, v);
        assert(spec_remove_all(s, v) == r.push(s.last()));
        assert(r.push(s.last()).push(v).to_multiset() =~= s.to_multiset()) by {
            assert(r.push(s.last()).push(v).to_multiset() == r.to_multiset().insert(
                s.last(),
            ).insert(v));
            assert(r.push(v).to_multiset() == r.to_multiset().insert(v));
            assert(r.to_multiset().insert(v) == dl.to_multiset());
            assert(dl.push(s.last()) =~= s);
            assert(dl.push(s.last()).to_multiset() == dl.to_multiset().insert(s.last()));
            assert(s.to_multiset() == dl.to_multiset().insert(s.last()));
            assert(r.to_multiset().insert(s.last()).insert(v) == r.to_multiset().insert(
                v,
            ).insert(s.last()));
        }
        assert(!r.push(s.last()).contains(v)) by {
            if r.push(s.last()).contains(v) {
                let k = choose|k: int|
                    0 <= k < r.push(s.last()).len() && r.push(s.last())[k] == v;
                if k < r.len() {
                    assert(r[k] == v);
                }
            }
        }
        assert(r.push(s.last()).no_duplicates()) by {
            assert(forall|k: int| 0 <= k < r.len() ==> dl.to_multiset().contains(#[trigger] r[k]))
                by {
                assert(forall|k: int|
                    0 <= k < r.len() ==> r.to_multiset().contains(#[trigger] r[k]));
                assert(forall|x: Seq<char>|
                    r.to_multiset().contains(x) ==> dl.to_multiset().contains(x));
            }
            assert(forall|k: int| 0 <= k < r.len() ==> dl.contains(#[trigger] r[k]));
            assert(forall|k: int| 0 <= k < r.len() ==> #[trigger] r[k] != s.last()) by {
                assert(forall|k: int|
                    0 <= k < dl.len() ==> #[trigger] dl[k] != s.last());
            }
        }
    }
}

/// Toggling the same name twice leaves the selection unchanged, counted as a
/// bag of names: membership is decided by value equality, not by position.
pub proof fn lemma_toggle_twice(s: Seq<Seq<char>>, v: Seq<char>)
    requires
        s.no_duplicates(),
    ensures
        spec_toggle(spec_toggle(s, v), v).to_multiset() == s.to_multiset(),
{
    broadcast use vstd::seq_lib::group_to_multiset_ensures;

    if s.contains(v) {
        lemma_remove_all_single(s, v);
        let r = spec_remove_all(s, v);
        assert(!r.contains(v));
        assert(spec_toggle(r, v) == r.push(v));
    } else {
        let p = s.push(v);
        assert(p.contains(v)) by {
            assert(p[p.len() - 1] == v);
        }
        assert(p.no_duplicates()) by {
            assert(forall|k: int| 0 <= k < s.len() ==> #[trigger] s[k] != v);
        }
        lemma_remove_all_single(p, v);
        assert(spec_toggle(s, v) == p);
        assert(p.drop_last() =~= s);
        assert(!s.contains(v));
        lemma_remove_all_absent(s, v);
        assert(spec_remove_all(p, v) == s);
    }
}

/// Toggling keeps the selection free of duplicates.
pub proof fn lemma_toggle_no_duplicates(s: Seq<Seq<char>>, v: Seq<char>)
    requires
        s.no_duplicates(),
    ensures
        spec_toggle(s, v).no_duplicates(),
{
    if s.contains(v) {
        lemma_remove_all_single(s, v);
    } else {
        assert(forall|k: int| 0 <= k < s.len() ==> #[trigger] s[k] != v);
    }
}

/// Toggles the value's membership in the selection, exactly as the Enter
/// action on a highlighted log group does: remove it if present (by value),
/// else append it.
pub fn toggle_selected(groups: &mut LogGroups, value: String)
    ensures
        final(groups)@ == (LogGroupsV {
            selected: spec_toggle(old(groups)@.selected, value@),
            ..old(groups)@
        }),
{
    let sel = &groups.selected_log_groups;
    let n = sel.len();
    let mut kept: Vec<String> = Vec::new();
    let mut removed = false;
    let mut i: usize = 0;
    while i < n
        invariant
            0 <= i <= n,
            n == sel@.len(),
            sel == groups.selected_log_groups,
            kept.deep_view() == spec_remove_all(sel.deep_view().take(i as int), value@),
            removed == sel.deep_view().take(i as int).contains(value@),
        decreases n - i,
    {
        let ghost pre = sel.deep_view().take(i as int);
        let same = sel[i].eq(&value);
        if !same {
            kept.push(sel[i].clone());
        } else {
            removed = true;
        }
        proof {
            let cur = sel.deep_view().take(i + 1);
            assert(cur.drop_last() =~= pre);
            assert(cur.last() == sel.deep_view()[i as int]);
            if same {
                assert(cur.contains(value@)) by {
                    assert(cur[i as int] == value@);
                }
            } else {
                assert(kept.deep_view() =~= spec_remove_all(pre, value@).push(
                    sel.deep_view()[i as int],
                ));
                assert(cur.contains(value@) == pre.contains(value@)) by {
                    if cur.contains(value@) {
                        let k = choose|k: int| 0 <= k < cur.len() && cur[k] == value@;
                        assert(k < pre.len() || cur[k] == sel.deep_view()[i as int]);
                        if k < pre.len() {
                            assert(pre[k] == value@);
                        }
                    }
                    if pre.contains(value@) {
                        let k = choose|k: int| 0 <= k < pre.len() && pre[k] == value@;
                        assert(cur[k] == value@);
                    }
                }
            }
        }
        i += 1;
    }
    proof {
        assert(sel.deep_view().take(n as int) =~= sel.deep_view());
    }
    if !removed {
        kept.push(value);
        proof {
            lemma_remove_all_absent(groups.selected_log_groups.deep_view(), value@);
        }
    }
    groups.selected_log_groups = kept;
}

// ---------------------------------------------------------------------------
// Invariant and construction
// ---------------------------------------------------------------------------

/// The collection's invariant: the filtered view is in sync with the filter
/// text and the index, and the selection holds no duplicate names.
pub open spec fn lg_wf(v: LogGroupsV) -> bool {
    &&& v.log_groups.len() <= usize::MAX
    &&& v.filtered == spec_filtered(v.log_groups.len(), effective_search(v.index, v.filter))
    &&& v.selected.no_duplicates()
}

impl Default for LogGroups {
    /// An empty collection over a fresh index.
    fn default() -> (r: Self)
        ensures
            r@.log_groups == Seq::<Seq<char>>::empty(),
            r@.filtered == Seq::<usize>::empty(),
            r@.selected == Seq::<Seq<char>>::empty(),
            r@.row == 0,
            r@.filter == Seq::<char>::empty(),
            forall|q: Seq<char>| #[trigger] index_search(r@.index, q) == Set::<usize>::empty(),
            lg_wf(r@),
    {
        let r = Self {
            log_groups: Vec::new(),
            filtered_log_groups: Vec::new(),
            selected_log_groups: Vec::new(),
            log_group_search_index: new_search_index(),
            log_group_row: 0,
            log_filter: String::new(),
        };
        proof {
            assert(r@.log_groups =~= Seq::<Seq<char>>::empty());
            assert(r@.selected =~= Seq::<Seq<char>>::empty());
            assert(r@.filtered =~= Seq::<usize>::empty());
        }
        r
    }
}

// ---------------------------------------------------------------------------
// The browser screen's state machine
// ---------------------------------------------------------------------------

/// The state after the filter text changed to `nf`: the filtered view is
/// recomputed against it.
pub open spec fn spec_filter_edit(pre: AppV, nf: Seq<char>) -> AppV {
    AppV {
        log_groups: LogGroupsV {
            filter: nf,
            filtered: spec_filtered(
                pre.log_groups.log_groups.len(),
                effective_search(pre.log_groups.index, nf),
            ),
            ..pre.log_groups
        },
        ..pre
    }
}

/// The Enter action on the results: toggle the highlighted name's membership
/// in the selection; with nothing highlighted (the cursor past a shrunken
/// list, or no matches) nothing happens.
pub open spec fn spec_browser_toggle(pre: AppV) -> AppV {
    let lg = pre.log_groups;
    if (lg.row as int) < lg.filtered.len() {
        let name = lg.log_groups[lg.filtered[lg.row as int] as int];
        AppV { log_groups: LogGroupsV { selected: spec_toggle(lg.selected, name), ..lg }, ..pre }
    } else {
        pre
    }
}

/// A keystroke on the log-group browser: in Normal mode Esc returns to the
/// overview, Enter starts editing (and asks for a listing when none is
/// known), j/k swap focus between the filter box and the results; in Insert
/// mode the filter box takes text and the results take navigation and the
/// selection toggle.
pub open spec fn spec_browser_step(pre: AppV, key: Key) -> (AppV, Option<AwsReq>) {
    match pre.mode {
        Mode::Normal => match key {
            Key::Esc => (AppV { selected: SelectedView::Overview, ..pre }, None),
            Key::Enter => (
                AppV { mode: Mode::Insert, ..pre },
                if pre.log_groups.log_groups.len() == 0 {
                    Some(AwsReq::ListLogGroups)
                } else {
                    None
                },
            ),
            Key::Char('j') | Key::Char('k') => (
                AppV {
                    focused: match pre.focused {
                        Widget::LogGroups => Widget::LogGroupsResults,
                        _ => Widget::LogGroups,
                    },
                    ..pre
                },
                None,
            ),
            _ => (pre, None),
        },
        Mode::Insert => match pre.focused {
            Widget::LogGroups => match key {
                Key::Esc => (AppV { mode: Mode::Normal, ..pre }, None),
                Key::Enter => (AppV { focused: Widget::LogGroupsResults, ..pre }, None),
                Key::Char(c) => (spec_filter_edit(pre, pre.log_groups.filter.push(c)), None),
                Key::Backspace => (spec_filter_edit(pre, pop_text(pre.log_groups.filter)), None),
                _ => (pre, None),
            },
            Widget::LogGroupsResults => match key {
                Key::Esc => (AppV { mode: Mode::Normal, ..pre }, None),
                Key::Char('j') | Key::Down => (
                    AppV {
                        log_groups: LogGroupsV {
                            row: wrap_next(
                                pre.log_groups.row,
                                pre.log_groups.filtered.len() as usize,
                            ),
                            ..pre.log_groups
                        },
                        ..pre
                    },
                    None,
                ),
                Key::Char('k') | Key::Up => (
                    AppV {
                        log_groups: LogGroupsV {
                            row: wrap_prev(
                                pre.log_groups.row,
                                pre.log_groups.filtered.len() as usize,
                            ),
                            ..pre.log_groups
                        },
                        ..pre
                    },
                    None,
                ),
                Key::Enter => (spec_browser_toggle(pre), None),
                _ => (pre, None),
            },
            _ => (pre, None),
        },
    }
}

fn browser_row_next(app: &mut App)
    requires
        old(app).wf(),
    ensures
        final(app).wf(),
        final(app)@ == (AppV {
            log_groups: LogGroupsV {
                row: wrap_next(
                    old(app)@.log_groups.row,
                    old(app)@.log_groups.filtered.len() as usize,
                ),
                ..old(app)@.log_groups
            },
            ..old(app)@
        }),
{
    let len = app.log_groups.filtered_log_groups.len();
    app.log_groups.log_group_row = if len > 0 {
        let base = app.log_groups.log_group_row % len;
        if base + 1 == len {
            0
        } else {
            base + 1
        }
    } else {
        0
    };
    proof {
        assert(app@ =~~= (AppV {
            log_groups: LogGroupsV {
                row: wrap_next(
                    old(app)@.log_groups.row,
                    old(app)@.log_groups.filtered.len() as usize,
                ),
                ..old(app)@.log_groups
            },
            ..old(app)@
        }));
    }
}

fn browser_row_prev(app: &mut App)
    requires
        old(app).wf(),
    ensures
        final(app).wf(),
        final(app)@ == (AppV {
            log_groups: LogGroupsV {
                row: wrap_prev(
                    old(app)@.log_groups.row,
                    old(app)@.log_groups.filtered.len() as usize,
                ),
                ..old(app)@.log_groups
            },
            ..old(app)@
        }),
{
    let len = app.log_groups.filtered_log_groups.len();
    let r = app.log_groups.log_group_row;
    app.log_groups.log_group_row = if r > 0 && len > 0 {
        (r - 1) % len
    } else if r == 0 && len > 0 {
        len - 1
    } else {
        0
    };
    proof {
        assert(app@ =~~= (AppV {
            log_groups: LogGroupsV {
                row: wrap_prev(
                    old(app)@.log_groups.row,
                    old(app)@.log_groups.filtered.len() as usize,
                ),
                ..old(app)@.log_groups
            },
            ..old(app)@
        }));
    }
}

fn browser_toggle(app: &mut App)
    requires
        old(app).wf(),
    ensures
        final(app).wf(),
        final(app)@ == spec_browser_toggle(old(app)@),
{
    let len = app.log_groups.filtered_log_groups.len();
    let row = app.log_groups.log_group_row;
    if row < len {
        proof {
            lemma_spec_filtered_bounds(
                app@.log_groups.log_groups.len(),
                effective_search(app@.log_groups.index, app@.log_groups.filter),
            );
        }
        let idx = app.log_groups.filtered_log_groups[row];
        let value = app.log_groups.log_groups[idx].clone();
        proof {
            assert(value@ == app@.log_groups.log_groups[idx as int]);
            lemma_toggle_no_duplicates(app@.log_groups.selected, value@);
        }
        toggle_selected(&mut app.log_groups, value);
        proof {
            assert(app@ =~~= spec_browser_toggle(old(app)@));
        }
    } else {
        proof {
            assert(app@ =~~= spec_browser_toggle(old(app)@));
        }
    }
}

/// Dispatches a key on the log-group browser screen. Hands back the request
/// to enqueue, if any.
pub fn handle_input(app: &mut App, key: Key) -> (req: Option<AwsReq>)
    requires
        old(app).wf(),
    ensures
        final(app).wf(),
        (final(app)@, req) == spec_browser_step(old(app)@, key),
{
    match app.mode {
        Mode::Normal => match key {
            Key::Esc => {
                app.selected = SelectedView::Overview;
                proof {
                    assert(app@ =~~= spec_browser_step(old(app)@, key).0);
                }
                None
            },
            Key::Enter => {
                let req = if app.log_groups.log_groups.len() == 0 {
                    Some(AwsReq::ListLogGroups)
                } else {
                    None
                };
                app.mode = Mode::Insert;
                proof {
                    assert(app@ =~~= spec_browser_step(old(app)@, key).0);
                }
                req
            },
            Key::Char(c) => {
                if c == 'j' || c == 'k' {
                    app.focused = match app.focused {
                        Widget::LogGroups => Widget::LogGroupsResults,
                        _ => Widget::LogGroups,
                    };
                    proof {
                        assert(app@ =~~= spec_browser_step(old(app)@, key).0);
                    }
                }
                None
            },
            _ => None,
        },
        Mode::Insert => match app.focused {
            Widget::LogGroups => match key {
                Key::Esc => {
                    app.mode = Mode::Normal;
                    proof {
                        assert(app@ =~~= spec_browser_step(old(app)@, key).0);
                    }
                    None
                },
                Key::Enter => {
                    app.focused = Widget::LogGroupsResults;
                    proof {
                        assert(app@ =~~= spec_browser_step(old(app)@, key).0);
                    }
                    None
                },
                Key::Char(c) => {
                    push_char(&mut app.log_groups.log_filter, c);
                    filter_log_groups(&mut app.log_groups);
                    proof {
                        assert(app@ =~~= spec_browser_step(old(app)@, key).0);
                    }
                    None
                },
                Key::Backspace => {
                    pop_char(&mut app.log_groups.log_filter);
                    filter_log_groups(&mut app.log_groups);
                    proof {
                        assert(app@ =~~= spec_browser_step(old(app)@, key).0);
                    }
                    None
                },
                _ => None,
            },
            Widget::LogGroupsResults => match key {
                Key::Esc => {
                    app.mode = Mode::Normal;
                    proof {
                        assert(app@ =~~= spec_browser_step(old(app)@, key).0);
                    }
                    None
                },
                Key::Char(c) => {
                    if c == 'j' {
                        browser_row_next(app);
                    } else if c == 'k' {
                        browser_row_prev(app);
                    }
                    None
                },
                Key::Down => {
                    browser_row_next(app);
                    None
                },
                Key::Up => {
                    browser_row_prev(app);
                    None
                },
                Key::Enter => {
                    browser_toggle(app);
                    None
                },
                _ => None,
            },
            _ => None,
        },
    }
}

} // verus!
