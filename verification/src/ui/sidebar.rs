//! Action sidebar: the rows of the vertical list, grouped by category,
//! and where the current selection sits among them. The application
//! draws the rows.

use vstd::prelude::*;

use crate::actions::{ActionInfo, InfoView};
use crate::jobs::JobStatus;
use crate::text::text_eq;

verus! {

/// One visible row in the rendered sidebar.
#[derive(Debug)]
pub enum Row {
    Category(String),
    Action { index: usize, label: String, status: Option<JobStatus> },
    Separator,
    Quit,
}

/// The contents of a [`Row`].
pub enum RowView {
    Category(Seq<char>),
    Action { index: nat, label: Seq<char>, status: Option<JobStatus> },
    Separator,
    Quit,
}

impl View for Row {
    type V = RowView;

    open spec fn view(&self) -> RowView {
        match self {
            Row::Category(c) => RowView::Category(c@),
            Row::Action { index, label, status } => RowView::Action {
                index: *index as nat,
                label: label@,
                status: *status,
            },
            Row::Separator => RowView::Separator,
            Row::Quit => RowView::Quit,
        }
    }
}

/// The views of a list of rows.
pub open spec fn rows_view(rows: Seq<Row>) -> Seq<RowView> {
    rows.map_values(|r: Row| r@)
}

/// The last status of action `i`, if one is recorded.
pub open spec fn status_at(last_status: Seq<Option<JobStatus>>, i: int) -> Option<JobStatus> {
    if 0 <= i < last_status.len() {
        last_status[i]
    } else {
        None
    }
}

/// The header rows in front of action `i`: a category header when the
/// category changes, separated from the group before it.
pub open spec fn header_rows(metas: Seq<InfoView>, i: int) -> Seq<RowView> {
    if i == 0 {
        seq![RowView::Category(metas[0].category)]
    } else if metas[i - 1].category != metas[i].category {
        seq![RowView::Separator, RowView::Category(metas[i].category)]
    } else {
        seq![]
    }
}

/// The rows for the actions (with their category headers), in order.
pub open spec fn action_rows(metas: Seq<InfoView>, last_status: Seq<Option<JobStatus>>) -> Seq<
    RowView,
>
    decreases metas.len(),
{
    if metas.len() == 0 {
        seq![]
    } else {
        let i = metas.len() - 1;
        action_rows(metas.drop_last(), last_status) + header_rows(metas, i) + seq![
            RowView::Action {
                index: i as nat,
                label: metas[i].label,
                status: status_at(last_status, i),
            },
        ]
    }
}

/// All rows: the actions grouped by category, then a separator and the
/// quit footer.
pub open spec fn sidebar_rows(metas: Seq<InfoView>, last_status: Seq<Option<JobStatus>>) -> Seq<
    RowView,
> {
    action_rows(metas, last_status) + seq![RowView::Separator, RowView::Quit]
}

/// Build the full list of visible rows (categories + actions + separators +
/// quit footer).
pub fn build_rows(metas: &[ActionInfo], last_status: &[Option<JobStatus>]) -> (r: Vec<Row>)
    ensures
        rows_view(r@) == sidebar_rows(metas@.map_values(|m: ActionInfo| m@), last_status@),
{
    let ghost ms = metas@.map_values(|m: ActionInfo| m@);
    let ghost st = last_status@;
    let mut out: Vec<Row> = Vec::new();
    let mut last_cat: Option<&str> = None;
    let mut i: usize = 0;
    assert(ms.take(0) =~= Seq::<InfoView>::empty());
    while i < metas.len()
        invariant
            i <= metas@.len(),
            ms == metas@.map_values(|m: ActionInfo| m@),
            st == last_status@,
            rows_view(out@) == action_rows(ms.take(i as int), st),
            i == 0 ==> last_cat is None,
            i > 0 ==> (last_cat matches Some(c) && c@ == ms[i - 1].category),
        decreases metas.len() - i,
    {
        let meta = metas[i];
        let ghost before = rows_view(out@);
        let ghost pre = ms.take(i + 1);
        proof {
            assert(pre.drop_last() =~= ms.take(i as int));
            assert(pre[i as int] == meta@);
            if i > 0 {
                assert(pre[i - 1] == ms[i - 1]);
            }
        }
        let changed = match last_cat {
            Some(c) => !text_eq(c, meta.category),
            None => true,
        };
        if changed {
            if last_cat.is_some() {
                out.push(Row::Separator);
            }
            out.push(Row::Category(meta.category.to_owned()));
            last_cat = Some(meta.category);
        }
        let status = if i < last_status.len() {
            last_status[i]
        } else {
            None
        };
        out.push(Row::Action { index: i, label: meta.label.to_owned(), status });
        proof {
            assert(rows_view(out@) =~= before + header_rows(pre, i as int) + seq![
                RowView::Action {
                    index: i as nat,
                    label: pre[i as int].label,
                    status: status_at(st, i as int),
                },
            ]);
        }
        i += 1;
    }
    assert(ms.take(metas.len() as int) =~= ms);
    let ghost body = rows_view(out@);
    out.push(Row::Separator);
    out.push(Row::Quit);
    assert(rows_view(out@) =~= body + seq![RowView::Separator, RowView::Quit]);
    out
}

/// Whether row `r` is the row of action `i`.
pub open spec fn is_row_of(r: RowView, i: nat) -> bool {
    r matches RowView::Action { index, .. } && index == i
}

/// Map an action index to the visible row index: the first row of that
/// action.
pub fn visible_index_for(rows: &[Row], action_index: usize) -> (r: Option<usize>)
    ensures
        r matches Some(p) ==> p < rows@.len() && is_row_of(rows@[p as int]@, action_index as nat)
            && forall|q: int| 0 <= q < p ==> !is_row_of(#[trigger] rows@[q]@, action_index as nat),
        r is None ==> forall|q: int|
            0 <= q < rows@.len() ==> !is_row_of(#[trigger] rows@[q]@, action_index as nat),
{
    let mut p: usize = 0;
    while p < rows.len()
        invariant
            p <= rows@.len(),
            forall|q: int| 0 <= q < p ==> !is_row_of(#[trigger] rows@[q]@, action_index as nat),
        decreases rows.len() - p,
    {
        match &rows[p] {
            Row::Action { index, .. } => {
                if *index == action_index {
                    return Some(p);
                }
            },
            _ => {},
        }
        p += 1;
    }
    None
}

/// The glyph in front of an action row for its last status.
pub open spec fn status_prefix_spec(status: Option<JobStatus>) -> Seq<char> {
    match status {
        Some(JobStatus::Running) => "… "@,
        Some(JobStatus::Done) => "✓ "@,
        Some(JobStatus::Failed) => "✗ "@,
        Some(JobStatus::Cancelled) => "↻ "@,
        None => "  "@,
    }
}

pub fn status_prefix(status: Option<JobStatus>) -> (p: &'static str)
    ensures
        p@ == status_prefix_spec(status),
{
    match status {
        Some(JobStatus::Running) => "… ",
        Some(JobStatus::Done) => "✓ ",
        Some(JobStatus::Failed) => "✗ ",
        Some(JobStatus::Cancelled) => "↻ ",
        None => "  ",
    }
}

/// Rows of `rows` that belong to action `i`.
pub open spec fn has_row_for(rows: Seq<RowView>, i: nat, label: Seq<char>, status: Option<JobStatus>) -> bool {
    exists|p: int|
        0 <= p < rows.len() && rows[p] == (RowView::Action { index: i, label, status }) && forall|q: int|
            0 <= q < rows.len() && q != p ==> !is_row_of(#[trigger] rows[q], i)
}

proof fn lemma_action_rows_one_each(metas: Seq<InfoView>, st: Seq<Option<JobStatus>>)
    ensures
        forall|i: int|
            0 <= i < metas.len() ==> #[trigger] has_row_for(
                action_rows(metas, st),
                i as nat,
                metas[i].label,
                status_at(st, i),
            ),
        forall|i: nat, q: int|
            i >= metas.len() && 0 <= q < action_rows(metas, st).len() ==> !#[trigger] is_row_of(
                action_rows(metas, st)[q],
                i,
            ),
    decreases metas.len(),
{
    if metas.len() > 0 {
        let n = metas.len() - 1;
        let pre = metas.drop_last();
        lemma_action_rows_one_each(pre, st);
        let a = action_rows(pre, st);
        let h = header_rows(metas, n);
        let last = RowView::Action { index: n as nat, label: metas[n].label, status: status_at(st, n) };
        let rows = action_rows(metas, st);
        assert(rows == a + h + seq![last]);
        assert forall|q: int| 0 <= q < h.len() implies !(#[trigger] h[q] is Action) by {}
        assert forall|q: int| 0 <= q < rows.len() implies #[trigger] rows[q] == (if q < a.len() {
            a[q]
        } else if q < a.len() + h.len() {
            h[q - a.len()]
        } else {
            last
        }) by {}
        assert forall|i: int| 0 <= i < metas.len() implies #[trigger] has_row_for(
            rows,
            i as nat,
            metas[i].label,
            status_at(st, i),
        ) by {
            if i == n {
                let p = rows.len() - 1;
                assert forall|q: int| 0 <= q < rows.len() && q != p implies !is_row_of(
                    #[trigger] rows[q],
                    i as nat,
                ) by {
                    if q < a.len() {
                        assert(!is_row_of(a[q], n as nat));
                    } else {
                        assert(!(h[q - a.len()] is Action));
                    }
                }
                assert(rows[p] == last);
            } else {
                assert(pre[i] == metas[i]);
                assert(has_row_for(a, i as nat, pre[i].label, status_at(st, i)));
                let p = choose|p: int|
                    0 <= p < a.len() && a[p] == (RowView::Action {
                        index: i as nat,
                        label: pre[i].label,
                        status: status_at(st, i),
                    }) && forall|q: int| 0 <= q < a.len() && q != p ==> !is_row_of(#[trigger] a[q], i as nat);
                assert(rows[p] == a[p]);
                assert forall|q: int| 0 <= q < rows.len() && q != p implies !is_row_of(
                    #[trigger] rows[q],
                    i as nat,
                ) by {
                    if q < a.len() {
                        assert(!is_row_of(a[q], i as nat));
                    } else if q < a.len() + h.len() {
                        assert(!(h[q - a.len()] is Action));
                    }
                }
            }
        }
        assert forall|i: nat, q: int|
            i >= metas.len() && 0 <= q < rows.len() implies !#[trigger] is_row_of(rows[q], i) by {
            if q < a.len() {
                assert(!is_row_of(a[q], i));
            } else if q < a.len() + h.len() {
                assert(!(h[q - a.len()] is Action));
            }
        }
    }
}

/// Every action has exactly one row in the sidebar, with its label and
/// its last status, and there is no row for any other index; the list
/// ends with a separator and the quit footer.
pub proof fn lemma_sidebar_rows_one_per_action(metas: Seq<InfoView>, st: Seq<Option<JobStatus>>)
    ensures
        forall|i: int|
            0 <= i < metas.len() ==> #[trigger] has_row_for(
                sidebar_rows(metas, st),
                i as nat,
                metas[i].label,
                status_at(st, i),
            ),
        forall|i: nat, q: int|
            i >= metas.len() && 0 <= q < sidebar_rows(metas, st).len() ==> !#[trigger] is_row_of(
                sidebar_rows(metas, st)[q],
                i,
            ),
        sidebar_rows(metas, st).len() >= 2,
        sidebar_rows(metas, st).last() == RowView::Quit,
        sidebar_rows(metas, st)[sidebar_rows(metas, st).len() - 2] == RowView::Separator,
{
    lemma_action_rows_one_each(metas, st);
    let a = action_rows(metas, st);
    let rows = sidebar_rows(metas, st);
    let tail = seq![RowView::Separator, RowView::Quit];
    assert(rows == a + tail);
    assert forall|i: int| 0 <= i < metas.len() implies #[trigger] has_row_for(
        rows,
        i as nat,
        metas[i].label,
        status_at(st, i),
    ) by {
        assert(has_row_for(a, i as nat, metas[i].label, status_at(st, i)));
        let p = choose|p: int|
            0 <= p < a.len() && a[p] == (RowView::Action {
                index: i as nat,
                label: metas[i].label,
                status: status_at(st, i),
            }) && forall|q: int| 0 <= q < a.len() && q != p ==> !is_row_of(#[trigger] a[q], i as nat);
        assert(rows[p] == a[p]);
        assert forall|q: int| 0 <= q < rows.len() && q != p implies !is_row_of(
            #[trigger] rows[q],
            i as nat,
        ) by {
            if q < a.len() {
                assert(rows[q] == a[q]);
                assert(!is_row_of(a[q], i as nat));
            } else {
                assert(rows[q] == tail[q - a.len()]);
            }
        }
    }
    assert forall|i: nat, q: int| i >= metas.len() && 0 <= q < rows.len() implies !#[trigger] is_row_of(
        rows[q],
        i,
    ) by {
        if q < a.len() {
            assert(rows[q] == a[q]);
            assert(!is_row_of(a[q], i));
        } else {
            assert(rows[q] == tail[q - a.len()]);
        }
    }
}

/// The row of action `i`: its index, its label and its last status.
pub open spec fn action_row(metas: Seq<InfoView>, st: Seq<Option<JobStatus>>, i: int) -> RowView {
    RowView::Action { index: i as nat, label: metas[i].label, status: status_at(st, i) }
}

/// Where the row of action `i` stands in the sidebar: after the rows of
/// the actions before it and its own header rows.
pub open spec fn action_row_pos(metas: Seq<InfoView>, st: Seq<Option<JobStatus>>, i: int) -> int {
    (action_rows(metas.take(i), st).len() + header_rows(metas, i).len()) as int
}

/// The rows of the first `k` actions begin the rows of all of them.
proof fn lemma_action_rows_prefix(metas: Seq<InfoView>, st: Seq<Option<JobStatus>>, k: int)
    requires
        0 <= k <= metas.len(),
    ensures
        action_rows(metas.take(k), st).len() <= action_rows(metas, st).len(),
        action_rows(metas, st).take(action_rows(metas.take(k), st).len() as int) == action_rows(
            metas.take(k),
            st,
        ),
    decreases metas.len(),
{
    if k == metas.len() {
        assert(metas.take(k) =~= metas);
        assert(action_rows(metas, st).take(action_rows(metas, st).len() as int) =~= action_rows(
            metas,
            st,
        ));
    } else {
        let m1 = metas.drop_last();
        assert(m1.take(k) =~= metas.take(k));
        lemma_action_rows_prefix(m1, st, k);
        let a = action_rows(m1, st);
        let full = action_rows(metas, st);
        let p = action_rows(metas.take(k), st);
        assert(full.take(p.len() as int) =~= a.take(p.len() as int));
    }
}

/// The rows of the first `i + 1` actions: those of the first `i`, the
/// header rows of action `i`, and its row.
proof fn lemma_action_rows_step(metas: Seq<InfoView>, st: Seq<Option<JobStatus>>, i: int)
    requires
        0 <= i < metas.len(),
    ensures
        action_rows(metas.take(i + 1), st) == action_rows(metas.take(i), st) + header_rows(metas, i)
            + seq![action_row(metas, st, i)],
{
    let t = metas.take(i + 1);
    assert(t.drop_last() =~= metas.take(i));
    assert(t[i] == metas[i]);
    if i > 0 {
        assert(t[i - 1] == metas[i - 1]);
    }
    assert(t[0] == metas[0]);
    assert(header_rows(t, i) == header_rows(metas, i));
}

/// The sidebar's layout, row by row: the row of each action in order,
/// each run of actions of one category headed by a category row, with a
/// separator before every run but the first, and a separator and the quit
/// footer at the end. Every row is one of these.
pub proof fn lemma_sidebar_layout(metas: Seq<InfoView>, st: Seq<Option<JobStatus>>)
    ensures
        forall|i: int|
            0 <= i < metas.len() ==> sidebar_rows(metas, st)[#[trigger] action_row_pos(metas, st, i)]
                == action_row(metas, st, i),
        metas.len() > 0 ==> action_row_pos(metas, st, 0) == 1 && sidebar_rows(metas, st)[0]
            == RowView::Category(metas[0].category),
        forall|i: int|
            0 < i < metas.len() && metas[i - 1].category != metas[i].category ==> {
                &&& #[trigger] action_row_pos(metas, st, i) == action_row_pos(metas, st, i - 1) + 3
                &&& sidebar_rows(metas, st)[action_row_pos(metas, st, i) - 2] == RowView::Separator
                &&& sidebar_rows(metas, st)[action_row_pos(metas, st, i) - 1] == RowView::Category(
                    metas[i].category,
                )
            },
        forall|i: int|
            0 < i < metas.len() && metas[i - 1].category == metas[i].category ==> #[trigger] action_row_pos(
                metas,
                st,
                i,
            ) == action_row_pos(metas, st, i - 1) + 1,
        sidebar_rows(metas, st).len() == (if metas.len() == 0 {
            0
        } else {
            action_row_pos(metas, st, metas.len() - 1) + 1
        }) + 2,
        sidebar_rows(metas, st)[sidebar_rows(metas, st).len() - 2] == RowView::Separator,
        sidebar_rows(metas, st).last() == RowView::Quit,
{
    let n = metas.len() as int;
    let full = action_rows(metas, st);
    let rows = sidebar_rows(metas, st);
    assert(rows == full + seq![RowView::Separator, RowView::Quit]);
    assert forall|i: int| 0 <= i < n implies {
        &&& action_rows(metas.take(i + 1), st).len() == action_row_pos(metas, st, i) + 1
        &&& full.take(action_row_pos(metas, st, i) + 1) == action_rows(metas.take(i + 1), st)
        &&& action_rows(metas.take(i + 1), st).len() <= full.len()
    } by {
        lemma_action_rows_step(metas, st, i);
        lemma_action_rows_prefix(metas, st, i + 1);
    }
    assert forall|i: int| 0 <= i < n implies rows[#[trigger] action_row_pos(metas, st, i)]
        == action_row(metas, st, i) by {
        lemma_action_rows_step(metas, st, i);
        let p = action_row_pos(metas, st, i);
        let pre = action_rows(metas.take(i + 1), st);
        assert(full.take(p + 1) == pre);
        assert(pre[p] == action_row(metas, st, i));
        assert(full.take(p + 1)[p] == full[p]);
        assert(rows[p] == full[p]);
    }
    if n > 0 {
        let p0 = action_row_pos(metas, st, 0);
        assert(metas.take(0) =~= Seq::<InfoView>::empty());
        assert(action_rows(metas.take(0), st) =~= Seq::<RowView>::empty());
        assert(p0 == 1);
        lemma_action_rows_step(metas, st, 0);
        lemma_action_rows_prefix(metas, st, 1);
        let pre = action_rows(metas.take(1), st);
        assert(pre[0] == RowView::Category(metas[0].category));
        assert(full.take(pre.len() as int)[0] == full[0]);
        assert(rows[0] == full[0]);
    }
    assert forall|i: int| 0 < i < n && metas[i - 1].category != metas[i].category implies {
        &&& #[trigger] action_row_pos(metas, st, i) == action_row_pos(metas, st, i - 1) + 3
        &&& rows[action_row_pos(metas, st, i) - 2] == RowView::Separator
        &&& rows[action_row_pos(metas, st, i) - 1] == RowView::Category(metas[i].category)
    } by {
        lemma_action_rows_step(metas, st, i - 1);
        lemma_action_rows_step(metas, st, i);
        let p = action_row_pos(metas, st, i);
        let pre = action_rows(metas.take(i + 1), st);
        assert(full.take(p + 1) == pre);
        assert(full.take(p + 1)[p - 2] == full[p - 2]);
        assert(full.take(p + 1)[p - 1] == full[p - 1]);
        assert(rows[p - 2] == full[p - 2]);
        assert(rows[p - 1] == full[p - 1]);
    }
    assert forall|i: int| 0 < i < n && metas[i - 1].category == metas[i].category implies #[trigger] action_row_pos(
        metas,
        st,
        i,
    ) == action_row_pos(metas, st, i - 1) + 1 by {
        lemma_action_rows_step(metas, st, i - 1);
    }
    if n > 0 {
        lemma_action_rows_step(metas, st, n - 1);
        assert(metas.take(n) =~= metas);
    } else {
        assert(full =~= Seq::<RowView>::empty());
    }
}

/// Each job status has its own badge in the sidebar: the status's glyph
/// (the one `JobStatus::badge` shows, ✓ for a job that succeeded)
/// followed by a space; an action that never ran shows blanks. No two
/// statuses, and no status and "never ran", look alike.
pub proof fn lemma_status_prefixes_distinct()
    ensures
        forall|s: JobStatus| #[trigger] status_prefix_spec(Some(s)) == crate::jobs::job::status_badge(s) + " "@,
        status_prefix_spec(None) == "  "@,
        status_prefix_spec(Some(JobStatus::Done)) == "✓ "@,
        forall|s1: JobStatus, s2: JobStatus|
            s1 != s2 ==> #[trigger] status_prefix_spec(Some(s1)) != #[trigger] status_prefix_spec(Some(s2)),
        forall|s: JobStatus| #[trigger] status_prefix_spec(Some(s)) != status_prefix_spec(None),
{
    reveal_strlit("… ");
    reveal_strlit("✓ ");
    reveal_strlit("✗ ");
    reveal_strlit("↻ ");
    reveal_strlit("  ");
    reveal_strlit("…");
    reveal_strlit("✓");
    reveal_strlit("✗");
    reveal_strlit("↻");
    reveal_strlit(" ");
    assert forall|s: JobStatus| #[trigger] status_prefix_spec(Some(s)) == crate::jobs::job::status_badge(s) + " "@ by {
        assert(status_prefix_spec(Some(s)) =~= crate::jobs::job::status_badge(s) + " "@);
    }
    assert forall|s1: JobStatus, s2: JobStatus|
        s1 != s2 implies #[trigger] status_prefix_spec(Some(s1)) != #[trigger] status_prefix_spec(Some(s2)) by {
        assert(status_prefix_spec(Some(s1))[0] != status_prefix_spec(Some(s2))[0]);
    }
    assert forall|s: JobStatus| #[trigger] status_prefix_spec(Some(s)) != status_prefix_spec(None) by {
        assert(status_prefix_spec(Some(s))[0] != status_prefix_spec(None)[0]);
    }
}

} // verus!
