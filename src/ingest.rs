//! Transactional ingestion of a mobile export: the statements one batch runs,
//! the defaults of the point rows, and the decisions of the transaction
//! (run the next statement, commit, or roll back).

use vstd::prelude::*;

verus! {

/// One upsert of the batch, by position in the submitted list.
#[derive(Debug, Clone, Copy, PartialEq, Eq, Structural)]
pub enum Statement {
    /// Insert or replace the row of point `i`.
    UpsertPoint(usize),
    /// Insert or replace photo `k` of point `i`.
    UpsertPicture(usize, usize),
}

/// The statements for point `i` with `pics` photos: the point, then its photos.
pub open spec fn point_statements(i: nat, pics: nat) -> Seq<Statement> {
    seq![Statement::UpsertPoint(i as usize)] + Seq::new(
        pics,
        |k: int| Statement::UpsertPicture(i as usize, k as usize),
    )
}

/// The statements of a batch whose points carry `pics[i]` photos each.
pub open spec fn plan_of(pics: Seq<usize>) -> Seq<Statement>
    decreases pics.len(),
{
    if pics.len() == 0 {
        Seq::empty()
    } else {
        plan_of(pics.drop_last()) + point_statements(
            (pics.len() - 1) as nat,
            pics.last() as nat,
        )
    }
}

/// The statements of one batch, in the order they run.
pub fn ingestion_plan(picture_counts: &Vec<usize>) -> (r: Vec<Statement>)
    ensures
        r@ == plan_of(picture_counts@),
{
    let mut out: Vec<Statement> = Vec::new();
    let mut i: usize = 0;
    while i < picture_counts.len()
        invariant
            i <= picture_counts@.len(),
            out@ == plan_of(picture_counts@.subrange(0, i as int)),
        decreases picture_counts@.len() - i,
    {
        let ghost before = out@;
        out.push(Statement::UpsertPoint(i));
        let n = picture_counts[i];
        let mut k: usize = 0;
        while k < n
            invariant
                k <= n,
                out@ == before + seq![Statement::UpsertPoint(i)] + Seq::new(
                    k as nat,
                    |j: int| Statement::UpsertPicture(i, j as usize),
                ),
            decreases n - k,
        {
            out.push(Statement::UpsertPicture(i, k));
            k = k + 1;
            assert(out@ =~= before + seq![Statement::UpsertPoint(i)] + Seq::new(
                k as nat,
                |j: int| Statement::UpsertPicture(i, j as usize),
            ));
        }
        let ghost done = picture_counts@.subrange(0, i + 1);
        assert(done.drop_last() =~= picture_counts@.subrange(0, i as int));
        i = i + 1;
        assert(out@ =~= plan_of(picture_counts@.subrange(0, i as int)));
    }
    assert(picture_counts@.subrange(0, picture_counts@.len() as int) =~= picture_counts@);
    out
}

/// The name stored for a point: its own, or `Point` when it has none.
pub open spec fn display_name_of(name: Option<Seq<char>>) -> Seq<char> {
    match name {
        Some(n) => n,
        None => "Point"@,
    }
}

/// The name stored for a point.
pub fn point_display_name(name: &Option<String>) -> (r: String)
    ensures
        r@ == display_name_of(
            match name {
                Some(n) => Some(n@),
                None => None,
            },
        ),
{
    match name {
        Some(n) => n.clone(),
        None => String::from_str("Point"),
    }
}

/// The status stored for a point: its own, or zero when it has none.
pub fn point_status(status: Option<i64>) -> (r: i64)
    ensures
        r == match status {
            Some(s) => s,
            None => 0,
        },
{
    match status {
        Some(s) => s,
        None => 0,
    }
}

/// How a batch stands.
#[derive(Debug, Clone, Copy, PartialEq, Eq, Structural)]
pub enum BatchState {
    Running,
    Committed,
    RolledBack,
}

/// What the transaction must do next.
#[derive(Debug, Clone, Copy, PartialEq, Eq, Structural)]
pub enum TxDecision {
    Execute(Statement),
    Commit,
    Rollback,
}

/// Every statement reported so far succeeded.
pub open spec fn all_ok(results: Seq<bool>) -> bool {
    forall|k: int| 0 <= k < results.len() ==> results[k]
}

/// The decision after `done` statements succeeded.
pub open spec fn decision_at(plan: Seq<Statement>, done: nat) -> TxDecision {
    if done < plan.len() {
        TxDecision::Execute(plan[done as int])
    } else {
        TxDecision::Commit
    }
}

/// One transaction over a plan: statements run in order, the first failure
/// rolls everything back, and the commit comes only after the last success.
pub struct Batch {
    plan: Vec<Statement>,
    done: usize,
    state: BatchState,
    results: Ghost<Seq<bool>>,
}

/// The plan, how many statements succeeded, the state, and the outcome
/// reported for each statement run so far.
pub struct BatchView {
    pub plan: Seq<Statement>,
    pub done: nat,
    pub state: BatchState,
    pub results: Seq<bool>,
}

impl BatchView {
    /// A running batch has seen only successes; a committed one has seen a
    /// success for every statement; a rolled-back one has seen a failure.
    pub open spec fn wf(self) -> bool {
        match self.state {
            BatchState::Running => self.results.len() == self.done && self.done <= self.plan.len()
                && all_ok(self.results),
            BatchState::Committed => self.results.len() == self.done && self.done
                == self.plan.len() && all_ok(self.results),
            BatchState::RolledBack => !all_ok(self.results),
        }
    }
}

impl View for Batch {
    type V = BatchView;

    closed spec fn view(&self) -> BatchView {
        BatchView {
            plan: self.plan@,
            done: self.done as nat,
            state: self.state,
            results: self.results@,
        }
    }
}

impl Batch {
    /// A transaction that has not run any statement, with its first decision.
    pub fn begin(plan: Vec<Statement>) -> (r: (Batch, TxDecision))
        ensures
            r.0@.wf(),
            r.0@.plan == plan@,
            r.0@.done == 0,
            r.0@.state == BatchState::Running,
            r.0@.results == Seq::<bool>::empty(),
            r.1 == decision_at(plan@, 0),
    {
        let d = if plan.len() > 0 {
            TxDecision::Execute(plan[0])
        } else {
            TxDecision::Commit
        };
        (Batch { plan, done: 0, state: BatchState::Running, results: Ghost(Seq::empty()) }, d)
    }

    /// Records the outcome of the statement that was run and gives the next
    /// decision: a failure rolls the batch back.
    pub fn record(&mut self, ok: bool) -> (r: TxDecision)
        requires
            old(self)@.wf(),
            old(self)@.state == BatchState::Running,
            old(self)@.done < old(self)@.plan.len(),
        ensures
            final(self)@.wf(),
            final(self)@.plan == old(self)@.plan,
            final(self)@.results == old(self)@.results.push(ok),
            ok ==> final(self)@.done == old(self)@.done + 1 && final(self)@.state
                == BatchState::Running && r == decision_at(final(self)@.plan, final(self)@.done),
            !ok ==> final(self)@.done == old(self)@.done && final(self)@.state
                == BatchState::RolledBack && r == TxDecision::Rollback,
    {
        let n = self.plan.len();
        let ghost before = self.results@;
        self.results = Ghost(self.results@.push(ok));
        if ok {
            self.done = self.done + 1;
            assert(all_ok(self.results@)) by {
                assert forall|k: int| 0 <= k < self.results@.len() implies self.results@[k] by {
                    if k < before.len() {
                        assert(self.results@[k] == before[k]);
                    }
                }
            }
            if self.done < n {
                TxDecision::Execute(self.plan[self.done])
            } else {
                TxDecision::Commit
            }
        } else {
            self.state = BatchState::RolledBack;
            assert(!self.results@[before.len() as int]);
            TxDecision::Rollback
        }
    }

    /// Marks the batch committed once every statement succeeded.
    pub fn commit(&mut self)
        requires
            old(self)@.wf(),
            old(self)@.state == BatchState::Running,
            old(self)@.done == old(self)@.plan.len(),
        ensures
            final(self)@.wf(),
            final(self)@.plan == old(self)@.plan,
            final(self)@.done == old(self)@.done,
            final(self)@.results == old(self)@.results,
            final(self)@.state == BatchState::Committed,
    {
        self.state = BatchState::Committed;
    }

    /// How the batch stands.
    pub fn state(&self) -> (r: BatchState)
        ensures
            r == self@.state,
    {
        self.state
    }
}

/// A stored point row: event id, name, status.
pub type PointRow = (Seq<char>, Seq<char>, int);

/// The point rows of a table, keyed by point id.
pub type PointTable = Map<Seq<char>, PointRow>;

/// The table after the upserts `rows`, in order (insert or replace by id).
pub open spec fn upsert_all(t: PointTable, rows: Seq<(Seq<char>, PointRow)>) -> PointTable
    decreases rows.len(),
{
    if rows.len() == 0 {
        t
    } else {
        upsert_all(t, rows.drop_last()).insert(rows.last().0, rows.last().1)
    }
}

/// The table after a batch: all of its upserts when it committed, none otherwise.
pub open spec fn batch_effect(
    t: PointTable,
    rows: Seq<(Seq<char>, PointRow)>,
    committed: bool,
) -> PointTable {
    if committed {
        upsert_all(t, rows)
    } else {
        t
    }
}

/// The ids a batch writes.
pub open spec fn ids_of(rows: Seq<(Seq<char>, PointRow)>) -> Set<Seq<char>> {
    Set::new(|id: Seq<char>| exists|k: int| 0 <= k < rows.len() && rows[k].0 == id)
}

proof fn lemma_upsert_all_union(t: PointTable, rows: Seq<(Seq<char>, PointRow)>)
    ensures
        upsert_all(t, rows) == t.union_prefer_right(upsert_all(Map::empty(), rows)),
    decreases rows.len(),
{
    if rows.len() > 0 {
        lemma_upsert_all_union(t, rows.drop_last());
        assert(upsert_all(t, rows) =~= t.union_prefer_right(upsert_all(Map::empty(), rows)));
    } else {
        assert(upsert_all(t, rows) =~= t.union_prefer_right(upsert_all(Map::empty(), rows)));
    }
}

proof fn lemma_upsert_all_dom(t: PointTable, rows: Seq<(Seq<char>, PointRow)>)
    ensures
        upsert_all(t, rows).dom() == t.dom().union(ids_of(rows)),
    decreases rows.len(),
{
    if rows.len() > 0 {
        lemma_upsert_all_dom(t, rows.drop_last());
        let init = rows.drop_last();
        assert forall|id: Seq<char>| ids_of(rows).contains(id) <==> (ids_of(init).contains(id)
            || id == rows.last().0) by {
            if ids_of(rows).contains(id) {
                let k = choose|k: int| 0 <= k < rows.len() && rows[k].0 == id;
                if k < rows.len() - 1 {
                    assert(init[k].0 == id);
                }
            }
            if ids_of(init).contains(id) {
                let k = choose|k: int| 0 <= k < init.len() && init[k].0 == id;
                assert(rows[k].0 == id);
            }
            if id == rows.last().0 {
                assert(rows[rows.len() - 1].0 == id);
            }
        }
    }
    assert(upsert_all(t, rows).dom() =~= t.dom().union(ids_of(rows)));
}

/// Applying a batch's upserts a second time changes nothing: resubmitting a
/// batch that was stored leaves the table as it was.
pub proof fn lemma_batch_idempotent(t: PointTable, rows: Seq<(Seq<char>, PointRow)>)
    ensures
        upsert_all(upsert_all(t, rows), rows) == upsert_all(t, rows),
{
    lemma_upsert_all_union(t, rows);
    lemma_upsert_all_union(upsert_all(t, rows), rows);
    let m = upsert_all(Map::empty(), rows);
    assert(t.union_prefer_right(m).union_prefer_right(m) =~= t.union_prefer_right(m));
}

/// A batch in which a statement failed is rolled back: the table stays as it
/// was, so none of the batch's points that were absent is stored.
pub proof fn lemma_failed_batch_changes_nothing(
    t: PointTable,
    rows: Seq<(Seq<char>, PointRow)>,
    failed: BatchView,
)
    requires
        failed.wf(),
        exists|k: int| 0 <= k < failed.results.len() && !failed.results[k],
    ensures
        failed.state != BatchState::Committed,
        batch_effect(t, rows, failed.state == BatchState::Committed) == t,
        forall|id: Seq<char>|
            !t.dom().contains(id) ==> !batch_effect(
                t,
                rows,
                failed.state == BatchState::Committed,
            ).dom().contains(id),
{
    assert(!all_ok(failed.results));
}

proof fn lemma_upsert_all_event(t: PointTable, rows: Seq<(Seq<char>, PointRow)>, e: Seq<char>, id: Seq<char>)
    requires
        forall|k: int| 0 <= k < rows.len() ==> rows[k].1.0 == e,
        ids_of(rows).contains(id),
    ensures
        upsert_all(t, rows).dom().contains(id),
        upsert_all(t, rows)[id].0 == e,
    decreases rows.len(),
{
    let init = rows.drop_last();
    if id == rows.last().0 {
    } else {
        let k = choose|k: int| 0 <= k < rows.len() && rows[k].0 == id;
        assert(k < rows.len() - 1);
        assert(init[k].0 == id);
        assert(ids_of(init).contains(id));
        lemma_upsert_all_event(t, init, e, id);
    }
}

/// Once a committed batch is applied (a first submission, or a resubmission
/// after a rollback), the table holds exactly its former rows and one row per
/// point id of the batch, each under the batch's event.
pub proof fn lemma_committed_batch_stores_points(
    t: PointTable,
    rows: Seq<(Seq<char>, PointRow)>,
    e: Seq<char>,
)
    requires
        forall|k: int| 0 <= k < rows.len() ==> rows[k].1.0 == e,
    ensures
        batch_effect(t, rows, true).dom() == t.dom().union(ids_of(rows)),
        forall|id: Seq<char>| ids_of(rows).contains(id) ==> batch_effect(t, rows, true)[id].0 == e,
{
    lemma_upsert_all_dom(t, rows);
    assert forall|id: Seq<char>| ids_of(rows).contains(id) implies batch_effect(t, rows, true)[id].0
        == e by {
        lemma_upsert_all_event(t, rows, e, id);
    }
}

/// A submitted point as the store sees it: id, optional name, optional status.
pub type PointFields = (Seq<char>, Option<Seq<char>>, Option<i64>);

/// The row stored for a submitted point of event `e`, defaults applied.
pub open spec fn point_row(e: Seq<char>, p: PointFields) -> PointRow {
    (
        e,
        display_name_of(p.1),
        match p.2 {
            Some(st) => st as int,
            None => 0,
        },
    )
}

/// The point upserts of a submission, in order.
pub open spec fn point_rows(e: Seq<char>, pts: Seq<PointFields>) -> Seq<(Seq<char>, PointRow)> {
    pts.map_values(|p: PointFields| (p.0, point_row(e, p)))
}

/// What one statement does to the point rows (photos live in their own table).
pub open spec fn apply_statement(
    t: PointTable,
    st: Statement,
    e: Seq<char>,
    pts: Seq<PointFields>,
) -> PointTable {
    match st {
        Statement::UpsertPoint(i) => if i < pts.len() {
            t.insert(pts[i as int].0, point_row(e, pts[i as int]))
        } else {
            t
        },
        Statement::UpsertPicture(_, _) => t,
    }
}

/// The point rows after running the statements `plan` in order.
pub open spec fn apply_plan(
    t: PointTable,
    plan: Seq<Statement>,
    e: Seq<char>,
    pts: Seq<PointFields>,
) -> PointTable
    decreases plan.len(),
{
    if plan.len() == 0 {
        t
    } else {
        apply_statement(apply_plan(t, plan.drop_last(), e, pts), plan.last(), e, pts)
    }
}

/// The point rows after a batch: its plan's statements when it committed,
/// the table as it was otherwise.
pub open spec fn batch_table(
    t: PointTable,
    b: BatchView,
    e: Seq<char>,
    pts: Seq<PointFields>,
) -> PointTable {
    if b.state == BatchState::Committed {
        apply_plan(t, b.plan, e, pts)
    } else {
        t
    }
}

proof fn lemma_apply_plan_append(
    t: PointTable,
    a: Seq<Statement>,
    b: Seq<Statement>,
    e: Seq<char>,
    pts: Seq<PointFields>,
)
    ensures
        apply_plan(t, a + b, e, pts) == apply_plan(apply_plan(t, a, e, pts), b, e, pts),
    decreases b.len(),
{
    if b.len() == 0 {
        assert(a + b =~= a);
    } else {
        assert((a + b).drop_last() =~= a + b.drop_last());
        lemma_apply_plan_append(t, a, b.drop_last(), e, pts);
    }
}

proof fn lemma_apply_point_statements(
    t: PointTable,
    i: nat,
    k: nat,
    e: Seq<char>,
    pts: Seq<PointFields>,
)
    requires
        i < pts.len(),
        i <= usize::MAX,
    ensures
        apply_plan(t, point_statements(i, k), e, pts) == t.insert(pts[i as int].0, point_row(e, pts[i as int])),
    decreases k,
{
    if k == 0 {
        let ps = point_statements(i, 0);
        assert(ps =~= seq![Statement::UpsertPoint(i as usize)]);
        assert(ps.drop_last() =~= Seq::<Statement>::empty());
        assert(ps.last() == Statement::UpsertPoint(i as usize));
        assert((i as usize) as int == i);
        assert(apply_plan(t, ps.drop_last(), e, pts) == t);
    } else {
        let ps = point_statements(i, k);
        assert(ps.drop_last() =~= point_statements(i, (k - 1) as nat));
        assert(ps.last() == Statement::UpsertPicture(i as usize, (k - 1) as usize));
        lemma_apply_point_statements(t, i, (k - 1) as nat, e, pts);
    }
}

proof fn lemma_plan_prefix(
    t: PointTable,
    counts: Seq<usize>,
    e: Seq<char>,
    pts: Seq<PointFields>,
    n: nat,
)
    requires
        counts.len() == pts.len(),
        counts.len() <= usize::MAX,
        n <= counts.len(),
    ensures
        apply_plan(t, plan_of(counts.subrange(0, n as int)), e, pts) == upsert_all(
            t,
            point_rows(e, pts).subrange(0, n as int),
        ),
    decreases n,
{
    let rows = point_rows(e, pts);
    if n == 0 {
        assert(counts.subrange(0, 0) =~= Seq::<usize>::empty());
        assert(rows.subrange(0, 0) =~= Seq::<(Seq<char>, PointRow)>::empty());
    } else {
        let cn = counts.subrange(0, n as int);
        assert(cn.drop_last() =~= counts.subrange(0, n - 1));
        assert(rows.subrange(0, n as int).drop_last() =~= rows.subrange(0, n - 1));
        lemma_plan_prefix(t, counts, e, pts, (n - 1) as nat);
        lemma_apply_plan_append(
            t,
            plan_of(cn.drop_last()),
            point_statements((n - 1) as nat, cn.last() as nat),
            e,
            pts,
        );
        lemma_apply_point_statements(
            apply_plan(t, plan_of(cn.drop_last()), e, pts),
            (n - 1) as nat,
            cn.last() as nat,
            e,
            pts,
        );
    }
}

/// Running a batch's plan upserts exactly the rows of its points, in order:
/// a committed batch has the effect of all its point upserts, any other
/// batch none.
pub proof fn lemma_batch_runs_point_upserts(
    t: PointTable,
    b: BatchView,
    counts: Seq<usize>,
    e: Seq<char>,
    pts: Seq<PointFields>,
)
    requires
        b.plan == plan_of(counts),
        counts.len() == pts.len(),
        counts.len() <= usize::MAX,
    ensures
        batch_table(t, b, e, pts) == batch_effect(
            t,
            point_rows(e, pts),
            b.state == BatchState::Committed,
        ),
{
    lemma_plan_prefix(t, counts, e, pts, counts.len());
    assert(counts.subrange(0, counts.len() as int) =~= counts);
    assert(point_rows(e, pts).subrange(0, pts.len() as int) =~= point_rows(e, pts));
}

/// A batch whose statement failed leaves the points table as it was; the
/// same submission sent again and committed then stores one row per point
/// id, each under the submission's event, beside the rows already there.
pub proof fn lemma_resubmission_after_rollback(
    t: PointTable,
    failed: BatchView,
    again: BatchView,
    counts: Seq<usize>,
    e: Seq<char>,
    pts: Seq<PointFields>,
)
    requires
        failed.wf(),
        exists|k: int| 0 <= k < failed.results.len() && !failed.results[k],
        again.state == BatchState::Committed,
        failed.plan == plan_of(counts),
        again.plan == plan_of(counts),
        counts.len() == pts.len(),
        counts.len() <= usize::MAX,
    ensures
        batch_table(t, failed, e, pts) == t,
        batch_table(batch_table(t, failed, e, pts), again, e, pts).dom() == t.dom().union(
            ids_of(point_rows(e, pts)),
        ),
        forall|id: Seq<char>|
            ids_of(point_rows(e, pts)).contains(id) ==> batch_table(
                batch_table(t, failed, e, pts),
                again,
                e,
                pts,
            )[id].0 == e,
{
    assert(!all_ok(failed.results));
    lemma_batch_runs_point_upserts(t, failed, counts, e, pts);
    lemma_batch_runs_point_upserts(t, again, counts, e, pts);
    lemma_committed_batch_stores_points(t, point_rows(e, pts), e);
}

} // verus!
