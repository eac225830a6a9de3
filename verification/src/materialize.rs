use vstd::prelude::*;

use crate::event_log::{ops_for, first_ids, ops_view, tasks_view, EnvelopeView, EventLog, LogOp,
    LogOpView};
use crate::task::{spec_default, spec_run_event, Status, Task, TaskActionView, TaskView};

verus! {

/// One replay step. `Create` seeds the snapshot outright, `Delete` tombstones
/// the id, and `Modify` folds through the reducer — seeded from the default
/// snapshot when no `Create` has been seen yet.
pub open spec fn replay_step(id: u128, st: Option<TaskView>, op: LogOpView) -> Option<TaskView> {
    match op {
        LogOpView::Create(t) => Some(t),
        LogOpView::Delete => None,
        LogOpView::Modify(a) => match st {
            Some(t) => Some(spec_run_event(t, a)),
            None => Some(spec_run_event(spec_default(id), a)),
        },
    }
}

/// Folds a full history for `id` from an unmaterialized start; an empty
/// history materializes nothing.
pub open spec fn replay(id: u128, ops: Seq<LogOpView>) -> Option<TaskView>
    decreases ops.len(),
{
    if ops.len() == 0 {
        None
    } else {
        replay_step(id, replay(id, ops.drop_last()), ops.last())
    }
}

/// The snapshot materialized for `id` from the whole log.
pub open spec fn spec_load(log: Seq<EnvelopeView>, id: u128) -> Option<TaskView> {
    replay(id, ops_for(log, id))
}

/// The snapshots materialized for `ids`, in order, tombstoned ids skipped.
pub open spec fn loads(log: Seq<EnvelopeView>, ids: Seq<u128>) -> Seq<TaskView>
    decreases ids.len(),
{
    if ids.len() == 0 {
        Seq::empty()
    } else {
        let rest = loads(log, ids.drop_last());
        match spec_load(log, ids.last()) {
            Some(t) => rest.push(t),
            None => rest,
        }
    }
}

/// Every known id materialized, in order of first appearance in the log.
pub open spec fn spec_load_all(log: Seq<EnvelopeView>) -> Seq<TaskView> {
    loads(log, first_ids(log))
}

pub open spec fn opt_task_view(o: Option<Task>) -> Option<TaskView> {
    match o {
        Some(t) => Some(t@),
        None => None,
    }
}

fn run_step(id: u128, st: Option<Task>, op: &LogOp) -> (r: Option<Task>)
    ensures
        opt_task_view(r) == replay_step(id, opt_task_view(st), op@),
{
    match op {
        LogOp::Create(t) => Some(t.duplicate()),
        LogOp::Delete => None,
        LogOp::Modify(a) => {
            let seed = match st {
                Some(t) => t,
                None => Task::new_default(id),
            };
            Some(seed.inner_run_event(a.duplicate()))
        },
    }
}

impl EventLog {
    /// Materializes `id` by replaying its full history; `None` when the id is
    /// unknown or its history ends tombstoned.
    pub fn load(&self, id: u128) -> (r: Option<Task>)
        ensures
            opt_task_view(r) == spec_load(self@, id),
    {
        let ops = self.history(id);
        let mut st: Option<Task> = None;
        let mut i: usize = 0;
        proof {
            assert(ops_view(ops@).take(0) =~= Seq::<LogOpView>::empty());
        }
        while i < ops.len()
            invariant
                i <= ops.len(),
                ops_view(ops@) == ops_for(self@, id),
                opt_task_view(st) == replay(id, ops_view(ops@).take(i as int)),
            decreases ops.len() - i,
        {
            st = run_step(id, st, &ops[i]);
            proof {
                assert(ops_view(ops@).take(i + 1).drop_last() =~= ops_view(ops@).take(i as int));
                assert(ops_view(ops@).take(i + 1).last() == ops@[i as int]@);
            }
            i = i + 1;
        }
        proof {
            assert(ops_view(ops@).take(ops@.len() as int) =~= ops_view(ops@));
        }
        st
    }

    /// Materializes every known id and keeps the live snapshots.
    pub fn load_all(&self) -> (r: Vec<Task>)
        ensures
            tasks_view(r@) == spec_load_all(self@),
    {
        let ids = self.known_ids();
        let mut r: Vec<Task> = Vec::new();
        let mut i: usize = 0;
        proof {
            assert(ids@.take(0) =~= Seq::<u128>::empty());
            assert(tasks_view(r@) =~= loads(self@, ids@.take(0)));
        }
        while i < ids.len()
            invariant
                i <= ids.len(),
                ids@ == first_ids(self@),
                tasks_view(r@) == loads(self@, ids@.take(i as int)),
            decreases ids.len() - i,
        {
            let ghost pre = r@;
            let loaded = self.load(ids[i]);
            match loaded {
                Some(t) => {
                    let ghost tv = t@;
                    r.push(t);
                    proof {
                        assert(tasks_view(r@) =~= tasks_view(pre).push(tv));
                    }
                },
                None => {},
            }
            proof {
                assert(ids@.take(i + 1).drop_last() =~= ids@.take(i as int));
                assert(ids@.take(i + 1).last() == ids@[i as int]);
            }
            i = i + 1;
        }
        proof {
            assert(ids@.take(ids@.len() as int) =~= ids@);
        }
        r
    }
}

/// Replay determinism: the snapshot materialized for an id is a function of
/// that id's own recorded operations alone — no clock, randomness, or other
/// entity's envelopes enter the fold — so two loads of the same history, in
/// particular two loads with no intervening append, return identical
/// snapshots.
pub proof fn lemma_load_deterministic(log1: Seq<EnvelopeView>, log2: Seq<EnvelopeView>, id: u128)
    requires
        ops_for(log1, id) == ops_for(log2, id),
    ensures
        spec_load(log1, id) == spec_load(log2, id),
{
}

/// Appending an envelope for another entity leaves an id's history unchanged.
pub proof fn lemma_ops_for_push_other(log: Seq<EnvelopeView>, e: EnvelopeView, id: u128)
    requires
        e.entity_id != id,
    ensures
        ops_for(log.push(e), id) == ops_for(log, id),
{
    assert(log.push(e).drop_last() =~= log);
}

/// Appending an envelope for an id extends exactly that id's history.
pub proof fn lemma_ops_for_push_same(log: Seq<EnvelopeView>, e: EnvelopeView, id: u128)
    requires
        e.entity_id == id,
    ensures
        ops_for(log.push(e), id) == ops_for(log, id).push(e.op),
{
    assert(log.push(e).drop_last() =~= log);
}

/// Create-and-modify round trip: a `Create` followed by a name change and a
/// status change materializes to the seeded snapshot with both fields
/// replaced, whatever was in the log before.
pub proof fn lemma_create_modify_round_trip(
    log: Seq<EnvelopeView>,
    id: u128,
    t: TaskView,
    n: Seq<char>,
    s: Status,
)
    ensures
        spec_load(
            log.push(EnvelopeView { entity_id: id, op: LogOpView::Create(t) })
                .push(
                    EnvelopeView {
                        entity_id: id,
                        op: LogOpView::Modify(TaskActionView::SetName { name: n }),
                    },
                )
                .push(
                    EnvelopeView {
                        entity_id: id,
                        op: LogOpView::Modify(TaskActionView::SetStatus { status: s }),
                    },
                ),
            id,
        ) == Some(TaskView { name: n, id: t.id, status: s }),
{
    let e1 = EnvelopeView { entity_id: id, op: LogOpView::Create(t) };
    let e2 = EnvelopeView {
        entity_id: id,
        op: LogOpView::Modify(TaskActionView::SetName { name: n }),
    };
    let e3 = EnvelopeView {
        entity_id: id,
        op: LogOpView::Modify(TaskActionView::SetStatus { status: s }),
    };
    let l1 = log.push(e1);
    let l2 = l1.push(e2);
    let l3 = l2.push(e3);
    lemma_ops_for_push_same(log, e1, id);
    lemma_ops_for_push_same(l1, e2, id);
    lemma_ops_for_push_same(l2, e3, id);
    let o1 = ops_for(log, id).push(e1.op);
    let o2 = o1.push(e2.op);
    let o3 = o2.push(e3.op);
    assert(o3.drop_last() =~= o2);
    assert(o2.drop_last() =~= o1);
    assert(replay(id, o1) == Some(t));
    assert(replay(id, o2) == Some(TaskView { name: n, ..t }));
}

/// Resurrection ordering: a `Create` appended after a `Delete` for the same id
/// wins, by log order alone; the id materializes to the later snapshot.
pub proof fn lemma_resurrection(log: Seq<EnvelopeView>, id: u128, t1: TaskView, t2: TaskView)
    ensures
        spec_load(
            log.push(EnvelopeView { entity_id: id, op: LogOpView::Create(t1) })
                .push(EnvelopeView { entity_id: id, op: LogOpView::Delete })
                .push(EnvelopeView { entity_id: id, op: LogOpView::Create(t2) }),
            id,
        ) == Some(t2),
{
    let l1 = log.push(EnvelopeView { entity_id: id, op: LogOpView::Create(t1) });
    let l2 = l1.push(EnvelopeView { entity_id: id, op: LogOpView::Delete });
    let l3 = l2.push(EnvelopeView { entity_id: id, op: LogOpView::Create(t2) });
    lemma_ops_for_push_same(l2, EnvelopeView { entity_id: id, op: LogOpView::Create(t2) }, id);
    assert(ops_for(l3, id).last() == LogOpView::Create(t2));
    assert(ops_for(l3, id).len() > 0);
}

proof fn lemma_drop_last_contains(ids: Seq<u128>, x: u128)
    requires
        ids.len() > 0,
        ids.drop_last().contains(x),
    ensures
        ids.contains(x),
{
    let j = choose|j: int| 0 <= j < ids.drop_last().len() && ids.drop_last()[j] == x;
    assert(ids[j] == x);
}

/// Ids that all materialize to nothing contribute nothing.
proof fn lemma_loads_all_none(log: Seq<EnvelopeView>, ids: Seq<u128>)
    requires
        forall|id: u128| #[trigger] ids.contains(id) ==> spec_load(log, id) is None,
    ensures
        loads(log, ids) == Seq::<TaskView>::empty(),
    decreases ids.len(),
{
    if ids.len() == 0 {
        assert(loads(log, ids) =~= Seq::<TaskView>::empty());
    } else {
        assert forall|id: u128| ids.drop_last().contains(id) implies spec_load(log, id)
            is None by {
            lemma_drop_last_contains(ids, id);
        }
        lemma_loads_all_none(log, ids.drop_last());
        assert(ids[ids.len() - 1] == ids.last());
        assert(ids.contains(ids.last()));
    }
}

/// When nothing materializes, every queried id materialized to nothing.
proof fn lemma_loads_empty_all_none(log: Seq<EnvelopeView>, ids: Seq<u128>)
    requires
        loads(log, ids).len() == 0,
    ensures
        forall|id: u128| #[trigger] ids.contains(id) ==> spec_load(log, id) is None,
    decreases ids.len(),
{
    if ids.len() == 0 {
    } else {
        let rest = loads(log, ids.drop_last());
        assert(spec_load(log, ids.last()) is None);
        lemma_loads_empty_all_none(log, ids.drop_last());
        assert forall|id: u128| ids.contains(id) implies spec_load(log, id) is None by {
            let j = choose|j: int| 0 <= j < ids.len() && ids[j] == id;
            if j == ids.len() - 1 {
                assert(id == ids.last());
            } else {
                assert(ids.drop_last()[j] == id);
                assert(ids.drop_last().contains(id));
            }
        }
    }
}

/// Every materialized snapshot in a bulk load comes from one of the queried
/// ids, whose own materialization it is.
pub proof fn lemma_loads_source_at(log: Seq<EnvelopeView>, ids: Seq<u128>, i: int)
    requires
        0 <= i < loads(log, ids).len(),
    ensures
        exists|id: u128|
            ids.contains(id) && #[trigger] spec_load(log, id) == Some(loads(log, ids)[i]),
    decreases ids.len(),
{
    if ids.len() == 0 {
    } else {
        let rest = loads(log, ids.drop_last());
        let cur = loads(log, ids);
        if i < rest.len() {
            lemma_loads_source_at(log, ids.drop_last(), i);
            let id0 = choose|id: u128|
                ids.drop_last().contains(id) && #[trigger] spec_load(log, id) == Some(rest[i]);
            lemma_drop_last_contains(ids, id0);
            assert(cur[i] == rest[i]);
            assert(ids.contains(id0) && spec_load(log, id0) == Some(cur[i]));
        } else {
            assert(ids[ids.len() - 1] == ids.last());
            assert(ids.contains(ids.last()));
            assert(spec_load(log, ids.last()) == Some(cur[i]));
        }
    }
}

/// Tombstone exclusion: an id whose history ends with `Delete` materializes to
/// nothing, and every snapshot a bulk load returns comes from some other id.
pub proof fn lemma_tombstone_exclusion(log: Seq<EnvelopeView>, x: u128)
    requires
        ops_for(log, x).len() > 0,
        ops_for(log, x).last() is Delete,
    ensures
        spec_load(log, x) is None,
        forall|i: int|
            #![trigger spec_load_all(log)[i]]
            0 <= i < spec_load_all(log).len() ==> exists|id: u128|
                id != x && #[trigger] spec_load(log, id) == Some(spec_load_all(log)[i]),
{
    assert forall|i: int|
        #![trigger spec_load_all(log)[i]]
        0 <= i < spec_load_all(log).len() implies exists|id: u128|
        id != x && #[trigger] spec_load(log, id) == Some(spec_load_all(log)[i]) by {
        lemma_loads_source_at(log, first_ids(log), i);
        let id0 = choose|id: u128|
            first_ids(log).contains(id) && #[trigger] spec_load(log, id) == Some(
                spec_load_all(log)[i],
            );
        assert(id0 != x && spec_load(log, id0) == Some(spec_load_all(log)[i]));
    }
}

/// Exactly one live snapshot remains after seeding a `Create` onto a log that
/// materializes nothing — whatever id the seed was given.
pub proof fn lemma_seed_one(log: Seq<EnvelopeView>, t: TaskView, eid: u128)
    requires
        spec_load_all(log).len() == 0,
    ensures
        spec_load_all(log.push(EnvelopeView { entity_id: eid, op: LogOpView::Create(t) }))
            == seq![t],
{
    let e = EnvelopeView { entity_id: eid, op: LogOpView::Create(t) };
    let log2 = log.push(e);
    let ids = first_ids(log);
    assert(log2.drop_last() =~= log);
    let ids2 = first_ids(log2);
    assert(ids2 == if ids.contains(eid) { ids } else { ids.push(eid) });
    lemma_loads_empty_all_none(log, ids);
    lemma_ops_for_push_same(log, e, eid);
    assert(spec_load(log2, eid) == Some(t));
    lemma_first_ids_no_dup(log2);
    assert(ids2.contains(eid)) by {
        if ids.contains(eid) {
        } else {
            assert(ids2[ids2.len() - 1] == eid);
        }
    }
    assert forall|id: u128| #[trigger] ids2.contains(id) && id != eid implies spec_load(log2, id)
        is None by {
        assert(ids.contains(id)) by {
            let j = choose|j: int| 0 <= j < ids2.len() && ids2[j] == id;
            if ids.contains(eid) {
                assert(ids[j] == id);
            } else {
                assert(j < ids.len());
                assert(ids[j] == id);
            }
        }
        lemma_ops_for_push_other(log, e, id);
        assert(spec_load(log2, id) == spec_load(log, id));
    }
    lemma_loads_single(log2, ids2, eid, t);
}

/// The ids of first appearance never repeat.
proof fn lemma_first_ids_no_dup(log: Seq<EnvelopeView>)
    ensures
        first_ids(log).no_duplicates(),
    decreases log.len(),
{
    if log.len() == 0 {
    } else {
        lemma_first_ids_no_dup(log.drop_last());
        let rest = first_ids(log.drop_last());
        let x = log.last().entity_id;
        if !rest.contains(x) {
            assert forall|i: int, j: int|
                0 <= i < rest.push(x).len() && 0 <= j < rest.push(x).len() && i != j
                implies rest.push(x)[i] != rest.push(x)[j] by {
                if i < rest.len() && j < rest.len() {
                } else if i < rest.len() {
                    assert(rest[i] == rest.push(x)[i]);
                    if rest[i] == x {
                        assert(rest.contains(x));
                    }
                } else {
                    assert(rest[j] == rest.push(x)[j]);
                    if rest[j] == x {
                        assert(rest.contains(x));
                    }
                }
            }
        }
    }
}

/// A bulk load over distinct ids of which exactly one materializes yields
/// exactly that one snapshot.
proof fn lemma_loads_single(log: Seq<EnvelopeView>, ids: Seq<u128>, target: u128, t: TaskView)
    requires
        forall|id: u128| #[trigger] ids.contains(id) && id != target ==> spec_load(log, id)
            is None,
        spec_load(log, target) == Some(t),
        ids.contains(target),
        ids.no_duplicates(),
    ensures
        loads(log, ids) == seq![t],
    decreases ids.len(),
{
    let rest_ids = ids.drop_last();
    assert(ids.len() > 0);
    assert forall|id: u128| #[trigger] rest_ids.contains(id) && id != target implies spec_load(
        log,
        id,
    ) is None by {
        lemma_drop_last_contains(ids, id);
    }
    assert(rest_ids.no_duplicates()) by {
        assert forall|i: int, j: int|
            0 <= i < rest_ids.len() && 0 <= j < rest_ids.len() && i != j implies rest_ids[i]
            != rest_ids[j] by {
            assert(rest_ids[i] == ids[i]);
            assert(rest_ids[j] == ids[j]);
        }
    }
    if ids.last() == target {
        assert(!rest_ids.contains(target)) by {
            if rest_ids.contains(target) {
                let j = choose|j: int| 0 <= j < rest_ids.len() && rest_ids[j] == target;
                assert(ids[j] == target);
                assert(ids[ids.len() - 1] == target);
            }
        }
        assert forall|id: u128| #[trigger] rest_ids.contains(id) implies spec_load(log, id)
            is None by {
            lemma_drop_last_contains(ids, id);
        }
        lemma_loads_all_none(log, rest_ids);
        assert(loads(log, ids) =~= seq![t]);
    } else {
        assert(ids[ids.len() - 1] == ids.last());
        assert(ids.contains(ids.last()));
        assert(spec_load(log, ids.last()) is None);
        assert(rest_ids.contains(target)) by {
            let j = choose|j: int| 0 <= j < ids.len() && ids[j] == target;
            assert(j != ids.len() - 1);
            assert(rest_ids[j] == target);
        }
        lemma_loads_single(log, rest_ids, target, t);
    }
}

} // verus!
