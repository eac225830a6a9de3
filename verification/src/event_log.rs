use vstd::prelude::*;

use crate::task::{Task, TaskAction, TaskActionView, TaskView};

verus! {

/// One recorded operation: seed a snapshot, fold a delta, or tombstone the id.
#[derive(Clone, PartialEq, Eq, Debug)]
pub enum LogOp {
    Create(Task),
    Modify(TaskAction),
    Delete,
}

/// Mathematical model of a `LogOp`.
#[verifier::ext_equal]
pub enum LogOpView {
    Create(TaskView),
    Modify(TaskActionView),
    Delete,
}

impl View for LogOp {
    type V = LogOpView;

    open spec fn view(&self) -> LogOpView {
        match self {
            LogOp::Create(t) => LogOpView::Create(t@),
            LogOp::Modify(a) => LogOpView::Modify(a@),
            LogOp::Delete => LogOpView::Delete,
        }
    }
}

impl LogOp {
    pub fn duplicate(&self) -> (r: LogOp)
        ensures
            r@ == self@,
    {
        match self {
            LogOp::Create(t) => LogOp::Create(t.duplicate()),
            LogOp::Modify(a) => LogOp::Modify(a.duplicate()),
            LogOp::Delete => LogOp::Delete,
        }
    }
}

/// The unit appended to the log: an operation keyed by the entity it targets.
#[derive(Clone, PartialEq, Eq, Debug)]
pub struct Envelope {
    pub entity_id: u128,
    pub op: LogOp,
}

/// Mathematical model of an `Envelope`.
#[verifier::ext_equal]
pub struct EnvelopeView {
    pub entity_id: u128,
    pub op: LogOpView,
}

impl View for Envelope {
    type V = EnvelopeView;

    open spec fn view(&self) -> EnvelopeView {
        EnvelopeView { entity_id: self.entity_id, op: self.op@ }
    }
}

impl Envelope {
    pub fn new(entity_id: u128, op: LogOp) -> (r: Envelope)
        ensures
            r@ == (EnvelopeView { entity_id, op: op@ }),
    {
        Envelope { entity_id, op }
    }

    pub fn new_delete(entity_id: u128) -> (r: Envelope)
        ensures
            r@ == (EnvelopeView { entity_id, op: LogOpView::Delete }),
    {
        Envelope { entity_id, op: LogOp::Delete }
    }

    pub fn duplicate(&self) -> (r: Envelope)
        ensures
            r@ == self@,
    {
        Envelope { entity_id: self.entity_id, op: self.op.duplicate() }
    }
}

/// The operations recorded for `id`, in append order.
pub open spec fn ops_for(log: Seq<EnvelopeView>, id: u128) -> Seq<LogOpView>
    decreases log.len(),
{
    if log.len() == 0 {
        Seq::empty()
    } else if log.last().entity_id == id {
        ops_for(log.drop_last(), id).push(log.last().op)
    } else {
        ops_for(log.drop_last(), id)
    }
}

/// Every id with at least one envelope, in order of first appearance,
/// without duplicates.
pub open spec fn first_ids(log: Seq<EnvelopeView>) -> Seq<u128>
    decreases log.len(),
{
    if log.len() == 0 {
        Seq::empty()
    } else {
        let rest = first_ids(log.drop_last());
        if rest.contains(log.last().entity_id) {
            rest
        } else {
            rest.push(log.last().entity_id)
        }
    }
}

pub open spec fn ops_view(s: Seq<LogOp>) -> Seq<LogOpView> {
    s.map_values(|o: LogOp| o@)
}

pub open spec fn tasks_view(s: Seq<Task>) -> Seq<TaskView> {
    s.map_values(|t: Task| t@)
}

/// Append-only store of envelopes; history is never rewritten or compacted.
pub struct EventLog {
    entries: Vec<Envelope>,
}

impl View for EventLog {
    type V = Seq<EnvelopeView>;

    closed spec fn view(&self) -> Seq<EnvelopeView> {
        self.entries@.map_values(|e: Envelope| e@)
    }
}

impl EventLog {
    pub fn new() -> (r: EventLog)
        ensures
            r@ == Seq::<EnvelopeView>::empty(),
    {
        let r = EventLog { entries: Vec::new() };
        proof {
            assert(r@ =~= Seq::<EnvelopeView>::empty());
        }
        r
    }

    /// Records one envelope, ordered after everything appended before it.
    pub fn append(&mut self, e: Envelope)
        ensures
            final(self)@ == old(self)@.push(e@),
    {
        let ghost pre = self@;
        let ghost ev = e@;
        self.entries.push(e);
        proof {
            assert(self@ =~= pre.push(ev));
        }
    }

    /// All operations ever appended for `id`, in append order; empty when the
    /// id is unknown.
    pub fn history(&self, id: u128) -> (r: Vec<LogOp>)
        ensures
            ops_view(r@) == ops_for(self@, id),
    {
        let mut r: Vec<LogOp> = Vec::new();
        let mut i: usize = 0;
        proof {
            assert(self@.take(0) =~= Seq::<EnvelopeView>::empty());
            assert(ops_view(r@) =~= ops_for(self@.take(0), id));
        }
        while i < self.entries.len()
            invariant
                i <= self.entries.len(),
                ops_view(r@) == ops_for(self@.take(i as int), id),
            decreases self.entries.len() - i,
        {
            let ghost pre = r@;
            if self.entries[i].entity_id == id {
                r.push(self.entries[i].op.duplicate());
                proof {
                    assert(ops_view(r@) =~= ops_view(pre).push(self.entries[i as int].op@));
                }
            }
            proof {
                assert(self@.take(i + 1).drop_last() =~= self@.take(i as int));
                assert(self@.take(i + 1).last() == self@[i as int]);
                assert(self@[i as int] == self.entries[i as int]@);
            }
            i = i + 1;
        }
        proof {
            assert(self@.take(self.entries.len() as int) =~= self@);
        }
        r
    }

    /// Every id that has at least one envelope, tombstoned ones included.
    pub fn known_ids(&self) -> (r: Vec<u128>)
        ensures
            r@ == first_ids(self@),
    {
        let mut r: Vec<u128> = Vec::new();
        let mut i: usize = 0;
        proof {
            assert(self@.take(0) =~= Seq::<EnvelopeView>::empty());
            assert(r@ =~= first_ids(self@.take(0)));
        }
        while i < self.entries.len()
            invariant
                i <= self.entries.len(),
                r@ == first_ids(self@.take(i as int)),
            decreases self.entries.len() - i,
        {
            if !contains_id(&r, self.entries[i].entity_id) {
                r.push(self.entries[i].entity_id);
            }
            proof {
                assert(self@.take(i + 1).drop_last() =~= self@.take(i as int));
                assert(self@.take(i + 1).last() == self@[i as int]);
                assert(self@[i as int] == self.entries[i as int]@);
            }
            i = i + 1;
        }
        proof {
            assert(self@.take(self.entries.len() as int) =~= self@);
        }
        r
    }
}

fn contains_id(v: &Vec<u128>, id: u128) -> (r: bool)
    ensures
        r == v@.contains(id),
{
    let mut i: usize = 0;
    while i < v.len()
        invariant
            i <= v.len(),
            forall|j: int| 0 <= j < i ==> v@[j] != id,
        decreases v.len() - i,
    {
        if v[i] == id {
            return true;
        }
        i = i + 1;
    }
    false
}

} // verus!
