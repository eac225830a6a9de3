use vstd::prelude::*;

use crate::event_log::{tasks_view, Envelope, EnvelopeView, EventLog, LogOp, LogOpView};
use crate::materialize::{lemma_seed_one, spec_load_all};
use crate::selection::{group_by_status, grouped};
use crate::task::{fresh_id, Status, Task, TaskAction, TaskView};

verus! {

/// The orchestration state: one event log, from which every presented list is
/// re-materialized.
pub struct App {
    ledger: EventLog,
}

impl View for App {
    type V = Seq<EnvelopeView>;

    closed spec fn view(&self) -> Seq<EnvelopeView> {
        self.ledger@
    }
}

impl App {
    pub fn new(ledger: EventLog) -> (r: App)
        ensures
            r@ == ledger@,
    {
        App { ledger }
    }

    /// The presented task list: every live snapshot, grouped by status in the
    /// fixed priority order.
    pub fn tasks(&self) -> (r: Vec<Task>)
        ensures
            tasks_view(r@) == grouped(spec_load_all(self@)),
    {
        group_by_status(self.ledger.load_all())
    }

    /// Materializes one id from the log.
    pub fn load(&self, id: u128) -> (r: Option<Task>)
        ensures
            crate::materialize::opt_task_view(r) == crate::materialize::spec_load(self@, id),
    {
        self.ledger.load(id)
    }

    /// The operations ever recorded for `id`, in append order.
    pub fn history(&self, id: u128) -> (r: Vec<LogOp>)
        ensures
            crate::event_log::ops_view(r@) == crate::event_log::ops_for(self@, id),
    {
        self.ledger.history(id)
    }

    /// Appends a `Create` under a caller-chosen id; the seeded snapshot
    /// carries that same id. Returns the recorded envelope.
    pub fn create_with_id(&mut self, name: String, id: u128) -> (e: Envelope)
        ensures
            e@ == (EnvelopeView {
                entity_id: id,
                op: LogOpView::Create(TaskView { name: name@, id, status: Status::Todo }),
            }),
            final(self)@ == old(self)@.push(e@),
    {
        let task = Task::new_with_id(name, id);
        let e = Envelope::new(id, LogOp::Create(task));
        let copy = e.duplicate();
        self.ledger.append(e);
        copy
    }

    /// Appends a `Create` under a freshly generated id. Returns the recorded
    /// envelope, whose task carries the fresh id as its grouping key.
    pub fn create_new(&mut self, name: String) -> (e: Envelope)
        ensures
            final(self)@ == old(self)@.push(e@),
            e@.op matches LogOpView::Create(t) && (t.name == name@) && (t.status
                == Status::Todo) && (e@.entity_id == t.id),
    {
        let id = fresh_id();
        self.create_with_id(name, id)
    }

    /// Startup bootstrap: when nothing materializes, seeds exactly one
    /// placeholder task, so the store is never observably empty; a store that
    /// already shows tasks is left untouched.
    pub fn bootstrap(&mut self) -> (r: Option<Envelope>)
        ensures
            spec_load_all(old(self)@).len() > 0 ==> r is None && final(self)@ == old(self)@,
            spec_load_all(old(self)@).len() == 0 ==> {
                &&& spec_load_all(final(self)@).len() == 1
                &&& spec_load_all(final(self)@)[0].name == "new task"@
                &&& spec_load_all(final(self)@)[0].status == Status::Todo
                &&& r matches Some(e) && (final(self)@ == old(self)@.push(e@)) && (
                e@.op matches LogOpView::Create(t) && (t.name == "new task"@) && (t.status
                    == Status::Todo) && (e@.entity_id == t.id))
            },
    {
        let items = self.ledger.load_all();
        if items.is_empty() {
            let ghost pre = self@;
            let id = fresh_id();
            let e = self.create_with_id("new task".to_owned(), id);
            proof {
                lemma_seed_one(pre, TaskView { name: "new task"@, id, status: Status::Todo }, id);
            }
            Some(e)
        } else {
            None
        }
    }

    /// Records the outcome of an edit form against `id`: a submitted action is
    /// appended as a `Modify`; an incomplete form appends nothing, so the
    /// id's history is unchanged.
    pub fn apply_edit(&mut self, id: u128, action: Option<TaskAction>) -> (r: Option<Envelope>)
        ensures
            action is None ==> r is None && final(self)@ == old(self)@,
            action matches Some(a) ==> {
                &&& final(self)@ == old(self)@.push(
                    EnvelopeView { entity_id: id, op: LogOpView::Modify(a@) },
                )
                &&& r matches Some(e) && (e@ == EnvelopeView {
                    entity_id: id,
                    op: LogOpView::Modify(a@),
                })
            },
    {
        match action {
            Some(a) => {
                let e = Envelope::new(id, LogOp::Modify(a));
                let copy = e.duplicate();
                self.ledger.append(e);
                Some(copy)
            },
            None => None,
        }
    }

    /// Appends a tombstone for `id`; its history stays durable but the id no
    /// longer materializes.
    pub fn delete_task(&mut self, id: u128) -> (e: Envelope)
        ensures
            e@ == (EnvelopeView { entity_id: id, op: LogOpView::Delete }),
            final(self)@ == old(self)@.push(e@),
    {
        let e = Envelope::new_delete(id);
        let copy = e.duplicate();
        self.ledger.append(e);
        copy
    }
}

} // verus!
