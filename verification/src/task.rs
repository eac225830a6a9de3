use vstd::prelude::*;

verus! {

use vstd::string::StringExecFns;

/// Lifecycle status of a task. The variant order carries no stored meaning;
/// a fixed priority order is imposed at presentation time only.
#[derive(Clone, Copy, PartialEq, Eq, Structural, Debug, Hash)]
pub enum Status {
    Todo,
    Inprogress,
    Done,
    Suspended,
    Blocked,
}

impl Status {
    /// The label shown for this status on the selection screen.
    pub open spec fn spec_label(self) -> Seq<char> {
        match self {
            Status::Todo => "Todo"@,
            Status::Inprogress => "Inprogress"@,
            Status::Done => "Done"@,
            Status::Suspended => "Suspended"@,
            Status::Blocked => "Blocked"@,
        }
    }

    pub fn label(&self) -> (r: &'static str)
        ensures
            r@ == self.spec_label(),
    {
        match self {
            Status::Todo => "Todo",
            Status::Inprogress => "Inprogress",
            Status::Done => "Done",
            Status::Suspended => "Suspended",
            Status::Blocked => "Blocked",
        }
    }
}

/// A self-contained delta against one task; applying it is deterministic.
#[derive(Clone, PartialEq, Eq, Debug, Hash)]
pub enum TaskAction {
    SetStatus { status: Status },
    SetName { name: String },
}

/// Mathematical model of a `TaskAction`: the name as a character sequence.
#[verifier::ext_equal]
pub enum TaskActionView {
    SetStatus { status: Status },
    SetName { name: Seq<char> },
}

impl View for TaskAction {
    type V = TaskActionView;

    open spec fn view(&self) -> TaskActionView {
        match self {
            TaskAction::SetStatus { status } => TaskActionView::SetStatus { status: *status },
            TaskAction::SetName { name } => TaskActionView::SetName { name: name@ },
        }
    }
}

impl TaskAction {
    pub fn duplicate(&self) -> (r: TaskAction)
        ensures
            r@ == self@,
    {
        match self {
            TaskAction::SetStatus { status } => TaskAction::SetStatus { status: *status },
            TaskAction::SetName { name } => TaskAction::SetName { name: name.clone() },
        }
    }
}

/// A materialized task snapshot: never stored directly, always derived by
/// replaying the task's event history.
#[derive(Clone, PartialEq, Eq, Debug, Hash)]
pub struct Task {
    pub name: String,
    pub id: u128,
    pub status: Status,
}

/// Mathematical model of a `Task` snapshot.
#[verifier::ext_equal]
pub struct TaskView {
    pub name: Seq<char>,
    pub id: u128,
    pub status: Status,
}

impl View for Task {
    type V = TaskView;

    open spec fn view(&self) -> TaskView {
        TaskView { name: self.name@, id: self.id, status: self.status }
    }
}

/// Reducer fold step: a pure, total function from a snapshot and an action to
/// the next snapshot.
pub open spec fn spec_run_event(t: TaskView, a: TaskActionView) -> TaskView {
    match a {
        TaskActionView::SetStatus { status } => TaskView { status, ..t },
        TaskActionView::SetName { name } => TaskView { name, ..t },
    }
}

/// Actions are self-contained deltas: applying the same action to the result
/// of applying it is the same as applying it once, so replaying a history is
/// idempotent in effect.
pub proof fn lemma_action_idempotent(t: TaskView, a: TaskActionView)
    ensures
        spec_run_event(spec_run_event(t, a), a) == spec_run_event(t, a),
{
}

/// The seed snapshot used when an id is materialized with no `Create` yet.
pub open spec fn spec_default(id: u128) -> TaskView {
    TaskView { name: "uninit"@, id, status: Status::Todo }
}

/// Relies on uuid::Uuid::new_v4 for a freshly generated random version-4
/// identifier, read out as its 128 bits with uuid::Uuid::as_u128; nothing is
/// promised of the value.
#[verifier::external_body]
pub fn fresh_id() -> u128 {
    uuid::Uuid::new_v4().as_u128()
}

impl Task {
    /// Reducer: applies one action to this snapshot.
    pub fn inner_run_event(self, event: TaskAction) -> (r: Task)
        ensures
            r@ == spec_run_event(self@, event@),
    {
        match event {
            TaskAction::SetStatus { status } => Task { status, ..self },
            TaskAction::SetName { name } => Task { name, ..self },
        }
    }

    /// The seed snapshot for an id whose history starts without a `Create`.
    pub fn new_default(id: u128) -> (r: Task)
        ensures
            r@ == spec_default(id),
    {
        Task { name: "uninit".to_owned(), id, status: Status::Todo }
    }

    /// A new snapshot under a caller-chosen identifier.
    pub fn new_with_id(name: String, id: u128) -> (r: Task)
        ensures
            r@ == (TaskView { name: name@, id, status: Status::Todo }),
    {
        Task { name, id, status: Status::Todo }
    }

    /// A new snapshot under a freshly generated identifier.
    pub fn new(name: String) -> (r: Task)
        ensures
            r@.name == name@,
            r@.status == Status::Todo,
    {
        let id = fresh_id();
        Task::new_with_id(name, id)
    }

    pub fn item_id(&self) -> (r: u128)
        ensures
            r == self@.id,
    {
        self.id
    }

    pub fn duplicate(&self) -> (r: Task)
        ensures
            r@ == self@,
    {
        Task { name: self.name.clone(), id: self.id, status: self.status }
    }

    /// The selection screen line: the name and the status label.
    pub fn display_line(&self) -> (r: String)
        ensures
            r@ == self@.name + ": "@ + self@.status.spec_label(),
    {
        let mut s = self.name.clone();
        s.append(": ");
        s.append(self.status.label());
        s
    }
}

} // verus!
