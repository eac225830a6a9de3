use vstd::prelude::*;

use crate::event_log::tasks_view;
use crate::task::{Status, Task, TaskView};

verus! {

use vstd::string::StringExecFns;

/// The selection-screen line for one task, with the current selection marked.
pub open spec fn spec_render_line(t: TaskView, marked: bool) -> Seq<char> {
    (if marked {
        "> "@
    } else {
        "  "@
    }) + t.name + ": "@ + t.status.spec_label()
}

/// The ordered list of display strings handed to the terminal: one line per
/// visible task, the selected one prefixed with a marker.
pub fn render_lines(tasks: &Vec<Task>, selected: usize) -> (r: Vec<String>)
    ensures
        r@.len() == tasks@.len(),
        forall|i: int|
            0 <= i < tasks@.len() ==> r@[i]@ == spec_render_line(tasks@[i]@, i == selected),
{
    let mut r: Vec<String> = Vec::new();
    let mut i: usize = 0;
    while i < tasks.len()
        invariant
            i <= tasks.len(),
            r@.len() == i,
            forall|j: int| 0 <= j < i ==> r@[j]@ == spec_render_line(tasks@[j]@, j == selected),
        decreases tasks.len() - i,
    {
        let mut line = if i == selected {
            "> ".to_owned()
        } else {
            "  ".to_owned()
        };
        line.append(tasks[i].name.as_str());
        line.append(": ");
        line.append(tasks[i].status.label());
        r.push(line);
        i = i + 1;
    }
    r
}

/// The tasks among `s` whose status is `st`, in their original order.
pub open spec fn by_status(s: Seq<TaskView>, st: Status) -> Seq<TaskView>
    decreases s.len(),
{
    if s.len() == 0 {
        Seq::empty()
    } else if s.last().status == st {
        by_status(s.drop_last(), st).push(s.last())
    } else {
        by_status(s.drop_last(), st)
    }
}

/// Presentation order: partitioned by status in the fixed priority order,
/// original relative order kept within each group. Presentation only; stored
/// data is never reordered.
pub open spec fn grouped(s: Seq<TaskView>) -> Seq<TaskView> {
    by_status(s, Status::Inprogress) + by_status(s, Status::Blocked) + by_status(s, Status::Todo)
        + by_status(s, Status::Suspended) + by_status(s, Status::Done)
}

/// Partitions tasks by status and concatenates the groups in the fixed
/// priority order.
pub fn group_by_status(tasks: Vec<Task>) -> (r: Vec<Task>)
    ensures
        tasks_view(r@) == grouped(tasks_view(tasks@)),
{
    let mut done: Vec<Task> = Vec::new();
    let mut todo: Vec<Task> = Vec::new();
    let mut in_progress: Vec<Task> = Vec::new();
    let mut suspended: Vec<Task> = Vec::new();
    let mut blocked: Vec<Task> = Vec::new();
    let mut i: usize = 0;
    proof {
        assert(tasks_view(tasks@).take(0) =~= Seq::<TaskView>::empty());
        assert(tasks_view(done@) =~= by_status(tasks_view(tasks@).take(0), Status::Done));
        assert(tasks_view(todo@) =~= by_status(tasks_view(tasks@).take(0), Status::Todo));
        assert(tasks_view(in_progress@) =~= by_status(
            tasks_view(tasks@).take(0),
            Status::Inprogress,
        ));
        assert(tasks_view(suspended@) =~= by_status(
            tasks_view(tasks@).take(0),
            Status::Suspended,
        ));
        assert(tasks_view(blocked@) =~= by_status(tasks_view(tasks@).take(0), Status::Blocked));
    }
    while i < tasks.len()
        invariant
            i <= tasks.len(),
            tasks_view(done@) == by_status(tasks_view(tasks@).take(i as int), Status::Done),
            tasks_view(todo@) == by_status(tasks_view(tasks@).take(i as int), Status::Todo),
            tasks_view(in_progress@) == by_status(
                tasks_view(tasks@).take(i as int),
                Status::Inprogress,
            ),
            tasks_view(suspended@) == by_status(
                tasks_view(tasks@).take(i as int),
                Status::Suspended,
            ),
            tasks_view(blocked@) == by_status(tasks_view(tasks@).take(i as int), Status::Blocked),
        decreases tasks.len() - i,
    {
        let ghost pre_done = done@;
        let ghost pre_todo = todo@;
        let ghost pre_in_progress = in_progress@;
        let ghost pre_suspended = suspended@;
        let ghost pre_blocked = blocked@;
        let task = tasks[i].duplicate();
        let ghost tv = task@;
        match task.status {
            Status::Blocked => blocked.push(task),
            Status::Todo => todo.push(task),
            Status::Inprogress => in_progress.push(task),
            Status::Done => done.push(task),
            Status::Suspended => suspended.push(task),
        }
        proof {
            assert(tasks_view(done@) =~= if tv.status is Done {
                tasks_view(pre_done).push(tv)
            } else {
                tasks_view(pre_done)
            });
            assert(tasks_view(todo@) =~= if tv.status is Todo {
                tasks_view(pre_todo).push(tv)
            } else {
                tasks_view(pre_todo)
            });
            assert(tasks_view(in_progress@) =~= if tv.status is Inprogress {
                tasks_view(pre_in_progress).push(tv)
            } else {
                tasks_view(pre_in_progress)
            });
            assert(tasks_view(suspended@) =~= if tv.status is Suspended {
                tasks_view(pre_suspended).push(tv)
            } else {
                tasks_view(pre_suspended)
            });
            assert(tasks_view(blocked@) =~= if tv.status is Blocked {
                tasks_view(pre_blocked).push(tv)
            } else {
                tasks_view(pre_blocked)
            });
            assert(tasks_view(tasks@).take(i + 1).drop_last() =~= tasks_view(tasks@).take(
                i as int,
            ));
            assert(tasks_view(tasks@).take(i + 1).last() == tasks@[i as int]@);
        }
        i = i + 1;
    }
    proof {
        assert(tasks_view(tasks@).take(tasks@.len() as int) =~= tasks_view(tasks@));
    }
    let mut out: Vec<Task> = Vec::new();
    out.append(&mut in_progress);
    out.append(&mut blocked);
    out.append(&mut todo);
    out.append(&mut suspended);
    out.append(&mut done);
    proof {
        assert(tasks_view(out@) =~= grouped(tasks_view(tasks@)));
    }
    out
}

/// A key event on the selection screen, from the closed set the loop consumes.
#[derive(Clone, Copy, PartialEq, Eq, Structural, Debug)]
pub enum SelKey {
    Up,
    Down,
    New,
    Delete,
    Confirm,
    Cancel,
    Other,
}

/// What the operator chose; indices refer to the presented list.
#[derive(Clone, Copy, PartialEq, Eq, Structural, Debug)]
pub enum SelAct {
    Modify(usize),
    Create,
    Delete(usize),
}

/// One transition of the selection screen: keep browsing at some index, or
/// end the loop with a choice or a cancellation.
#[derive(Clone, Copy, PartialEq, Eq, Structural, Debug)]
pub enum SelOutcome {
    Browsing(usize),
    Chose(SelAct),
    Cancelled,
}

/// The selection transition function, as a single definition.
pub open spec fn spec_selection_step(selected: usize, len: usize, key: SelKey) -> SelOutcome {
    match key {
        SelKey::Up => SelOutcome::Browsing(if selected == 0 { 0 } else { (selected - 1) as usize }),
        SelKey::Down => SelOutcome::Browsing(
            if selected + 1 < len { (selected + 1) as usize } else { selected },
        ),
        SelKey::New => SelOutcome::Chose(SelAct::Create),
        SelKey::Delete => SelOutcome::Chose(SelAct::Delete(selected)),
        SelKey::Confirm => SelOutcome::Chose(SelAct::Modify(selected)),
        SelKey::Cancel => SelOutcome::Cancelled,
        SelKey::Other => SelOutcome::Browsing(selected),
    }
}

/// One step of the selection state machine. The index is clamped to
/// `[0, len - 1]` with no wraparound: moving up at the top or down at the
/// bottom leaves the selection where it was.
pub fn selection_step(selected: usize, len: usize, key: SelKey) -> (r: SelOutcome)
    requires
        0 < len,
        selected < len,
    ensures
        r == spec_selection_step(selected, len, key),
        key is Up && selected == 0 ==> r == SelOutcome::Browsing(0usize),
        key is Down && selected == len - 1 ==> r == SelOutcome::Browsing(selected),
        r matches SelOutcome::Browsing(s) ==> s < len,
{
    match key {
        SelKey::Up => SelOutcome::Browsing(if selected > 0 { selected - 1 } else { selected }),
        SelKey::Down => SelOutcome::Browsing(
            if selected + 1 < len { selected + 1 } else { selected },
        ),
        SelKey::New => SelOutcome::Chose(SelAct::Create),
        SelKey::Delete => SelOutcome::Chose(SelAct::Delete(selected)),
        SelKey::Confirm => SelOutcome::Chose(SelAct::Modify(selected)),
        SelKey::Cancel => SelOutcome::Cancelled,
        SelKey::Other => SelOutcome::Browsing(selected),
    }
}

} // verus!
