use tordo::app::App;
use tordo::event_log::{Envelope, EventLog, LogOp};
use tordo::task::{Status, Task, TaskAction};

fn create(id: u128, name: &str) -> Envelope {
    Envelope::new(id, LogOp::Create(Task::new_with_id(name.to_string(), id)))
}

fn set_name(id: u128, name: &str) -> Envelope {
    Envelope::new(
        id,
        LogOp::Modify(TaskAction::SetName { name: name.to_string() }),
    )
}

fn set_status(id: u128, status: Status) -> Envelope {
    Envelope::new(id, LogOp::Modify(TaskAction::SetStatus { status }))
}

#[test]
fn replay_determinism() {
    let mut log = EventLog::new();
    log.append(create(1, "alpha"));
    log.append(set_status(1, Status::Blocked));
    log.append(set_name(1, "beta"));
    let first = log.load(1);
    let second = log.load(1);
    assert_eq!(first, second);
    assert!(first.is_some());
}

#[test]
fn create_and_modify_round_trip() {
    let mut log = EventLog::new();
    log.append(create(1, "alpha"));
    log.append(set_name(1, "beta"));
    log.append(set_status(1, Status::Done));
    let task = log.load(1).unwrap();
    assert_eq!(task.name, "beta");
    assert_eq!(task.status, Status::Done);
    assert_eq!(task.id, 1);
}

#[test]
fn tombstone_exclusion() {
    let mut log = EventLog::new();
    log.append(create(1, "gone"));
    log.append(create(2, "kept"));
    log.append(Envelope::new_delete(1));
    assert!(log.load(1).is_none());
    let all = log.load_all();
    assert_eq!(all.len(), 1);
    assert_eq!(all[0].id, 2);
    assert!(all.iter().all(|t| t.id != 1));
}

#[test]
fn resurrection_ordering() {
    let mut log = EventLog::new();
    log.append(create(1, "first"));
    log.append(Envelope::new_delete(1));
    log.append(create(1, "second"));
    let task = log.load(1).unwrap();
    assert_eq!(task.name, "second");
    assert_eq!(task.status, Status::Todo);
}

#[test]
fn modify_before_create_seeds_default() {
    let mut log = EventLog::new();
    log.append(set_status(5, Status::Done));
    let task = log.load(5).unwrap();
    assert_eq!(task.name, "uninit");
    assert_eq!(task.status, Status::Done);
    assert_eq!(task.id, 5);
}

#[test]
fn empty_log_materializes_nothing() {
    let log = EventLog::new();
    assert!(log.load(1).is_none());
    assert!(log.load_all().is_empty());
    assert!(log.known_ids().is_empty());
    assert!(log.history(1).is_empty());
}

#[test]
fn history_is_per_id_and_ordered() {
    let mut log = EventLog::new();
    log.append(create(1, "a"));
    log.append(create(2, "b"));
    log.append(set_name(1, "a2"));
    log.append(Envelope::new_delete(2));
    let h1 = log.history(1);
    assert_eq!(h1.len(), 2);
    assert_eq!(
        h1[0],
        LogOp::Create(Task::new_with_id("a".to_string(), 1))
    );
    assert_eq!(
        h1[1],
        LogOp::Modify(TaskAction::SetName { name: "a2".to_string() })
    );
    let h2 = log.history(2);
    assert_eq!(h2.len(), 2);
    assert_eq!(h2[1], LogOp::Delete);
}

#[test]
fn known_ids_keep_tombstoned_entries() {
    let mut log = EventLog::new();
    log.append(create(1, "a"));
    log.append(Envelope::new_delete(1));
    assert_eq!(log.known_ids(), vec![1]);
    assert!(log.load_all().is_empty());
}

#[test]
fn bootstrap_seeds_exactly_one_default_task() {
    let mut app = App::new(EventLog::new());
    let seeded = app.bootstrap();
    assert!(seeded.is_some());
    let tasks = app.tasks();
    assert_eq!(tasks.len(), 1);
    assert_eq!(tasks[0].name, "new task");
    assert_eq!(tasks[0].status, Status::Todo);
    let again = app.bootstrap();
    assert!(again.is_none());
    assert_eq!(app.tasks().len(), 1);
}

#[test]
fn bootstrap_seeds_over_tombstones_only_once() {
    let mut log = EventLog::new();
    log.append(create(9, "gone"));
    log.append(Envelope::new_delete(9));
    let mut app = App::new(log);
    let seeded = app.bootstrap();
    assert!(seeded.is_some());
    assert_eq!(app.tasks().len(), 1);
}

#[test]
fn create_new_tasks_get_distinct_ids() {
    let mut app = App::new(EventLog::new());
    let e1 = app.create_new("new task".to_string());
    let e2 = app.create_new("new task".to_string());
    assert_ne!(e1.entity_id, e2.entity_id);
    let tasks = app.tasks();
    assert_eq!(tasks.len(), 2);
    assert!(tasks.iter().all(|t| t.name == "new task"));
}

#[test]
fn incomplete_edit_appends_nothing() {
    let mut app = App::new(EventLog::new());
    app.create_with_id("alpha".to_string(), 1);
    let before = app.history(1).len();
    let recorded = app.apply_edit(1, None);
    assert!(recorded.is_none());
    assert_eq!(app.history(1).len(), before);
    assert_eq!(app.load(1).unwrap().name, "alpha");
}

#[test]
fn submitted_edit_is_recorded() {
    let mut app = App::new(EventLog::new());
    app.create_with_id("alpha".to_string(), 1);
    let recorded = app.apply_edit(
        1,
        Some(TaskAction::SetName { name: "renamed".to_string() }),
    );
    assert!(recorded.is_some());
    assert_eq!(app.load(1).unwrap().name, "renamed");
    let recorded = app.apply_edit(
        1,
        Some(TaskAction::SetStatus { status: Status::Inprogress }),
    );
    assert!(recorded.is_some());
    let task = app.load(1).unwrap();
    assert_eq!(task.name, "renamed");
    assert_eq!(task.status, Status::Inprogress);
}

#[test]
fn delete_task_tombstones_the_id() {
    let mut app = App::new(EventLog::new());
    app.create_with_id("alpha".to_string(), 1);
    let e = app.delete_task(1);
    assert_eq!(e.entity_id, 1);
    assert_eq!(e.op, LogOp::Delete);
    assert!(app.load(1).is_none());
    assert!(app.tasks().is_empty());
}

#[test]
fn reducer_replaces_single_fields() {
    let t = Task::new_with_id("alpha".to_string(), 3);
    let t = t.inner_run_event(TaskAction::SetStatus { status: Status::Blocked });
    assert_eq!(t.name, "alpha");
    assert_eq!(t.status, Status::Blocked);
    let t = t.inner_run_event(TaskAction::SetName { name: "beta".to_string() });
    assert_eq!(t.name, "beta");
    assert_eq!(t.status, Status::Blocked);
    assert_eq!(t.item_id(), 3);
}

#[test]
fn default_task_fields() {
    let t = Task::new_default(11);
    assert_eq!(t.name, "uninit");
    assert_eq!(t.status, Status::Todo);
    assert_eq!(t.id, 11);
}

#[test]
fn fresh_tasks_start_todo() {
    let t = Task::new("mine".to_string());
    assert_eq!(t.name, "mine");
    assert_eq!(t.status, Status::Todo);
}

#[test]
fn actions_are_idempotent_deltas() {
    let base = Task::new_with_id("alpha".to_string(), 3);
    let rename = TaskAction::SetName { name: "beta".to_string() };
    let once = base.clone().inner_run_event(rename.clone());
    let twice = base.inner_run_event(rename.clone()).inner_run_event(rename);
    assert_eq!(once, twice);
}
