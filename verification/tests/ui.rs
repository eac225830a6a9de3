use tordo::app::App;
use tordo::event_log::EventLog;
use tordo::form::{status_next, status_prev, FormCase, FormKey, FormOutcome, FormState};
use tordo::selection::{group_by_status, selection_step, SelAct, SelKey, SelOutcome};
use tordo::task::{Status, Task, TaskAction};

fn task(name: &str, id: u128, status: Status) -> Task {
    let t = Task::new_with_id(name.to_string(), id);
    t.inner_run_event(TaskAction::SetStatus { status })
}

#[test]
fn grouping_stability() {
    let tasks = vec![
        task("a", 1, Status::Done),
        task("b", 2, Status::Todo),
        task("c", 3, Status::Inprogress),
        task("d", 4, Status::Blocked),
        task("e", 5, Status::Suspended),
    ];
    let presented = group_by_status(tasks);
    let statuses: Vec<Status> = presented.iter().map(|t| t.status).collect();
    assert_eq!(
        statuses,
        vec![
            Status::Inprogress,
            Status::Blocked,
            Status::Todo,
            Status::Suspended,
            Status::Done,
        ]
    );
    let names: Vec<&str> = presented.iter().map(|t| t.name.as_str()).collect();
    assert_eq!(names, vec!["c", "d", "b", "e", "a"]);
}

#[test]
fn grouping_keeps_relative_order_within_a_group() {
    let tasks = vec![
        task("first todo", 1, Status::Todo),
        task("done", 2, Status::Done),
        task("second todo", 3, Status::Todo),
    ];
    let presented = group_by_status(tasks);
    let names: Vec<&str> = presented.iter().map(|t| t.name.as_str()).collect();
    assert_eq!(names, vec!["first todo", "second todo", "done"]);
}

#[test]
fn grouping_applies_to_the_presented_list() {
    let mut app = App::new(EventLog::new());
    app.create_with_id("x".to_string(), 1);
    app.create_with_id("y".to_string(), 2);
    app.apply_edit(2, Some(TaskAction::SetStatus { status: Status::Inprogress }));
    let tasks = app.tasks();
    assert_eq!(tasks[0].name, "y");
    assert_eq!(tasks[1].name, "x");
}

#[test]
fn selection_up_at_top_stays() {
    assert_eq!(selection_step(0, 3, SelKey::Up), SelOutcome::Browsing(0));
}

#[test]
fn selection_down_at_bottom_stays() {
    assert_eq!(selection_step(2, 3, SelKey::Down), SelOutcome::Browsing(2));
}

#[test]
fn selection_moves_within_bounds() {
    assert_eq!(selection_step(1, 3, SelKey::Up), SelOutcome::Browsing(0));
    assert_eq!(selection_step(1, 3, SelKey::Down), SelOutcome::Browsing(2));
    assert_eq!(selection_step(1, 3, SelKey::Other), SelOutcome::Browsing(1));
}

#[test]
fn selection_terminal_choices() {
    assert_eq!(
        selection_step(1, 3, SelKey::New),
        SelOutcome::Chose(SelAct::Create)
    );
    assert_eq!(
        selection_step(1, 3, SelKey::Delete),
        SelOutcome::Chose(SelAct::Delete(1))
    );
    assert_eq!(
        selection_step(1, 3, SelKey::Confirm),
        SelOutcome::Chose(SelAct::Modify(1))
    );
    assert_eq!(selection_step(1, 3, SelKey::Cancel), SelOutcome::Cancelled);
}

fn editing(out: FormOutcome) -> FormState {
    match out {
        FormOutcome::Editing(st) => st,
        other => panic!("expected to stay editing, got {:?}", other),
    }
}

#[test]
fn fresh_form_builds_nothing() {
    assert_eq!(FormState::form().build(), None);
}

#[test]
fn form_status_flow_submits() {
    let st = FormState::form();
    let st = editing(st.step(FormKey::Confirm));
    assert_eq!(st, FormState::EditingStatus { status: Status::Todo });
    let st = editing(st.step(FormKey::Down));
    assert_eq!(st, FormState::EditingStatus { status: Status::Inprogress });
    let out = st.step(FormKey::Confirm);
    assert_eq!(
        out,
        FormOutcome::Submitted(TaskAction::SetStatus { status: Status::Inprogress })
    );
}

#[test]
fn form_name_flow_submits() {
    let st = FormState::form();
    let st = editing(st.step(FormKey::Down));
    assert_eq!(st, FormState::ChoosingCase { case: FormCase::NameCase });
    let st = editing(st.step(FormKey::Confirm));
    assert_eq!(st, FormState::EditingName { buffer: String::new() });
    let st = editing(st.step(FormKey::Char('h')));
    let st = editing(st.step(FormKey::Char('i')));
    let out = st.step(FormKey::Confirm);
    assert_eq!(
        out,
        FormOutcome::Submitted(TaskAction::SetName { name: "hi".to_string() })
    );
}

#[test]
fn incomplete_form_stays_editing() {
    let st = FormState::EditingName { buffer: String::new() };
    assert_eq!(st.build(), None);
    let out = st.step(FormKey::Confirm);
    assert_eq!(
        out,
        FormOutcome::Editing(FormState::EditingName { buffer: String::new() })
    );
}

#[test]
fn incomplete_form_leaves_history_unchanged() {
    let mut app = App::new(EventLog::new());
    app.create_with_id("alpha".to_string(), 1);
    let before = app.history(1).len();
    let st = FormState::form();
    let st = editing(st.step(FormKey::Down));
    let st = editing(st.step(FormKey::Confirm));
    let out = st.step(FormKey::Confirm);
    let action = match out {
        FormOutcome::Submitted(a) => Some(a),
        FormOutcome::Editing(st) => st.build(),
        FormOutcome::Cancelled => None,
    };
    assert_eq!(action, None);
    app.apply_edit(1, action);
    assert_eq!(app.history(1).len(), before);
}

#[test]
fn form_backspace_edits_the_buffer() {
    let st = FormState::EditingName { buffer: String::new() };
    let st = editing(st.step(FormKey::Char('h')));
    let st = editing(st.step(FormKey::Backspace));
    assert_eq!(st, FormState::EditingName { buffer: String::new() });
    let st = editing(st.step(FormKey::Backspace));
    assert_eq!(st, FormState::EditingName { buffer: String::new() });
}

#[test]
fn form_cancel_discards() {
    assert_eq!(FormState::form().step(FormKey::Cancel), FormOutcome::Cancelled);
    let st = FormState::EditingName { buffer: "half typed".to_string() };
    assert_eq!(st.step(FormKey::Cancel), FormOutcome::Cancelled);
    let st = FormState::EditingStatus { status: Status::Done };
    assert_eq!(st.step(FormKey::Cancel), FormOutcome::Cancelled);
}

#[test]
fn status_cycle_round_trip() {
    let all = [
        Status::Todo,
        Status::Inprogress,
        Status::Done,
        Status::Suspended,
        Status::Blocked,
    ];
    for s in all {
        assert_eq!(status_prev(status_next(s)), s);
        assert_eq!(status_next(status_prev(s)), s);
    }
    let mut s = Status::Todo;
    for _ in 0..5 {
        s = status_next(s);
    }
    assert_eq!(s, Status::Todo);
}

#[test]
fn display_lines() {
    let t = Task::new_with_id("alpha".to_string(), 1);
    assert_eq!(t.display_line(), "alpha: Todo");
    let t = t.inner_run_event(TaskAction::SetStatus { status: Status::Blocked });
    assert_eq!(t.display_line(), "alpha: Blocked");
    assert_eq!(Status::Inprogress.label(), "Inprogress");
    assert_eq!(Status::Suspended.label(), "Suspended");
    assert_eq!(Status::Done.label(), "Done");
}

#[test]
fn rendered_selection_lines_mark_the_selection() {
    let tasks = vec![
        task("alpha", 1, Status::Todo),
        task("beta", 2, Status::Done),
    ];
    let lines = tordo::selection::render_lines(&tasks, 1);
    assert_eq!(lines, vec!["  alpha: Todo", "> beta: Done"]);
    let lines = tordo::selection::render_lines(&tasks, 0);
    assert_eq!(lines, vec!["> alpha: Todo", "  beta: Done"]);
}

#[test]
fn form_display_text_shows_field_and_value() {
    let st = FormState::form();
    assert_eq!(
        st.display_text(),
        "Edit which field? (Up/Down, Enter)\n> status\n  name"
    );
    let st = FormState::EditingStatus { status: Status::Blocked };
    assert_eq!(
        st.display_text(),
        "status (Up/Down to cycle, Enter to apply):\n> Blocked"
    );
    let st = FormState::EditingName { buffer: "half".to_string() };
    assert_eq!(st.display_text(), "name (type, Enter to apply):\n> half");
}
