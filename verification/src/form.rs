use vstd::prelude::*;

use crate::task::{Status, TaskAction, TaskActionView};

verus! {

use vstd::string::StringExecFns;

/// Which case of the action union the form is editing.
#[derive(Clone, Copy, PartialEq, Eq, Structural, Debug)]
pub enum FormCase {
    StatusCase,
    NameCase,
}

/// The form editor's transient state: choosing a case, or editing the one
/// field of the chosen case.
#[derive(Clone, PartialEq, Eq, Debug)]
pub enum FormState {
    ChoosingCase { case: FormCase },
    EditingStatus { status: Status },
    EditingName { buffer: String },
}

/// Mathematical model of a `FormState`.
#[verifier::ext_equal]
pub enum FormStateView {
    ChoosingCase { case: FormCase },
    EditingStatus { status: Status },
    EditingName { buffer: Seq<char> },
}

impl View for FormState {
    type V = FormStateView;

    open spec fn view(&self) -> FormStateView {
        match self {
            FormState::ChoosingCase { case } => FormStateView::ChoosingCase { case: *case },
            FormState::EditingStatus { status } => FormStateView::EditingStatus {
                status: *status,
            },
            FormState::EditingName { buffer } => FormStateView::EditingName { buffer: buffer@ },
        }
    }
}

/// A key event inside the form editor.
#[derive(Clone, Copy, PartialEq, Eq, Structural, Debug)]
pub enum FormKey {
    Up,
    Down,
    Char(char),
    Backspace,
    Confirm,
    Cancel,
    Other,
}

/// One transition of the form editor: keep editing, submit a complete action,
/// or cancel and discard the buffer.
#[derive(Clone, PartialEq, Eq, Debug)]
pub enum FormOutcome {
    Editing(FormState),
    Submitted(TaskAction),
    Cancelled,
}

/// Mathematical model of a `FormOutcome`.
#[verifier::ext_equal]
pub enum FormOutcomeView {
    Editing(FormStateView),
    Submitted(TaskActionView),
    Cancelled,
}

impl View for FormOutcome {
    type V = FormOutcomeView;

    open spec fn view(&self) -> FormOutcomeView {
        match self {
            FormOutcome::Editing(st) => FormOutcomeView::Editing(st@),
            FormOutcome::Submitted(a) => FormOutcomeView::Submitted(a@),
            FormOutcome::Cancelled => FormOutcomeView::Cancelled,
        }
    }
}

/// The next status in the selector's cycle.
pub open spec fn spec_status_next(s: Status) -> Status {
    match s {
        Status::Todo => Status::Inprogress,
        Status::Inprogress => Status::Done,
        Status::Done => Status::Suspended,
        Status::Suspended => Status::Blocked,
        Status::Blocked => Status::Todo,
    }
}

/// The previous status in the selector's cycle.
pub open spec fn spec_status_prev(s: Status) -> Status {
    match s {
        Status::Todo => Status::Blocked,
        Status::Inprogress => Status::Todo,
        Status::Done => Status::Inprogress,
        Status::Suspended => Status::Done,
        Status::Blocked => Status::Suspended,
    }
}

pub fn status_next(s: Status) -> (r: Status)
    ensures
        r == spec_status_next(s),
{
    match s {
        Status::Todo => Status::Inprogress,
        Status::Inprogress => Status::Done,
        Status::Done => Status::Suspended,
        Status::Suspended => Status::Blocked,
        Status::Blocked => Status::Todo,
    }
}

pub fn status_prev(s: Status) -> (r: Status)
    ensures
        r == spec_status_prev(s),
{
    match s {
        Status::Todo => Status::Blocked,
        Status::Inprogress => Status::Todo,
        Status::Done => Status::Inprogress,
        Status::Suspended => Status::Done,
        Status::Blocked => Status::Suspended,
    }
}

/// The complete action a form state builds, if its required field is
/// populated: a status selector always carries a value, a name needs at least
/// one character, and an unchosen case builds nothing.
pub open spec fn spec_build(st: FormStateView) -> Option<TaskActionView> {
    match st {
        FormStateView::ChoosingCase { case } => None,
        FormStateView::EditingStatus { status } => Some(
            TaskActionView::SetStatus { status },
        ),
        FormStateView::EditingName { buffer } => if buffer.len() == 0 {
            None
        } else {
            Some(TaskActionView::SetName { name: buffer })
        },
    }
}

pub open spec fn opt_action_view(o: Option<TaskAction>) -> Option<TaskActionView> {
    match o {
        Some(a) => Some(a@),
        None => None,
    }
}

/// The form transition function, as a single definition.
pub open spec fn spec_form_step(st: FormStateView, key: FormKey) -> FormOutcomeView {
    match key {
        FormKey::Cancel => FormOutcomeView::Cancelled,
        FormKey::Confirm => match st {
            FormStateView::ChoosingCase { case } => FormOutcomeView::Editing(
                match case {
                    FormCase::StatusCase => FormStateView::EditingStatus { status: Status::Todo },
                    FormCase::NameCase => FormStateView::EditingName { buffer: Seq::empty() },
                },
            ),
            _ => match spec_build(st) {
                Some(a) => FormOutcomeView::Submitted(a),
                None => FormOutcomeView::Editing(st),
            },
        },
        FormKey::Up => match st {
            FormStateView::ChoosingCase { case } => FormOutcomeView::Editing(
                FormStateView::ChoosingCase {
                    case: if case is StatusCase {
                        FormCase::NameCase
                    } else {
                        FormCase::StatusCase
                    },
                },
            ),
            FormStateView::EditingStatus { status } => FormOutcomeView::Editing(
                FormStateView::EditingStatus { status: spec_status_prev(status) },
            ),
            _ => FormOutcomeView::Editing(st),
        },
        FormKey::Down => match st {
            FormStateView::ChoosingCase { case } => FormOutcomeView::Editing(
                FormStateView::ChoosingCase {
                    case: if case is StatusCase {
                        FormCase::NameCase
                    } else {
                        FormCase::StatusCase
                    },
                },
            ),
            FormStateView::EditingStatus { status } => FormOutcomeView::Editing(
                FormStateView::EditingStatus { status: spec_status_next(status) },
            ),
            _ => FormOutcomeView::Editing(st),
        },
        FormKey::Char(c) => match st {
            FormStateView::EditingName { buffer } => FormOutcomeView::Editing(
                FormStateView::EditingName { buffer: buffer.push(c) },
            ),
            _ => FormOutcomeView::Editing(st),
        },
        FormKey::Backspace => match st {
            FormStateView::EditingName { buffer } => FormOutcomeView::Editing(
                FormStateView::EditingName {
                    buffer: if buffer.len() == 0 {
                        buffer
                    } else {
                        buffer.drop_last()
                    },
                },
            ),
            _ => FormOutcomeView::Editing(st),
        },
        FormKey::Other => FormOutcomeView::Editing(st),
    }
}

/// Relies on String::push: appends exactly the given character at the end.
#[verifier::external_body]
fn string_push(s: &mut String, c: char)
    ensures
        final(s)@ == old(s)@.push(c),
{
    s.push(c);
}

/// Relies on String::pop: removes and returns the last character, or returns
/// `None` and leaves the string as it was when it is empty.
#[verifier::external_body]
fn string_pop(s: &mut String) -> (r: Option<char>)
    ensures
        old(s)@.len() == 0 ==> r is None && final(s)@ == old(s)@,
        old(s)@.len() > 0 ==> r == Some(old(s)@.last()) && final(s)@ == old(s)@.drop_last(),
{
    s.pop()
}

/// The form screen's text: its labeled fields with their current values.
pub open spec fn spec_display_text(st: FormStateView) -> Seq<char> {
    match st {
        FormStateView::ChoosingCase { case: FormCase::StatusCase } => (
        "Edit which field? (Up/Down, Enter)\n> status\n  name")@,
        FormStateView::ChoosingCase { case: FormCase::NameCase } => (
        "Edit which field? (Up/Down, Enter)\n  status\n> name")@,
        FormStateView::EditingStatus { status } => "status (Up/Down to cycle, Enter to apply):\n> "@
            + status.spec_label(),
        FormStateView::EditingName { buffer } => "name (type, Enter to apply):\n> "@ + buffer,
    }
}

impl FormState {
    /// A fresh form, before any case of the action union has been chosen.
    pub fn form() -> (r: FormState)
        ensures
            r@ == (FormStateView::ChoosingCase { case: FormCase::StatusCase }),
    {
        FormState::ChoosingCase { case: FormCase::StatusCase }
    }

    /// Attempts to construct a complete action from the buffer; `None` when a
    /// required field is still unset.
    pub fn build(&self) -> (r: Option<TaskAction>)
        ensures
            opt_action_view(r) == spec_build(self@),
    {
        match self {
            FormState::ChoosingCase { case: _ } => None,
            FormState::EditingStatus { status } => Some(
                TaskAction::SetStatus { status: *status },
            ),
            FormState::EditingName { buffer } => {
                if buffer.as_str().is_empty() {
                    None
                } else {
                    Some(TaskAction::SetName { name: buffer.clone() })
                }
            },
        }
    }

    /// The text shown for this form state: the labeled field being edited and
    /// its current value.
    pub fn display_text(&self) -> (r: String)
        ensures
            r@ == spec_display_text(self@),
    {
        match self {
            FormState::ChoosingCase { case: FormCase::StatusCase } => {
                "Edit which field? (Up/Down, Enter)\n> status\n  name".to_owned()
            },
            FormState::ChoosingCase { case: FormCase::NameCase } => {
                "Edit which field? (Up/Down, Enter)\n  status\n> name".to_owned()
            },
            FormState::EditingStatus { status } => {
                let mut s = "status (Up/Down to cycle, Enter to apply):\n> ".to_owned();
                s.append(status.label());
                s
            },
            FormState::EditingName { buffer } => {
                let mut s = "name (type, Enter to apply):\n> ".to_owned();
                s.append(buffer.as_str());
                s
            },
        }
    }

    /// One step of the form editor. Cancel discards the buffer; Confirm
    /// submits only a complete action and otherwise stays in editing.
    pub fn step(self, key: FormKey) -> (r: FormOutcome)
        ensures
            r@ == spec_form_step(self@, key),
    {
        match key {
            FormKey::Cancel => FormOutcome::Cancelled,
            FormKey::Confirm => match self {
                FormState::ChoosingCase { case: FormCase::StatusCase } => FormOutcome::Editing(
                    FormState::EditingStatus { status: Status::Todo },
                ),
                FormState::ChoosingCase { case: FormCase::NameCase } => {
                    let r = FormOutcome::Editing(FormState::EditingName { buffer: String::new() });
                    proof {
                        assert(r@ =~= spec_form_step(self@, key));
                    }
                    r
                },
                _ => match self.build() {
                    Some(a) => FormOutcome::Submitted(a),
                    None => FormOutcome::Editing(self),
                },
            },
            FormKey::Up => match self {
                FormState::ChoosingCase { case: FormCase::StatusCase } => FormOutcome::Editing(
                    FormState::ChoosingCase { case: FormCase::NameCase },
                ),
                FormState::ChoosingCase { case: FormCase::NameCase } => FormOutcome::Editing(
                    FormState::ChoosingCase { case: FormCase::StatusCase },
                ),
                FormState::EditingStatus { status } => FormOutcome::Editing(
                    FormState::EditingStatus { status: status_prev(status) },
                ),
                other => FormOutcome::Editing(other),
            },
            FormKey::Down => match self {
                FormState::ChoosingCase { case: FormCase::StatusCase } => FormOutcome::Editing(
                    FormState::ChoosingCase { case: FormCase::NameCase },
                ),
                FormState::ChoosingCase { case: FormCase::NameCase } => FormOutcome::Editing(
                    FormState::ChoosingCase { case: FormCase::StatusCase },
                ),
                FormState::EditingStatus { status } => FormOutcome::Editing(
                    FormState::EditingStatus { status: status_next(status) },
                ),
                other => FormOutcome::Editing(other),
            },
            FormKey::Char(c) => match self {
                FormState::EditingName { mut buffer } => {
                    string_push(&mut buffer, c);
                    FormOutcome::Editing(FormState::EditingName { buffer })
                },
                other => FormOutcome::Editing(other),
            },
            FormKey::Backspace => match self {
                FormState::EditingName { mut buffer } => {
                    let _dropped = string_pop(&mut buffer);
                    FormOutcome::Editing(FormState::EditingName { buffer })
                },
                other => FormOutcome::Editing(other),
            },
            FormKey::Other => FormOutcome::Editing(self),
        }
    }
}

} // verus!
