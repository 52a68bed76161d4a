//! Task templates offered for shell scripts, and when a task may be run.
use vstd::prelude::*;
use vstd::string::*;

verus! {

/// A variable that a task template refers to, replaced when the task runs.
#[derive(Clone, Copy, Debug, PartialEq, Eq, Structural)]
pub enum VariableName {
    /// The absolute path of the current file.
    File,
    /// The text selected in the current editor.
    SelectedText,
}

/// The name of a variable, as the task's environment holds it.
pub open spec fn variable_text(v: VariableName) -> Seq<char> {
    match v {
        VariableName::File => "ZED_FILE"@,
        VariableName::SelectedText => "ZED_SELECTED_TEXT"@,
    }
}

impl VariableName {
    /// How a template refers to the variable: `$` and its name.
    pub fn template_value(&self) -> (r: String)
        ensures
            r@ == "$"@ + variable_text(*self),
    {
        proof {
            reveal_strlit("$ZED_FILE");
            reveal_strlit("$ZED_SELECTED_TEXT");
            reveal_strlit("ZED_FILE");
            reveal_strlit("ZED_SELECTED_TEXT");
            reveal_strlit("$");
        }
        match self {
            VariableName::File => String::from_str("$ZED_FILE"),
            VariableName::SelectedText => String::from_str("$ZED_SELECTED_TEXT"),
        }
    }
}

/// A task to run in a terminal, with its label and command; everything else
/// takes its default.
#[derive(Clone, Debug, PartialEq)]
pub struct TaskTemplate {
    pub label: String,
    pub command: String,
    pub args: Vec<String>,
    pub cwd: Option<String>,
}

/// The tasks offered for shell scripts: running the selection, and running
/// the current file.
pub fn bash_task_context() -> (r: Vec<TaskTemplate>)
    ensures
        r@.len() == 2,
        r@[0].label@ == "execute selection"@,
        r@[0].command@ == "$"@ + variable_text(VariableName::SelectedText),
        r@[1].label@ == "run '"@ + "$"@ + variable_text(VariableName::File) + "'"@,
        r@[1].command@ == "$"@ + variable_text(VariableName::File),
        forall|i: int| 0 <= i < 2 ==> #[trigger] r@[i].args@.len() == 0 && r@[i].cwd is None,
{
    let mut run_label = String::from_str("run '");
    run_label.append(VariableName::File.template_value().as_str());
    run_label.append("'");
    let tasks = vec![
        TaskTemplate {
            label: String::from_str("execute selection"),
            command: VariableName::SelectedText.template_value(),
            args: Vec::new(),
            cwd: None,
        },
        TaskTemplate { label: run_label, command: VariableName::File.template_value(), args: Vec::new(), cwd: None },
    ];
    assert(tasks@[1].label@ =~= "run '"@ + "$"@ + variable_text(VariableName::File) + "'"@);
    tasks
}

/// The state of the connection to a remote host.
#[derive(Clone, Copy, Debug, PartialEq, Eq, Structural)]
pub enum ConnectionState {
    Connecting,
    Connected,
    HeartbeatMissed,
    Reconnecting,
    Disconnected,
}

/// Whether tasks may be scheduled: always in a local project, and in a
/// remote one only while connected.
pub fn can_schedule_tasks(state: Option<ConnectionState>) -> (r: bool)
    ensures
        r == (state is None || state == Some(ConnectionState::Connected)),
{
    match state {
        None | Some(ConnectionState::Connected) => true,
        Some(_) => false,
    }
}

} // verus!
