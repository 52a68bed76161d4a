//! The decisions of a debug panel item, which shows one thread of one
//! client: which events concern it, where adapter output goes, and what a
//! thread's status becomes once it is resumed.
use vstd::prelude::*;
use vstd::string::*;
use crate::dap::{Capabilities, OutputEvent, OutputEventCategory, SteppingGranularity};
use crate::ids::{DebugAdapterClientId, ThreadStatus};
use crate::text::{decimal, decimal_string};

verus! {

/// Whether an event of `client_id` about `thread_id` is none of the item's
/// business: it concerns another thread or another client.
pub fn should_skip_event(
    item_client: DebugAdapterClientId,
    item_thread: u64,
    client_id: DebugAdapterClientId,
    thread_id: u64,
) -> (r: bool)
    ensures
        r == (thread_id != item_thread || client_id != item_client),
{
    thread_id != item_thread || client_id != item_client
}

/// What `str::trim_end` leaves of a text: the text without its trailing
/// white space.
pub open spec fn trimmed_end(s: Seq<char>) -> Seq<char> {
    crate::text::without_trailing_space(s)
}

/// The text without its trailing white space, as `str::trim_end` gives it.
pub(crate) fn trim_end(s: &str) -> (r: String)
    ensures
        r@ == trimmed_end(s@),
{
    let end = crate::text::trailing_space_start(s);
    String::from_str(s.substring_char(0, end))
}

/// Where a piece of adapter output goes.
#[derive(Clone, Debug, PartialEq)]
pub enum OutputTarget {
    /// A message for the console.
    Console(String),
    /// A line appended to the output editor.
    OutputEditor(String),
    /// Output that is not shown.
    Ignored,
}

/// Where an output event goes: console output (the default category) to
/// the console, telemetry nowhere, anything else to the output editor as
/// one line, without its trailing whitespace.
pub open spec fn output_target(category: Option<OutputEventCategory>, output: Seq<char>) -> Option<(bool, Seq<char>)> {
    match category {
        None | Some(OutputEventCategory::Console) => Some((true, output)),
        Some(OutputEventCategory::Telemetry) => None,
        _ => Some((false, trimmed_end(output) + "\n"@)),
    }
}

/// Where output goes: output of no category or of the console category
/// goes to the console as it is; only telemetry is dropped; every other
/// category (important, stdout, stderr, unknown) goes to the output editor
/// as one line, without its trailing white space.
pub proof fn lemma_output_routing(category: Option<OutputEventCategory>, output: Seq<char>)
    ensures
        output_target(category, output) is None <==> category == Some(OutputEventCategory::Telemetry),
        category is None ==> output_target(category, output) == Some((true, output)),
        category == Some(OutputEventCategory::Console) ==> output_target(category, output) == Some((true, output)),
        category matches Some(c) && c != OutputEventCategory::Console && c != OutputEventCategory::Telemetry
            ==> output_target(category, output) == Some((false, trimmed_end(output) + "\n"@)),
        category == Some(OutputEventCategory::Important) ==> output_target(category, output) == Some(
            (false, trimmed_end(output) + "\n"@),
        ),
{
}

/// Routes an output event.
pub fn route_output(event: &OutputEvent) -> (r: OutputTarget)
    ensures
        match output_target(event.category, event.output@) {
            Some((true, text)) => r matches OutputTarget::Console(t) && t@ == text,
            Some((false, text)) => r matches OutputTarget::OutputEditor(t) && t@ == text,
            None => r is Ignored,
        },
{
    match event.category {
        None | Some(OutputEventCategory::Console) => OutputTarget::Console(event.output.clone()),
        Some(OutputEventCategory::Telemetry) => OutputTarget::Ignored,
        _ => {
            let mut line = trim_end(event.output.as_str());
            line.append("\n");
            OutputTarget::OutputEditor(line)
        },
    }
}

/// The status of each thread of a client, by thread id.
pub struct ThreadStatuses {
    pub threads: Vec<(u64, ThreadStatus)>,
}

/// The statuses after a thread was resumed, when its status did not change
/// meanwhile: every thread runs when the adapter said all threads continued,
/// else the resumed thread runs.
pub open spec fn after_resume(
    threads: Seq<(u64, ThreadStatus)>,
    thread_id: u64,
    all_threads_continued: Option<bool>,
) -> Seq<(u64, ThreadStatus)> {
    if all_threads_continued == Some(true) {
        threads.map_values(|t: (u64, ThreadStatus)| (t.0, ThreadStatus::Running))
    } else {
        threads.map_values(
            |t: (u64, ThreadStatus)|
                if t.0 == thread_id {
                    (t.0, ThreadStatus::Running)
                } else {
                    t
                },
        )
    }
}

impl ThreadStatuses {
    /// The status of a thread; a thread the client does not know is running.
    pub fn status(&self, thread_id: u64) -> (r: ThreadStatus)
        ensures
            (exists|i: int| 0 <= i < self.threads@.len() && self.threads@[i].0 == thread_id) ==> exists|i: int|
                0 <= i < self.threads@.len() && self.threads@[i].0 == thread_id && self.threads@[i].1 == r
                    && forall|j: int| 0 <= j < i ==> self.threads@[j].0 != thread_id,
            !(exists|i: int| 0 <= i < self.threads@.len() && self.threads@[i].0 == thread_id) ==> r
                == ThreadStatus::Running,
    {
        let mut i: usize = 0;
        while i < self.threads.len()
            invariant
                i <= self.threads.len(),
                forall|j: int| 0 <= j < i ==> self.threads@[j].0 != thread_id,
            decreases self.threads.len() - i,
        {
            if self.threads[i].0 == thread_id {
                return self.threads[i].1;
            }
            i += 1;
        }
        ThreadStatus::Running
    }

    /// Marks threads running after a resume of `thread_id`, unless its status
    /// changed since `previous_status` was read; says whether it did mark.
    pub fn update_after_resume(
        &mut self,
        thread_id: u64,
        previous_status: ThreadStatus,
        current_status: ThreadStatus,
        all_threads_continued: Option<bool>,
    ) -> (marked: bool)
        ensures
            marked == (previous_status == current_status),
            marked ==> final(self).threads@ == after_resume(old(self).threads@, thread_id, all_threads_continued),
            !marked ==> final(self).threads@ == old(self).threads@,
    {
        if previous_status != current_status {
            return false;
        }
        let all = match all_threads_continued {
            Some(b) => b,
            None => false,
        };
        let ghost before = self.threads@;
        let mut i: usize = 0;
        while i < self.threads.len()
            invariant
                self.threads@.len() == before.len(),
                i <= self.threads@.len(),
                all == (all_threads_continued == Some(true)),
                forall|j: int| 0 <= j < i ==> #[trigger] self.threads@[j] == after_resume(before, thread_id, all_threads_continued)[j],
                forall|j: int| i <= j < self.threads@.len() ==> #[trigger] self.threads@[j] == before[j],
            decreases self.threads.len() - i,
        {
            let id = self.threads[i].0;
            if all || id == thread_id {
                self.threads.set(i, (id, ThreadStatus::Running));
            }
            i += 1;
        }
        assert(self.threads@ =~= after_resume(before, thread_id, all_threads_continued));
        true
    }
}

/// The title of an item's tab: the adapter's id and the thread.
pub fn tab_content(adapter_id: &String, thread_id: u64) -> (r: String)
    ensures
        r@ == adapter_id@ + " - Thread "@ + decimal(thread_id as nat),
{
    let mut out = adapter_id.clone();
    out.append(" - Thread ");
    out.append(decimal_string(thread_id).as_str());
    out
}

/// The name of a thread status.
pub open spec fn status_name(status: ThreadStatus) -> Seq<char> {
    match status {
        ThreadStatus::Running => "Running"@,
        ThreadStatus::Stopped => "Stopped"@,
        ThreadStatus::Exited => "Exited"@,
        ThreadStatus::Ended => "Ended"@,
    }
}

/// The tooltip of an item's tab: the adapter's id, the thread and its
/// status.
pub fn tab_tooltip_text(adapter_id: &String, thread_id: u64, status: ThreadStatus) -> (r: String)
    ensures
        r@ == adapter_id@ + " Thread "@ + decimal(thread_id as nat) + " - "@ + status_name(status),
{
    let mut out = adapter_id.clone();
    out.append(" Thread ");
    out.append(decimal_string(thread_id).as_str());
    out.append(" - ");
    let name = match status {
        ThreadStatus::Running => "Running",
        ThreadStatus::Stopped => "Stopped",
        ThreadStatus::Exited => "Exited",
        ThreadStatus::Ended => "Ended",
    };
    out.append(name);
    out
}

/// The actions of a debug panel item's toolbar.
#[derive(Clone, Copy, Debug, PartialEq, Eq, Structural)]
pub enum DebugPanelItemActionKind {
    Continue,
    StepOver,
    StepIn,
    StepOut,
    Restart,
    Pause,
    Stop,
    Disconnect,
}

impl Default for DebugPanelItemActionKind {
    fn default() -> (r: Self)
        ensures
            r == DebugPanelItemActionKind::Continue,
    {
        DebugPanelItemActionKind::Continue
    }
}

/// An action a debug panel item handles even when its panel has no focus.
#[derive(Clone, Copy, Debug, PartialEq, Eq, Structural)]
pub struct DebugItemAction {
    pub kind: DebugPanelItemActionKind,
}

impl Default for DebugItemAction {
    fn default() -> (r: Self)
        ensures
            r.kind == DebugPanelItemActionKind::Continue,
    {
        DebugItemAction { kind: DebugPanelItemActionKind::Continue }
    }
}

/// What an item asks of its client.
#[derive(Debug, PartialEq)]
pub enum ItemRequest {
    /// Resume the thread.
    Resume { thread_id: u64 },
    StepOver { thread_id: u64, granularity: SteppingGranularity },
    StepIn { thread_id: u64, granularity: SteppingGranularity },
    StepOut { thread_id: u64, granularity: SteppingGranularity },
    /// Restart the debuggee.
    Restart,
    Pause { thread_id: u64 },
    TerminateThreads { thread_ids: Vec<u64> },
    /// Disconnect, terminating the debuggee.
    Disconnect { restart: Option<bool>, terminate_debuggee: Option<bool>, suspend_debuggee: Option<bool> },
}

/// What handling an action does: the request sent for the item's thread,
/// and whether the thread's status is updated once the client answered.
#[derive(Debug, PartialEq)]
pub struct ItemDispatch {
    pub request: ItemRequest,
    pub update_thread_state: bool,
}

/// Whether an action resumes the thread, so that its status is updated
/// once the client answered: continuing and stepping do.
pub open spec fn resumes(kind: DebugPanelItemActionKind) -> bool {
    match kind {
        DebugPanelItemActionKind::Continue | DebugPanelItemActionKind::StepIn | DebugPanelItemActionKind::StepOut
        | DebugPanelItemActionKind::StepOver => true,
        _ => false,
    }
}

/// Handles a toolbar action for the item's thread.
pub fn workspace_action_handler(action: &DebugItemAction, thread_id: u64, granularity: SteppingGranularity) -> (r: ItemDispatch)
    ensures
        r.update_thread_state == resumes(action.kind),
        match action.kind {
            DebugPanelItemActionKind::Stop => r.request matches ItemRequest::TerminateThreads { thread_ids }
                && thread_ids@ == seq![thread_id],
            DebugPanelItemActionKind::Continue => r.request == ItemRequest::Resume { thread_id },
            DebugPanelItemActionKind::StepIn => r.request == ItemRequest::StepIn { thread_id, granularity },
            DebugPanelItemActionKind::StepOut => r.request == ItemRequest::StepOut { thread_id, granularity },
            DebugPanelItemActionKind::StepOver => r.request == ItemRequest::StepOver { thread_id, granularity },
            DebugPanelItemActionKind::Pause => r.request == ItemRequest::Pause { thread_id },
            DebugPanelItemActionKind::Disconnect => r.request == ItemRequest::Disconnect {
                restart: None,
                terminate_debuggee: Some(true),
                suspend_debuggee: None,
            },
            DebugPanelItemActionKind::Restart => r.request == ItemRequest::Restart,
        },
{
    let (request, update_thread_state) = match action.kind {
        DebugPanelItemActionKind::Stop => {
            let mut thread_ids: Vec<u64> = Vec::new();
            thread_ids.push(thread_id);
            (ItemRequest::TerminateThreads { thread_ids }, false)
        },
        DebugPanelItemActionKind::Continue => (ItemRequest::Resume { thread_id }, true),
        DebugPanelItemActionKind::StepIn => (ItemRequest::StepIn { thread_id, granularity }, true),
        DebugPanelItemActionKind::StepOut => (ItemRequest::StepOut { thread_id, granularity }, true),
        DebugPanelItemActionKind::StepOver => (ItemRequest::StepOver { thread_id, granularity }, true),
        DebugPanelItemActionKind::Pause => (ItemRequest::Pause { thread_id }, false),
        DebugPanelItemActionKind::Disconnect => (
            ItemRequest::Disconnect { restart: None, terminate_debuggee: Some(true), suspend_debuggee: None },
            false,
        ),
        DebugPanelItemActionKind::Restart => (ItemRequest::Restart, false),
    };
    ItemDispatch { request, update_thread_state }
}

/// What a stopped event of the item's thread does: the frame list is reset
/// to the thread's frames and the top frame, if any, is selected. `None`
/// when the event concerns another thread or client; an event without a
/// thread counts as one about thread zero.
pub fn on_stopped_event(
    item_client: DebugAdapterClientId,
    item_thread: u64,
    client_id: DebugAdapterClientId,
    event_thread: Option<u64>,
    frame_ids: &Vec<u64>,
) -> (r: Option<(usize, Option<u64>)>)
    ensures
        ({
            let thread = match event_thread {
                Some(t) => t,
                None => 0,
            };
            if thread != item_thread || client_id != item_client {
                r is None
            } else {
                r == Some((
                    frame_ids.len(),
                    if frame_ids.len() > 0 {
                        Some(frame_ids@[0])
                    } else {
                        None
                    },
                ))
            }
        }),
{
    let thread = match event_thread {
        Some(t) => t,
        None => 0,
    };
    if should_skip_event(item_client, item_thread, client_id, thread) {
        return None;
    }
    let first = if frame_ids.len() > 0 {
        Some(frame_ids[0])
    } else {
        None
    };
    Some((frame_ids.len(), first))
}

/// A button of an item's toolbar.
#[derive(Debug, PartialEq)]
pub struct ToolbarButton {
    /// The action the button dispatches.
    pub kind: DebugPanelItemActionKind,
    /// The id of the button's element.
    pub id: String,
    pub tooltip: String,
    pub disabled: bool,
}

/// The id of a toolbar button's element.
pub open spec fn button_id(kind: DebugPanelItemActionKind) -> Seq<char> {
    match kind {
        DebugPanelItemActionKind::Continue => "debug-continue"@,
        DebugPanelItemActionKind::StepOver => "debug-step-over"@,
        DebugPanelItemActionKind::StepIn => "debug-step-in"@,
        DebugPanelItemActionKind::StepOut => "debug-step-out"@,
        DebugPanelItemActionKind::Restart => "debug-restart"@,
        DebugPanelItemActionKind::Pause => "debug-pause"@,
        DebugPanelItemActionKind::Stop => "debug-stop"@,
        DebugPanelItemActionKind::Disconnect => "debug-disconnect"@,
    }
}

/// The tooltip of a toolbar button.
pub open spec fn button_tooltip(kind: DebugPanelItemActionKind) -> Seq<char> {
    match kind {
        DebugPanelItemActionKind::Continue => "Continue program"@,
        DebugPanelItemActionKind::StepOver => "Step over"@,
        DebugPanelItemActionKind::StepIn => "Step in"@,
        DebugPanelItemActionKind::StepOut => "Step out"@,
        DebugPanelItemActionKind::Restart => "Restart"@,
        DebugPanelItemActionKind::Pause => "Pause program"@,
        DebugPanelItemActionKind::Stop => "Stop"@,
        DebugPanelItemActionKind::Disconnect => "Disconnect"@,
    }
}

/// The toolbar of an item whose thread has `status`: pause while the thread
/// runs, continue otherwise; then step over, in and out, restart, stop and
/// disconnect. Continuing and stepping need a stopped thread; restarting
/// needs an adapter that can restart and a thread that runs or stopped;
/// stopping needs a thread that runs or stopped; disconnecting needs a
/// thread that has not exited or ended. Each button is given as its action
/// and whether it is disabled.
pub open spec fn toolbar(status: ThreadStatus, supports_restart: bool) -> Seq<(DebugPanelItemActionKind, bool)> {
    let stopped = status == ThreadStatus::Stopped;
    let live = status == ThreadStatus::Stopped || status == ThreadStatus::Running;
    seq![
        if status == ThreadStatus::Running {
            (DebugPanelItemActionKind::Pause, false)
        } else {
            (DebugPanelItemActionKind::Continue, !stopped)
        },
        (DebugPanelItemActionKind::StepOver, !stopped),
        (DebugPanelItemActionKind::StepIn, !stopped),
        (DebugPanelItemActionKind::StepOut, !stopped),
        (DebugPanelItemActionKind::Restart, !supports_restart || !live),
        (DebugPanelItemActionKind::Stop, !live),
        (DebugPanelItemActionKind::Disconnect, status == ThreadStatus::Exited || status == ThreadStatus::Ended),
    ]
}

/// What the toolbar offers for each thread status. Pause is offered while
/// the thread runs, continue otherwise; continuing and stepping are enabled
/// exactly when the thread stopped; restarting needs an adapter that can
/// restart and a thread that runs or stopped; stopping is enabled exactly
/// when the thread runs or stopped, and disconnecting exactly when it has
/// neither exited nor ended, which for a thread's four states is the same.
pub proof fn lemma_toolbar(status: ThreadStatus, supports_restart: bool)
    ensures
        toolbar(status, supports_restart).len() == 7,
        toolbar(status, supports_restart)[0].0 == (if status == ThreadStatus::Running {
            DebugPanelItemActionKind::Pause
        } else {
            DebugPanelItemActionKind::Continue
        }),
        status == ThreadStatus::Running ==> !toolbar(status, supports_restart)[0].1,
        status != ThreadStatus::Running ==> (toolbar(status, supports_restart)[0].1 <==> status != ThreadStatus::Stopped),
        toolbar(status, supports_restart)[1] == (DebugPanelItemActionKind::StepOver, status != ThreadStatus::Stopped),
        toolbar(status, supports_restart)[2] == (DebugPanelItemActionKind::StepIn, status != ThreadStatus::Stopped),
        toolbar(status, supports_restart)[3] == (DebugPanelItemActionKind::StepOut, status != ThreadStatus::Stopped),
        toolbar(status, supports_restart)[4].0 == DebugPanelItemActionKind::Restart,
        !toolbar(status, supports_restart)[4].1 <==> supports_restart && (status == ThreadStatus::Running || status
            == ThreadStatus::Stopped),
        toolbar(status, supports_restart)[5].0 == DebugPanelItemActionKind::Stop,
        !toolbar(status, supports_restart)[5].1 <==> (status == ThreadStatus::Running || status
            == ThreadStatus::Stopped),
        toolbar(status, supports_restart)[6].0 == DebugPanelItemActionKind::Disconnect,
        toolbar(status, supports_restart)[6].1 <==> (status == ThreadStatus::Exited || status == ThreadStatus::Ended),
        toolbar(status, supports_restart)[6].1 == toolbar(status, supports_restart)[5].1,
{
}

fn button(kind: DebugPanelItemActionKind, disabled: bool) -> (r: ToolbarButton)
    ensures
        r.kind == kind,
        r.id@ == button_id(kind),
        r.tooltip@ == button_tooltip(kind),
        r.disabled == disabled,
{
    let (id, tooltip) = match kind {
        DebugPanelItemActionKind::Continue => ("debug-continue", "Continue program"),
        DebugPanelItemActionKind::StepOver => ("debug-step-over", "Step over"),
        DebugPanelItemActionKind::StepIn => ("debug-step-in", "Step in"),
        DebugPanelItemActionKind::StepOut => ("debug-step-out", "Step out"),
        DebugPanelItemActionKind::Restart => ("debug-restart", "Restart"),
        DebugPanelItemActionKind::Pause => ("debug-pause", "Pause program"),
        DebugPanelItemActionKind::Stop => ("debug-stop", "Stop"),
        DebugPanelItemActionKind::Disconnect => ("debug-disconnect", "Disconnect"),
    };
    ToolbarButton { kind, id: String::from_str(id), tooltip: String::from_str(tooltip), disabled }
}

/// The toolbar an item shows, from its thread's status and what its adapter
/// supports.
pub fn toolbar_buttons(status: ThreadStatus, capabilities: &Capabilities) -> (r: Vec<ToolbarButton>)
    ensures
        r@.len() == toolbar(status, capabilities.supports_restart_request == Some(true)).len(),
        forall|i: int| 0 <= i < r@.len() ==> {
            let (kind, disabled) = toolbar(status, capabilities.supports_restart_request == Some(true))[i];
            &&& (#[trigger] r@[i]).kind == kind
            &&& r@[i].disabled == disabled
            &&& r@[i].id@ == button_id(kind)
            &&& r@[i].tooltip@ == button_tooltip(kind)
        },
{
    let supports_restart = match capabilities.supports_restart_request {
        Some(b) => b,
        None => false,
    };
    let stopped = status == ThreadStatus::Stopped;
    let live = status == ThreadStatus::Stopped || status == ThreadStatus::Running;
    let mut out: Vec<ToolbarButton> = Vec::new();
    if status == ThreadStatus::Running {
        out.push(button(DebugPanelItemActionKind::Pause, false));
    } else {
        out.push(button(DebugPanelItemActionKind::Continue, !stopped));
    }
    out.push(button(DebugPanelItemActionKind::StepOver, !stopped));
    out.push(button(DebugPanelItemActionKind::StepIn, !stopped));
    out.push(button(DebugPanelItemActionKind::StepOut, !stopped));
    out.push(button(DebugPanelItemActionKind::Restart, !supports_restart || !live));
    out.push(button(DebugPanelItemActionKind::Stop, !live));
    out.push(
        button(DebugPanelItemActionKind::Disconnect, status == ThreadStatus::Exited || status == ThreadStatus::Ended),
    );
    out
}

/// The tabs under an item's frames.
#[derive(Clone, Copy, Debug, PartialEq, Eq, Structural)]
pub enum ThreadItem {
    Variables,
    Console,
    Output,
}

/// Which tab an item shows, and each tab's label; a click on a tab shows it.
pub struct ThreadItemTabs {
    pub active: ThreadItem,
}

impl ThreadItemTabs {
    /// The variables are shown first.
    pub fn new() -> (r: Self)
        ensures
            r.active == ThreadItem::Variables,
    {
        ThreadItemTabs { active: ThreadItem::Variables }
    }

    /// The tabs in order, each with its label and whether it is the shown
    /// one, which is underlined.
    pub fn tabs(&self) -> (r: Vec<(ThreadItem, String, bool)>)
        ensures
            r@.len() == 3,
            r@[0].0 == ThreadItem::Variables && r@[0].1@ == "Variables"@,
            r@[1].0 == ThreadItem::Console && r@[1].1@ == "Console"@,
            r@[2].0 == ThreadItem::Output && r@[2].1@ == "Output"@,
            forall|i: int| 0 <= i < 3 ==> (#[trigger] r@[i]).2 == (r@[i].0 == self.active),
    {
        let mut out: Vec<(ThreadItem, String, bool)> = Vec::new();
        out.push((ThreadItem::Variables, String::from_str("Variables"), self.active == ThreadItem::Variables));
        out.push((ThreadItem::Console, String::from_str("Console"), self.active == ThreadItem::Console));
        out.push((ThreadItem::Output, String::from_str("Output"), self.active == ThreadItem::Output));
        out
    }

    /// Shows the tab clicked.
    pub fn click(&mut self, item: ThreadItem)
        ensures
            final(self).active == item,
    {
        self.active = item;
    }
}

} // verus!
