use debugger::dap::{Capabilities, SteppingGranularity};
use debugger::ids::{DebugAdapterClientId, ThreadStatus};
use debugger::panel_item::DebugPanelItemActionKind as K;
use debugger::panel_item::{
    on_stopped_event, toolbar_buttons, workspace_action_handler, DebugItemAction, DebugPanelItemActionKind,
    ItemDispatch, ItemRequest, ThreadItem, ThreadItemTabs, ToolbarButton,
};

fn dispatch(kind: DebugPanelItemActionKind) -> ItemDispatch {
    workspace_action_handler(&DebugItemAction { kind }, 3, SteppingGranularity::Line)
}

#[test]
fn actions_resume_step_or_end_the_thread() {
    assert_eq!(
        dispatch(DebugPanelItemActionKind::Continue),
        ItemDispatch { request: ItemRequest::Resume { thread_id: 3 }, update_thread_state: true }
    );
    assert_eq!(
        dispatch(DebugPanelItemActionKind::StepOver),
        ItemDispatch {
            request: ItemRequest::StepOver { thread_id: 3, granularity: SteppingGranularity::Line },
            update_thread_state: true
        }
    );
    assert_eq!(
        dispatch(DebugPanelItemActionKind::StepIn).request,
        ItemRequest::StepIn { thread_id: 3, granularity: SteppingGranularity::Line }
    );
    assert_eq!(
        dispatch(DebugPanelItemActionKind::StepOut).request,
        ItemRequest::StepOut { thread_id: 3, granularity: SteppingGranularity::Line }
    );
    assert_eq!(
        dispatch(DebugPanelItemActionKind::Stop),
        ItemDispatch { request: ItemRequest::TerminateThreads { thread_ids: vec![3] }, update_thread_state: false }
    );
    assert_eq!(
        dispatch(DebugPanelItemActionKind::Pause),
        ItemDispatch { request: ItemRequest::Pause { thread_id: 3 }, update_thread_state: false }
    );
    assert_eq!(
        dispatch(DebugPanelItemActionKind::Disconnect).request,
        ItemRequest::Disconnect { restart: None, terminate_debuggee: Some(true), suspend_debuggee: None }
    );
    assert_eq!(
        dispatch(DebugPanelItemActionKind::Restart),
        ItemDispatch { request: ItemRequest::Restart, update_thread_state: false }
    );
}

#[test]
fn stopped_events_select_the_top_frame_of_the_item_thread() {
    let client = DebugAdapterClientId(1);
    assert_eq!(on_stopped_event(client, 4, client, Some(4), &vec![40, 41]), Some((2, Some(40))));
    assert_eq!(on_stopped_event(client, 4, client, Some(4), &vec![]), Some((0, None)));
    assert_eq!(on_stopped_event(client, 4, client, Some(5), &vec![40]), None);
    assert_eq!(on_stopped_event(client, 4, DebugAdapterClientId(2), Some(4), &vec![40]), None);
    // An event that names no thread is taken as one about thread zero.
    assert_eq!(on_stopped_event(client, 0, client, None, &vec![9]), Some((1, Some(9))));
    assert_eq!(on_stopped_event(client, 4, client, None, &vec![9]), None);
}

fn shown(buttons: &[ToolbarButton]) -> Vec<(DebugPanelItemActionKind, bool)> {
    buttons.iter().map(|b| (b.kind, b.disabled)).collect()
}

#[test]
fn toolbar_follows_the_thread_status() {
    let mut restartable = Capabilities::default();
    restartable.supports_restart_request = Some(true);

    let stopped = toolbar_buttons(ThreadStatus::Stopped, &restartable);
    assert_eq!(
        shown(&stopped),
        vec![(K::Continue, false), (K::StepOver, false), (K::StepIn, false), (K::StepOut, false), (K::Restart, false), (K::Stop, false), (K::Disconnect, false)]
    );
    assert_eq!(stopped[0].id, "debug-continue");
    assert_eq!(stopped[0].tooltip, "Continue program");
    assert_eq!(stopped[6].id, "debug-disconnect");

    let running = toolbar_buttons(ThreadStatus::Running, &restartable);
    assert_eq!(
        shown(&running),
        vec![(K::Pause, false), (K::StepOver, true), (K::StepIn, true), (K::StepOut, true), (K::Restart, false), (K::Stop, false), (K::Disconnect, false)]
    );
    assert_eq!(running[0].tooltip, "Pause program");

    let ended = toolbar_buttons(ThreadStatus::Ended, &Capabilities::default());
    assert_eq!(
        shown(&ended),
        vec![(K::Continue, true), (K::StepOver, true), (K::StepIn, true), (K::StepOut, true), (K::Restart, true), (K::Stop, true), (K::Disconnect, true)]
    );
    // Without restart support, restarting stays disabled on a stopped thread.
    assert!(toolbar_buttons(ThreadStatus::Stopped, &Capabilities::default())[4].disabled);
    assert_eq!(DebugItemAction::default().kind, K::Continue);
}

#[test]
fn tabs_show_the_clicked_item() {
    let mut tabs = ThreadItemTabs::new();
    let labels: Vec<(ThreadItem, String, bool)> = tabs.tabs();
    assert_eq!(
        labels,
        vec![
            (ThreadItem::Variables, "Variables".to_string(), true),
            (ThreadItem::Console, "Console".to_string(), false),
            (ThreadItem::Output, "Output".to_string(), false),
        ]
    );
    tabs.click(ThreadItem::Output);
    assert_eq!(tabs.tabs().iter().map(|t| t.2).collect::<Vec<_>>(), vec![false, false, true]);
}
