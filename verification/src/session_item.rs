//! The debug session shown in a tab of the debug panel: inert until a
//! configuration is spawned, then starting, and at last running or failed.
use vstd::prelude::*;
use crate::ids::DebugSessionId;

verus! {

/// Where a session of the panel stands.
#[derive(Clone, Copy, Debug, PartialEq, Eq, Structural)]
pub enum DebugSessionState {
    /// Waiting for a configuration to be spawned.
    Inert,
    /// The session with this id is being started.
    Starting(DebugSessionId),
    /// Starting the session failed.
    Failed,
    /// The session with this id runs.
    Running(DebugSessionId),
}

/// What a starting session reports.
#[derive(Clone, Copy, Debug, PartialEq, Eq, Structural)]
pub enum StartingEvent {
    /// The session started.
    Finished,
    /// The session could not be started.
    Failed,
}

/// What the tab of a session shows: its label, whether it spins as a
/// starting session does, and whether it is shown as an error.
#[derive(Clone, Copy, Debug)]
pub struct TabLabel {
    pub label: &'static str,
    pub is_starting: bool,
    pub is_error: bool,
}

/// Whether opening a session keeps the one already open.
#[derive(Clone, Copy, Debug, PartialEq, Eq, Structural)]
pub enum Dedup {
    KeepExisting,
}

/// A session of the debug panel.
#[derive(Clone, Copy, Debug, PartialEq, Eq, Structural)]
pub struct DebugSession {
    pub remote_id: Option<u64>,
    pub mode: DebugSessionState,
}

/// The id of the session a state stands for: set while starting or
/// running, and only then.
pub open spec fn state_session_id(mode: DebugSessionState) -> Option<DebugSessionId> {
    match mode {
        DebugSessionState::Starting(id) => Some(id),
        DebugSessionState::Running(id) => Some(id),
        _ => None,
    }
}

/// The label of a state's tab.
pub open spec fn state_label(mode: DebugSessionState) -> Seq<char> {
    match mode {
        DebugSessionState::Inert => "New Session"@,
        DebugSessionState::Starting(_) => "Starting"@,
        DebugSessionState::Failed => "Failed"@,
        DebugSessionState::Running(_) => "Running"@,
    }
}

impl DebugSession {
    /// A session waiting for a configuration.
    pub fn inert() -> (r: Self)
        ensures
            r.mode == DebugSessionState::Inert,
            r.remote_id is None,
    {
        DebugSession { remote_id: None, mode: DebugSessionState::Inert }
    }

    /// A session that already runs.
    pub fn running(session_id: DebugSessionId) -> (r: Self)
        ensures
            r.mode == DebugSessionState::Running(session_id),
            r.remote_id is None,
    {
        DebugSession { remote_id: None, mode: DebugSessionState::Running(session_id) }
    }

    /// The id of the session, while it is starting or running.
    pub fn session_id(&self) -> (r: Option<DebugSessionId>)
        ensures
            r == state_session_id(self.mode),
    {
        match self.mode {
            DebugSessionState::Starting(id) => Some(id),
            DebugSessionState::Running(id) => Some(id),
            _ => None,
        }
    }

    /// A configuration was spawned as the session `new_session_id`: an inert
    /// session starts it; a session past that point is left as it is.
    pub fn on_inert_event(&mut self, new_session_id: DebugSessionId)
        ensures
            old(self).mode == DebugSessionState::Inert ==> final(self).mode == DebugSessionState::Starting(
                new_session_id,
            ),
            old(self).mode != DebugSessionState::Inert ==> final(self).mode == old(self).mode,
            final(self).remote_id == old(self).remote_id,
    {
        if self.mode == DebugSessionState::Inert {
            self.mode = DebugSessionState::Starting(new_session_id);
        }
    }

    /// What the starting session reported: it runs under its id once
    /// finished, or has failed.
    pub fn on_starting_event(&mut self, event: StartingEvent)
        ensures
            old(self).mode matches DebugSessionState::Starting(id) ==> final(self).mode == (match event {
                StartingEvent::Finished => DebugSessionState::Running(id),
                StartingEvent::Failed => DebugSessionState::Failed,
            }),
            !(old(self).mode is Starting) ==> final(self).mode == old(self).mode,
            final(self).remote_id == old(self).remote_id,
    {
        if let DebugSessionState::Starting(id) = self.mode {
            self.mode = match event {
                StartingEvent::Finished => DebugSessionState::Running(id),
                StartingEvent::Failed => DebugSessionState::Failed,
            };
        }
    }

    /// The session to shut down, when it runs.
    pub fn shutdown(&self) -> (r: Option<DebugSessionId>)
        ensures
            r == (match self.mode {
                DebugSessionState::Running(id) => Some(id),
                _ => None,
            }),
    {
        match self.mode {
            DebugSessionState::Running(id) => Some(id),
            _ => None,
        }
    }

    /// What the session's tab shows.
    pub fn tab_content(&self) -> (r: TabLabel)
        ensures
            r.label@ == state_label(self.mode),
            r.is_starting == (self.mode is Starting),
            r.is_error == (self.mode is Failed),
    {
        let label = match self.mode {
            DebugSessionState::Inert => "New Session",
            DebugSessionState::Starting(_) => "Starting",
            DebugSessionState::Failed => "Failed",
            DebugSessionState::Running(_) => "Running",
        };
        TabLabel {
            label,
            is_starting: matches!(self.mode, DebugSessionState::Starting(_)),
            is_error: matches!(self.mode, DebugSessionState::Failed),
        }
    }

    /// Opening this session keeps `existing` when both stand for the same
    /// session, or for none.
    pub fn dedup(&self, existing: &DebugSession) -> (r: Option<Dedup>)
        ensures
            r == (if state_session_id(existing.mode) == state_session_id(self.mode) {
                Some(Dedup::KeepExisting)
            } else {
                None
            }),
    {
        if existing.session_id() == self.session_id() {
            Some(Dedup::KeepExisting)
        } else {
            None
        }
    }
}

/// A session item that was spawned and then reported runs the session it
/// was spawned as, or has failed; it has an id exactly when it runs.
pub proof fn lemma_spawned_session_lifecycle(new_session_id: DebugSessionId, event: StartingEvent)
    ensures
        ({
            let starting = DebugSessionState::Starting(new_session_id);
            let after = match event {
                StartingEvent::Finished => DebugSessionState::Running(new_session_id),
                StartingEvent::Failed => DebugSessionState::Failed,
            };
            &&& state_session_id(starting) == Some(new_session_id)
            &&& (state_session_id(after) is Some <==> event == StartingEvent::Finished)
            &&& (state_session_id(after) is Some ==> state_session_id(after) == Some(new_session_id))
        }),
{
}

} // verus!
