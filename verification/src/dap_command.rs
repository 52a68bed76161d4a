//! The requests the debugger sends to a debug adapter, how each is forwarded
//! by a collaborator over the wire, and which adapter capability each needs.
use vstd::prelude::*;
use crate::dap;
use crate::ids::DebugSessionId;
use crate::proto;
use crate::proto_conversions::{ProtoConversion, granularity_to_proto};

verus! {

/// A request to a debug adapter: whether the adapter supports it, and the
/// arguments it is sent with.
pub trait LocalDapCommand: Sized {
    type Arguments;

    /// Whether an adapter with these capabilities supports the request.
    spec fn supported(capabilities: dap::CapabilitiesView) -> bool;

    fn is_supported(capabilities: &dap::Capabilities) -> (r: bool)
        ensures
            r == Self::supported(capabilities@),
    ;

    fn to_dap(&self) -> Self::Arguments;
}

/// A request to a debug adapter that a collaborator forwards to the host over
/// the wire.
pub trait DapCommand: LocalDapCommand {
    type ProtoRequest;

    fn client_id_from_proto(request: &Self::ProtoRequest) -> DebugSessionId;

    fn from_proto(request: &Self::ProtoRequest) -> Self;

    fn to_proto(&self, debug_client_id: DebugSessionId, upstream_project_id: u64) -> Self::ProtoRequest;
}

/// Whether an optional capability flag is set; a missing flag is unset.
pub open spec fn flag_set(flag: Option<bool>) -> bool {
    flag == Some(true)
}

fn flag_set_exec(flag: Option<bool>) -> (r: bool)
    ensures
        r == flag_set(flag),
{
    match flag {
        Some(b) => b,
        None => false,
    }
}

/// The wire number of an optional stepping granularity.
pub open spec fn granularity_field(g: Option<dap::SteppingGranularity>) -> Option<i32> {
    match g {
        Some(g) => Some(granularity_to_proto(g).spec_to_i32()),
        None => None,
    }
}

/// The stepping granularity a wire number stands for: the line and
/// instruction numbers stand for those units, any other number for a
/// statement.
pub open spec fn granularity_from_field(n: i32) -> dap::SteppingGranularity {
    if n == 1 {
        dap::SteppingGranularity::Line
    } else if n == 2 {
        dap::SteppingGranularity::Instruction
    } else {
        dap::SteppingGranularity::Statement
    }
}

fn granularity_field_exec(g: Option<dap::SteppingGranularity>) -> (r: Option<i32>)
    ensures
        r == granularity_field(g),
{
    match g {
        Some(g) => Some(g.to_proto().to_i32()),
        None => None,
    }
}

/// What every step request carries: the thread, the unit and whether only
/// that thread should run.
#[derive(Clone, Copy, Debug, PartialEq, Eq, Hash, Structural)]
pub struct StepCommand {
    pub thread_id: u64,
    pub granularity: Option<dap::SteppingGranularity>,
    pub single_thread: Option<bool>,
}

/// The step a wire step request stands for.
pub open spec fn step_from_proto(message: proto::DapNextRequest) -> StepCommand {
    StepCommand {
        thread_id: message.thread_id,
        granularity: match message.granularity {
            Some(n) => Some(granularity_from_field(n)),
            None => None,
        },
        single_thread: message.single_thread,
    }
}

impl StepCommand {
    /// Reads a step from a wire step request.
    pub fn from_proto(message: proto::DapNextRequest) -> (r: Self)
        ensures
            r == step_from_proto(message),
    {
        let granularity = match message.granularity {
            Some(n) => Some(
                if n == 1 {
                    dap::SteppingGranularity::Line
                } else if n == 2 {
                    dap::SteppingGranularity::Instruction
                } else {
                    dap::SteppingGranularity::Statement
                },
            ),
            None => None,
        };
        StepCommand { thread_id: message.thread_id, granularity, single_thread: message.single_thread }
    }

    /// The step a thread makes under the adapter's capabilities: the unit is
    /// sent only when the adapter supports units, and the single-thread flag
    /// is the adapter's own.
    pub fn for_capabilities(
        thread_id: u64,
        granularity: dap::SteppingGranularity,
        capabilities: &dap::Capabilities,
    ) -> (r: Self)
        ensures
            r.thread_id == thread_id,
            r.granularity == (if flag_set(capabilities.supports_stepping_granularity) {
                Some(granularity)
            } else {
                None
            }),
            r.single_thread == capabilities.supports_single_thread_execution_requests,
    {
        let supports_granularity = flag_set_exec(capabilities.supports_stepping_granularity);
        StepCommand {
            thread_id,
            granularity: if supports_granularity {
                Some(granularity)
            } else {
                None
            },
            single_thread: capabilities.supports_single_thread_execution_requests,
        }
    }
}

/// Reading back the wire number of a stepping granularity gives it back.
pub proof fn lemma_granularity_round_trip(g: Option<dap::SteppingGranularity>)
    ensures
        match granularity_field(g) {
            Some(n) => Some(granularity_from_field(n)),
            None => None,
        } == g,
{
}

/// The wire request of a step, given the session and the host's project.
pub open spec fn step_to_proto(c: StepCommand, client: DebugSessionId, project: u64) -> proto::DapNextRequest {
    proto::DapNextRequest {
        project_id: project,
        client_id: client.0 as u64,
        thread_id: c.thread_id,
        single_thread: c.single_thread,
        granularity: granularity_field(c.granularity),
    }
}

/// A step sent over the wire is read back unchanged, and names the session it
/// was sent for.
pub proof fn lemma_step_round_trip(c: StepCommand, client: DebugSessionId, project: u64)
    ensures
        step_from_proto(step_to_proto(c, client, project)) == c,
        (step_to_proto(c, client, project).client_id as usize) == client.0,
{
    lemma_granularity_round_trip(c.granularity);
}

/// Step over one unit.
#[derive(Clone, Copy, Debug, PartialEq, Eq, Hash, Structural)]
pub struct NextCommand {
    pub inner: StepCommand,
}

impl LocalDapCommand for NextCommand {
    type Arguments = dap::NextArguments;

    open spec fn supported(capabilities: dap::CapabilitiesView) -> bool {
        true
    }

    fn is_supported(capabilities: &dap::Capabilities) -> (r: bool) {
        true
    }

    fn to_dap(&self) -> (r: dap::NextArguments)
        ensures
            r == (dap::NextArguments {
                thread_id: self.inner.thread_id,
                single_thread: self.inner.single_thread,
                granularity: self.inner.granularity,
            }),
    {
        dap::NextArguments {
            thread_id: self.inner.thread_id,
            single_thread: self.inner.single_thread,
            granularity: self.inner.granularity,
        }
    }
}

impl DapCommand for NextCommand {
    type ProtoRequest = proto::DapNextRequest;

    fn client_id_from_proto(request: &proto::DapNextRequest) -> (r: DebugSessionId)
        ensures
            r.0 == request.client_id as usize,
    {
        DebugSessionId::from_proto(request.client_id)
    }

    fn from_proto(request: &proto::DapNextRequest) -> (r: Self)
        ensures
            r.inner == step_from_proto(*request),
    {
        NextCommand { inner: StepCommand::from_proto(*request) }
    }

    fn to_proto(&self, debug_client_id: DebugSessionId, upstream_project_id: u64) -> (r: proto::DapNextRequest)
        ensures
            r == step_to_proto(self.inner, debug_client_id, upstream_project_id),
    {
        proto::DapNextRequest {
            project_id: upstream_project_id,
            client_id: debug_client_id.to_proto(),
            thread_id: self.inner.thread_id,
            single_thread: self.inner.single_thread,
            granularity: granularity_field_exec(self.inner.granularity),
        }
    }
}

/// The wire step carried by any step request's fields.
pub open spec fn as_next_request(
    project_id: u64,
    client_id: u64,
    thread_id: u64,
    single_thread: Option<bool>,
    granularity: Option<i32>,
) -> proto::DapNextRequest {
    proto::DapNextRequest { project_id, client_id, thread_id, single_thread, granularity }
}

/// Step into the call at the current position.
#[derive(Clone, Copy, Debug, PartialEq, Eq, Hash, Structural)]
pub struct StepInCommand {
    pub inner: StepCommand,
}

impl LocalDapCommand for StepInCommand {
    type Arguments = dap::StepInArguments;

    open spec fn supported(capabilities: dap::CapabilitiesView) -> bool {
        true
    }

    fn is_supported(capabilities: &dap::Capabilities) -> (r: bool) {
        true
    }

    fn to_dap(&self) -> (r: dap::StepInArguments)
        ensures
            r == (dap::StepInArguments {
                thread_id: self.inner.thread_id,
                single_thread: self.inner.single_thread,
                target_id: None,
                granularity: self.inner.granularity,
            }),
    {
        dap::StepInArguments {
            thread_id: self.inner.thread_id,
            single_thread: self.inner.single_thread,
            target_id: None,
            granularity: self.inner.granularity,
        }
    }
}

impl DapCommand for StepInCommand {
    type ProtoRequest = proto::DapStepInRequest;

    fn client_id_from_proto(request: &proto::DapStepInRequest) -> (r: DebugSessionId)
        ensures
            r.0 == request.client_id as usize,
    {
        DebugSessionId::from_proto(request.client_id)
    }

    fn from_proto(request: &proto::DapStepInRequest) -> (r: Self)
        ensures
            r.inner == step_from_proto(
                as_next_request(
                    request.project_id,
                    request.client_id,
                    request.thread_id,
                    request.single_thread,
                    request.granularity,
                ),
            ),
    {
        StepInCommand {
            inner: StepCommand::from_proto(
                proto::DapNextRequest {
                    project_id: request.project_id,
                    client_id: request.client_id,
                    thread_id: request.thread_id,
                    single_thread: request.single_thread,
                    granularity: request.granularity,
                },
            ),
        }
    }

    fn to_proto(&self, debug_client_id: DebugSessionId, upstream_project_id: u64) -> (r: proto::DapStepInRequest)
        ensures
            as_next_request(r.project_id, r.client_id, r.thread_id, r.single_thread, r.granularity)
                == step_to_proto(self.inner, debug_client_id, upstream_project_id),
            r.target_id is None,
    {
        proto::DapStepInRequest {
            project_id: upstream_project_id,
            client_id: debug_client_id.to_proto(),
            thread_id: self.inner.thread_id,
            single_thread: self.inner.single_thread,
            granularity: granularity_field_exec(self.inner.granularity),
            target_id: None,
        }
    }
}

/// Step out of the current function.
#[derive(Clone, Copy, Debug, PartialEq, Eq, Hash, Structural)]
pub struct StepOutCommand {
    pub inner: StepCommand,
}

impl LocalDapCommand for StepOutCommand {
    type Arguments = dap::StepOutArguments;

    open spec fn supported(capabilities: dap::CapabilitiesView) -> bool {
        true
    }

    fn is_supported(capabilities: &dap::Capabilities) -> (r: bool) {
        true
    }

    fn to_dap(&self) -> (r: dap::StepOutArguments)
        ensures
            r == (dap::StepOutArguments {
                thread_id: self.inner.thread_id,
                single_thread: self.inner.single_thread,
                granularity: self.inner.granularity,
            }),
    {
        dap::StepOutArguments {
            thread_id: self.inner.thread_id,
            single_thread: self.inner.single_thread,
            granularity: self.inner.granularity,
        }
    }
}

impl DapCommand for StepOutCommand {
    type ProtoRequest = proto::DapStepOutRequest;

    fn client_id_from_proto(request: &proto::DapStepOutRequest) -> (r: DebugSessionId)
        ensures
            r.0 == request.client_id as usize,
    {
        DebugSessionId::from_proto(request.client_id)
    }

    fn from_proto(request: &proto::DapStepOutRequest) -> (r: Self)
        ensures
            r.inner == step_from_proto(
                as_next_request(
                    request.project_id,
                    request.client_id,
                    request.thread_id,
                    request.single_thread,
                    request.granularity,
                ),
            ),
    {
        StepOutCommand {
            inner: StepCommand::from_proto(
                proto::DapNextRequest {
                    project_id: request.project_id,
                    client_id: request.client_id,
                    thread_id: request.thread_id,
                    single_thread: request.single_thread,
                    granularity: request.granularity,
                },
            ),
        }
    }

    fn to_proto(&self, debug_client_id: DebugSessionId, upstream_project_id: u64) -> (r: proto::DapStepOutRequest)
        ensures
            as_next_request(r.project_id, r.client_id, r.thread_id, r.single_thread, r.granularity)
                == step_to_proto(self.inner, debug_client_id, upstream_project_id),
    {
        proto::DapStepOutRequest {
            project_id: upstream_project_id,
            client_id: debug_client_id.to_proto(),
            thread_id: self.inner.thread_id,
            single_thread: self.inner.single_thread,
            granularity: granularity_field_exec(self.inner.granularity),
        }
    }
}

/// Step backwards, for adapters that can run the debuggee in reverse.
#[derive(Clone, Copy, Debug, PartialEq, Eq, Hash, Structural)]
pub struct StepBackCommand {
    pub inner: StepCommand,
}

impl LocalDapCommand for StepBackCommand {
    type Arguments = dap::StepBackArguments;

    open spec fn supported(capabilities: dap::CapabilitiesView) -> bool {
        flag_set(capabilities.supports_step_back)
    }

    fn is_supported(capabilities: &dap::Capabilities) -> (r: bool) {
        flag_set_exec(capabilities.supports_step_back)
    }

    fn to_dap(&self) -> (r: dap::StepBackArguments)
        ensures
            r == (dap::StepBackArguments {
                thread_id: self.inner.thread_id,
                single_thread: self.inner.single_thread,
                granularity: self.inner.granularity,
            }),
    {
        dap::StepBackArguments {
            thread_id: self.inner.thread_id,
            single_thread: self.inner.single_thread,
            granularity: self.inner.granularity,
        }
    }
}

impl DapCommand for StepBackCommand {
    type ProtoRequest = proto::DapStepBackRequest;

    fn client_id_from_proto(request: &proto::DapStepBackRequest) -> (r: DebugSessionId)
        ensures
            r.0 == request.client_id as usize,
    {
        DebugSessionId::from_proto(request.client_id)
    }

    fn from_proto(request: &proto::DapStepBackRequest) -> (r: Self)
        ensures
            r.inner == step_from_proto(
                as_next_request(
                    request.project_id,
                    request.client_id,
                    request.thread_id,
                    request.single_thread,
                    request.granularity,
                ),
            ),
    {
        StepBackCommand {
            inner: StepCommand::from_proto(
                proto::DapNextRequest {
                    project_id: request.project_id,
                    client_id: request.client_id,
                    thread_id: request.thread_id,
                    single_thread: request.single_thread,
                    granularity: request.granularity,
                },
            ),
        }
    }

    fn to_proto(&self, debug_client_id: DebugSessionId, upstream_project_id: u64) -> (r: proto::DapStepBackRequest)
        ensures
            as_next_request(r.project_id, r.client_id, r.thread_id, r.single_thread, r.granularity)
                == step_to_proto(self.inner, debug_client_id, upstream_project_id),
    {
        proto::DapStepBackRequest {
            project_id: upstream_project_id,
            client_id: debug_client_id.to_proto(),
            thread_id: self.inner.thread_id,
            single_thread: self.inner.single_thread,
            granularity: granularity_field_exec(self.inner.granularity),
        }
    }
}

/// Resume a thread.
#[derive(Clone, Copy, Debug, PartialEq, Eq, Hash, Structural)]
pub struct ContinueCommand {
    pub args: dap::ContinueArguments,
}

impl LocalDapCommand for ContinueCommand {
    type Arguments = dap::ContinueArguments;

    open spec fn supported(capabilities: dap::CapabilitiesView) -> bool {
        true
    }

    fn is_supported(capabilities: &dap::Capabilities) -> (r: bool) {
        true
    }

    fn to_dap(&self) -> (r: dap::ContinueArguments)
        ensures
            r == self.args,
    {
        self.args
    }
}

impl DapCommand for ContinueCommand {
    type ProtoRequest = proto::DapContinueRequest;

    fn client_id_from_proto(request: &proto::DapContinueRequest) -> (r: DebugSessionId)
        ensures
            r.0 == request.client_id as usize,
    {
        DebugSessionId::from_proto(request.client_id)
    }

    fn from_proto(request: &proto::DapContinueRequest) -> (r: Self)
        ensures
            r.args.thread_id == request.thread_id,
            r.args.single_thread == request.single_thread,
    {
        ContinueCommand {
            args: dap::ContinueArguments { thread_id: request.thread_id, single_thread: request.single_thread },
        }
    }

    fn to_proto(&self, debug_client_id: DebugSessionId, upstream_project_id: u64) -> (r: proto::DapContinueRequest)
        ensures
            r == (proto::DapContinueRequest {
                project_id: upstream_project_id,
                client_id: debug_client_id.0 as u64,
                thread_id: self.args.thread_id,
                single_thread: self.args.single_thread,
            }),
    {
        proto::DapContinueRequest {
            project_id: upstream_project_id,
            client_id: debug_client_id.to_proto(),
            thread_id: self.args.thread_id,
            single_thread: self.args.single_thread,
        }
    }
}

impl ContinueCommand {
    /// The wire answer to a continue request.
    pub fn response_to_proto(debug_client_id: DebugSessionId, message: dap::ContinueResponse) -> (r:
        proto::DapContinueResponse)
        ensures
            r.client_id == debug_client_id.0 as u64,
            r.all_threads_continued == message.all_threads_continued,
    {
        proto::DapContinueResponse {
            client_id: debug_client_id.to_proto(),
            all_threads_continued: message.all_threads_continued,
        }
    }

    /// The answer a wire answer to a continue request stands for.
    pub fn response_from_proto(&self, message: proto::DapContinueResponse) -> (r: dap::ContinueResponse)
        ensures
            r.all_threads_continued == message.all_threads_continued,
    {
        dap::ContinueResponse { all_threads_continued: message.all_threads_continued }
    }
}

/// Pause a thread.
#[derive(Clone, Copy, Debug, PartialEq, Eq, Hash, Structural)]
pub struct PauseCommand {
    pub thread_id: u64,
}

impl LocalDapCommand for PauseCommand {
    type Arguments = dap::PauseArguments;

    open spec fn supported(capabilities: dap::CapabilitiesView) -> bool {
        true
    }

    fn is_supported(capabilities: &dap::Capabilities) -> (r: bool) {
        true
    }

    fn to_dap(&self) -> (r: dap::PauseArguments)
        ensures
            r.thread_id == self.thread_id,
    {
        dap::PauseArguments { thread_id: self.thread_id }
    }
}

impl DapCommand for PauseCommand {
    type ProtoRequest = proto::DapPauseRequest;

    fn client_id_from_proto(request: &proto::DapPauseRequest) -> (r: DebugSessionId)
        ensures
            r.0 == request.client_id as usize,
    {
        DebugSessionId::from_proto(request.client_id)
    }

    fn from_proto(request: &proto::DapPauseRequest) -> (r: Self)
        ensures
            r.thread_id == request.thread_id,
    {
        PauseCommand { thread_id: request.thread_id }
    }

    fn to_proto(&self, debug_client_id: DebugSessionId, upstream_project_id: u64) -> (r: proto::DapPauseRequest)
        ensures
            r == (proto::DapPauseRequest {
                project_id: upstream_project_id,
                client_id: debug_client_id.0 as u64,
                thread_id: self.thread_id,
            }),
    {
        proto::DapPauseRequest {
            project_id: upstream_project_id,
            client_id: debug_client_id.to_proto(),
            thread_id: self.thread_id,
        }
    }
}

/// End the debug session.
#[derive(Clone, Copy, Debug, PartialEq, Eq, Hash, Structural)]
pub struct DisconnectCommand {
    pub restart: Option<bool>,
    pub terminate_debuggee: Option<bool>,
    pub suspend_debuggee: Option<bool>,
}

impl DisconnectCommand {
    /// Disconnecting for good: no restart, the debuggee is terminated and not
    /// suspended.
    pub open spec fn spec_terminating() -> Self {
        DisconnectCommand { restart: Some(false), terminate_debuggee: Some(true), suspend_debuggee: Some(false) }
    }

    pub fn terminating() -> (r: Self)
        ensures
            r == Self::spec_terminating(),
    {
        DisconnectCommand { restart: Some(false), terminate_debuggee: Some(true), suspend_debuggee: Some(false) }
    }
}

impl LocalDapCommand for DisconnectCommand {
    type Arguments = dap::DisconnectArguments;

    open spec fn supported(capabilities: dap::CapabilitiesView) -> bool {
        true
    }

    fn is_supported(capabilities: &dap::Capabilities) -> (r: bool) {
        true
    }

    fn to_dap(&self) -> (r: dap::DisconnectArguments)
        ensures
            r == (dap::DisconnectArguments {
                restart: self.restart,
                terminate_debuggee: self.terminate_debuggee,
                suspend_debuggee: self.suspend_debuggee,
            }),
    {
        dap::DisconnectArguments {
            restart: self.restart,
            terminate_debuggee: self.terminate_debuggee,
            suspend_debuggee: self.suspend_debuggee,
        }
    }
}

impl DapCommand for DisconnectCommand {
    type ProtoRequest = proto::DapDisconnectRequest;

    fn client_id_from_proto(request: &proto::DapDisconnectRequest) -> (r: DebugSessionId)
        ensures
            r.0 == request.client_id as usize,
    {
        DebugSessionId::from_proto(request.client_id)
    }

    fn from_proto(request: &proto::DapDisconnectRequest) -> (r: Self)
        ensures
            r == (DisconnectCommand {
                restart: request.restart,
                terminate_debuggee: request.terminate_debuggee,
                suspend_debuggee: request.suspend_debuggee,
            }),
    {
        DisconnectCommand {
            restart: request.restart,
            terminate_debuggee: request.terminate_debuggee,
            suspend_debuggee: request.suspend_debuggee,
        }
    }

    fn to_proto(&self, debug_client_id: DebugSessionId, upstream_project_id: u64) -> (r:
        proto::DapDisconnectRequest)
        ensures
            r == (proto::DapDisconnectRequest {
                project_id: upstream_project_id,
                client_id: debug_client_id.0 as u64,
                restart: self.restart,
                terminate_debuggee: self.terminate_debuggee,
                suspend_debuggee: self.suspend_debuggee,
            }),
    {
        proto::DapDisconnectRequest {
            project_id: upstream_project_id,
            client_id: debug_client_id.to_proto(),
            restart: self.restart,
            terminate_debuggee: self.terminate_debuggee,
            suspend_debuggee: self.suspend_debuggee,
        }
    }
}

/// Terminate some threads, or all of them when no ids are given.
#[derive(Clone, Debug, PartialEq)]
pub struct TerminateThreadsCommand {
    pub thread_ids: Option<Vec<u64>>,
}

/// The abstract value of optional thread ids.
pub open spec fn opt_ids_view(ids: Option<Vec<u64>>) -> Option<Seq<u64>> {
    match ids {
        Some(v) => Some(v@),
        None => None,
    }
}

impl LocalDapCommand for TerminateThreadsCommand {
    type Arguments = dap::TerminateThreadsArguments;

    open spec fn supported(capabilities: dap::CapabilitiesView) -> bool {
        flag_set(capabilities.supports_terminate_threads_request)
    }

    fn is_supported(capabilities: &dap::Capabilities) -> (r: bool) {
        flag_set_exec(capabilities.supports_terminate_threads_request)
    }

    fn to_dap(&self) -> (r: dap::TerminateThreadsArguments)
        ensures
            opt_ids_view(r.thread_ids) == opt_ids_view(self.thread_ids),
    {
        dap::TerminateThreadsArguments {
            thread_ids: match &self.thread_ids {
                Some(v) => Some(v.clone()),
                None => None,
            },
        }
    }
}

impl DapCommand for TerminateThreadsCommand {
    type ProtoRequest = proto::DapTerminateThreadsRequest;

    fn client_id_from_proto(request: &proto::DapTerminateThreadsRequest) -> (r: DebugSessionId)
        ensures
            r.0 == request.client_id as usize,
    {
        DebugSessionId::from_proto(request.client_id)
    }

    /// An empty list of threads reads as "all threads".
    fn from_proto(request: &proto::DapTerminateThreadsRequest) -> (r: Self)
        ensures
            opt_ids_view(r.thread_ids) == (if request.thread_ids@.len() == 0 {
                None
            } else {
                Some(request.thread_ids@)
            }),
    {
        let thread_ids = if request.thread_ids.len() == 0 {
            None
        } else {
            Some(request.thread_ids.clone())
        };
        TerminateThreadsCommand { thread_ids }
    }

    /// "All threads" is sent as an empty list.
    fn to_proto(&self, debug_client_id: DebugSessionId, upstream_project_id: u64) -> (r:
        proto::DapTerminateThreadsRequest)
        ensures
            r.project_id == upstream_project_id,
            r.client_id == debug_client_id.0 as u64,
            r.thread_ids@ == match self.thread_ids {
                Some(v) => v@,
                None => Seq::<u64>::empty(),
            },
    {
        proto::DapTerminateThreadsRequest {
            project_id: upstream_project_id,
            client_id: debug_client_id.to_proto(),
            thread_ids: match &self.thread_ids {
                Some(v) => v.clone(),
                None => Vec::new(),
            },
        }
    }
}

/// Ask the debuggee to terminate itself.
#[derive(Clone, Copy, Debug, PartialEq, Eq, Hash, Structural)]
pub struct TerminateCommand {
    pub restart: Option<bool>,
}

impl LocalDapCommand for TerminateCommand {
    type Arguments = dap::TerminateArguments;

    open spec fn supported(capabilities: dap::CapabilitiesView) -> bool {
        flag_set(capabilities.supports_terminate_request)
    }

    fn is_supported(capabilities: &dap::Capabilities) -> (r: bool) {
        flag_set_exec(capabilities.supports_terminate_request)
    }

    fn to_dap(&self) -> (r: dap::TerminateArguments)
        ensures
            r.restart == self.restart,
    {
        dap::TerminateArguments { restart: self.restart }
    }
}

impl DapCommand for TerminateCommand {
    type ProtoRequest = proto::DapTerminateRequest;

    fn client_id_from_proto(request: &proto::DapTerminateRequest) -> (r: DebugSessionId)
        ensures
            r.0 == request.client_id as usize,
    {
        DebugSessionId::from_proto(request.client_id)
    }

    fn from_proto(request: &proto::DapTerminateRequest) -> (r: Self)
        ensures
            r.restart == request.restart,
    {
        TerminateCommand { restart: request.restart }
    }

    fn to_proto(&self, debug_client_id: DebugSessionId, upstream_project_id: u64) -> (r: proto::DapTerminateRequest)
        ensures
            r == (proto::DapTerminateRequest {
                project_id: upstream_project_id,
                client_id: debug_client_id.0 as u64,
                restart: self.restart,
            }),
    {
        proto::DapTerminateRequest {
            project_id: upstream_project_id,
            client_id: debug_client_id.to_proto(),
            restart: self.restart,
        }
    }
}

/// Fetch the children of a variable or scope.
#[derive(Clone, Copy, Debug, PartialEq, Eq, Hash, Structural)]
pub struct VariablesCommand {
    pub variables_reference: u64,
    pub filter: Option<dap::VariablesArgumentsFilter>,
    pub start: Option<u64>,
    pub count: Option<u64>,
    pub format: Option<dap::ValueFormat>,
}

impl LocalDapCommand for VariablesCommand {
    type Arguments = dap::VariablesArguments;

    open spec fn supported(capabilities: dap::CapabilitiesView) -> bool {
        true
    }

    fn is_supported(capabilities: &dap::Capabilities) -> (r: bool) {
        true
    }

    fn to_dap(&self) -> (r: dap::VariablesArguments)
        ensures
            r == (dap::VariablesArguments {
                variables_reference: self.variables_reference,
                filter: self.filter,
                start: self.start,
                count: self.count,
                format: self.format,
            }),
    {
        dap::VariablesArguments {
            variables_reference: self.variables_reference,
            filter: self.filter,
            start: self.start,
            count: self.count,
            format: self.format,
        }
    }
}

impl DapCommand for VariablesCommand {
    type ProtoRequest = proto::VariablesRequest;

    fn client_id_from_proto(request: &proto::VariablesRequest) -> (r: DebugSessionId)
        ensures
            r.0 == request.client_id as usize,
    {
        DebugSessionId::from_proto(request.client_id)
    }

    /// The filter and format are not carried over the wire.
    fn from_proto(request: &proto::VariablesRequest) -> (r: Self)
        ensures
            r == (VariablesCommand {
                variables_reference: request.variables_reference,
                filter: None,
                start: request.start,
                count: request.count,
                format: None,
            }),
    {
        VariablesCommand {
            variables_reference: request.variables_reference,
            filter: None,
            start: request.start,
            count: request.count,
            format: None,
        }
    }

    /// The filter and format are not carried over the wire.
    fn to_proto(&self, debug_client_id: DebugSessionId, upstream_project_id: u64) -> (r: proto::VariablesRequest)
        ensures
            r == (proto::VariablesRequest {
                project_id: upstream_project_id,
                client_id: debug_client_id.0 as u64,
                variables_reference: self.variables_reference,
                filter: None,
                start: self.start,
                count: self.count,
                format: None,
            }),
    {
        proto::VariablesRequest {
            project_id: upstream_project_id,
            client_id: debug_client_id.to_proto(),
            variables_reference: self.variables_reference,
            filter: None,
            start: self.start,
            count: self.count,
            format: None,
        }
    }
}

/// A variables request without filter or format is read back unchanged.
pub proof fn lemma_variables_command_round_trip(c: VariablesCommand, client: DebugSessionId, project: u64)
    requires
        c.filter is None,
        c.format is None,
    ensures
        (VariablesCommand {
            variables_reference: c.variables_reference,
            filter: None,
            start: c.start,
            count: c.count,
            format: None,
        }) == c,
{
}

impl VariablesCommand {
    /// The wire answer to a variables request.
    pub fn response_to_proto(debug_client_id: DebugSessionId, message: Vec<dap::Variable>) -> (r:
        proto::DapVariables)
        ensures
            r.client_id == debug_client_id.0 as u64,
            r.variables@ == message@.map_values(|v: dap::Variable| crate::proto_conversions::variable_to_proto(v)),
    {
        let mut variables: Vec<proto::DapVariable> = Vec::new();
        let mut i: usize = 0;
        while i < message.len()
            invariant
                i <= message.len(),
                variables@ =~= message@.subrange(0, i as int).map_values(
                    |v: dap::Variable| crate::proto_conversions::variable_to_proto(v),
                ),
            decreases message.len() - i,
        {
            variables.push(message[i].to_proto());
            i += 1;
        }
        assert(message@.subrange(0, message@.len() as int) =~= message@);
        proto::DapVariables { client_id: debug_client_id.to_proto(), variables }
    }

    /// The variables a wire answer stands for.
    pub fn response_from_proto(&self, message: proto::DapVariables) -> (r: Vec<dap::Variable>)
        ensures
            r@ == message.variables@.map_values(
                |v: proto::DapVariable| crate::proto_conversions::variable_from_proto(v),
            ),
    {
        let wire = message.variables;
        let mut out: Vec<dap::Variable> = Vec::new();
        let mut i: usize = 0;
        while i < wire.len()
            invariant
                i <= wire.len(),
                out@ =~= wire@.subrange(0, i as int).map_values(
                    |v: proto::DapVariable| crate::proto_conversions::variable_from_proto(v),
                ),
            decreases wire.len() - i,
        {
            let v = &wire[i];
            out.push(
                dap::Variable::from_proto(
                    proto::DapVariable {
                        name: v.name.clone(),
                        value: v.value.clone(),
                        type_: dap::clone_opt_string(&v.type_),
                        evaluate_name: dap::clone_opt_string(&v.evaluate_name),
                        variables_reference: v.variables_reference,
                        named_variables: v.named_variables,
                        indexed_variables: v.indexed_variables,
                        memory_reference: dap::clone_opt_string(&v.memory_reference),
                    },
                ),
            );
            i += 1;
        }
        assert(wire@.subrange(0, wire@.len() as int) =~= wire@);
        out
    }
}

/// Set the value of a variable.
#[derive(Clone, Debug, PartialEq)]
pub struct SetVariableValueCommand {
    pub name: String,
    pub value: String,
    pub variables_reference: u64,
}

impl LocalDapCommand for SetVariableValueCommand {
    type Arguments = dap::SetVariableArguments;

    open spec fn supported(capabilities: dap::CapabilitiesView) -> bool {
        flag_set(capabilities.supports_set_variable)
    }

    fn is_supported(capabilities: &dap::Capabilities) -> (r: bool) {
        flag_set_exec(capabilities.supports_set_variable)
    }

    fn to_dap(&self) -> (r: dap::SetVariableArguments)
        ensures
            r == (dap::SetVariableArguments {
                variables_reference: self.variables_reference,
                name: self.name,
                value: self.value,
                format: None,
            }),
    {
        dap::SetVariableArguments {
            format: None,
            name: self.name.clone(),
            value: self.value.clone(),
            variables_reference: self.variables_reference,
        }
    }
}

impl DapCommand for SetVariableValueCommand {
    type ProtoRequest = proto::DapSetVariableValueRequest;

    fn client_id_from_proto(request: &proto::DapSetVariableValueRequest) -> (r: DebugSessionId)
        ensures
            r.0 == request.client_id as usize,
    {
        DebugSessionId::from_proto(request.client_id)
    }

    fn from_proto(request: &proto::DapSetVariableValueRequest) -> (r: Self)
        ensures
            r == (SetVariableValueCommand {
                name: request.name,
                value: request.value,
                variables_reference: request.variables_reference,
            }),
    {
        SetVariableValueCommand {
            variables_reference: request.variables_reference,
            name: request.name.clone(),
            value: request.value.clone(),
        }
    }

    fn to_proto(&self, debug_client_id: DebugSessionId, upstream_project_id: u64) -> (r:
        proto::DapSetVariableValueRequest)
        ensures
            r == (proto::DapSetVariableValueRequest {
                project_id: upstream_project_id,
                client_id: debug_client_id.0 as u64,
                variables_reference: self.variables_reference,
                value: self.value,
                name: self.name,
            }),
    {
        proto::DapSetVariableValueRequest {
            project_id: upstream_project_id,
            client_id: debug_client_id.to_proto(),
            variables_reference: self.variables_reference,
            value: self.value.clone(),
            name: self.name.clone(),
        }
    }
}

impl SetVariableValueCommand {
    /// The wire answer to a set-variable request.
    pub fn response_to_proto(debug_client_id: DebugSessionId, message: dap::SetVariableResponse) -> (r:
        proto::DapSetVariableValueResponse)
        ensures
            r == (proto::DapSetVariableValueResponse {
                client_id: debug_client_id.0 as u64,
                value: message.value,
                variable_type: message.type_,
                variables_reference: message.variables_reference,
                named_variables: message.named_variables,
                indexed_variables: message.indexed_variables,
                memory_reference: message.memory_reference,
            }),
    {
        proto::DapSetVariableValueResponse {
            client_id: debug_client_id.to_proto(),
            value: message.value,
            variable_type: message.type_,
            named_variables: message.named_variables,
            variables_reference: message.variables_reference,
            indexed_variables: message.indexed_variables,
            memory_reference: message.memory_reference,
        }
    }

    /// The answer a wire answer to a set-variable request stands for.
    pub fn response_from_proto(&self, message: proto::DapSetVariableValueResponse) -> (r: dap::SetVariableResponse)
        ensures
            r == (dap::SetVariableResponse {
                value: message.value,
                type_: message.variable_type,
                variables_reference: message.variables_reference,
                named_variables: message.named_variables,
                indexed_variables: message.indexed_variables,
                memory_reference: message.memory_reference,
            }),
    {
        dap::SetVariableResponse {
            value: message.value,
            type_: message.variable_type,
            variables_reference: message.variables_reference,
            named_variables: message.named_variables,
            indexed_variables: message.indexed_variables,
            memory_reference: message.memory_reference,
        }
    }
}

/// Restart execution from the start of a stack frame.
#[derive(Clone, Copy, Debug, PartialEq, Eq, Hash, Structural)]
pub struct RestartStackFrameCommand {
    pub stack_frame_id: u64,
}

impl LocalDapCommand for RestartStackFrameCommand {
    type Arguments = dap::RestartFrameArguments;

    open spec fn supported(capabilities: dap::CapabilitiesView) -> bool {
        flag_set(capabilities.supports_restart_frame)
    }

    fn is_supported(capabilities: &dap::Capabilities) -> (r: bool) {
        flag_set_exec(capabilities.supports_restart_frame)
    }

    fn to_dap(&self) -> (r: dap::RestartFrameArguments)
        ensures
            r.frame_id == self.stack_frame_id,
    {
        dap::RestartFrameArguments { frame_id: self.stack_frame_id }
    }
}

impl DapCommand for RestartStackFrameCommand {
    type ProtoRequest = proto::DapRestartStackFrameRequest;

    fn client_id_from_proto(request: &proto::DapRestartStackFrameRequest) -> (r: DebugSessionId)
        ensures
            r.0 == request.client_id as usize,
    {
        DebugSessionId::from_proto(request.client_id)
    }

    fn from_proto(request: &proto::DapRestartStackFrameRequest) -> (r: Self)
        ensures
            r.stack_frame_id == request.stack_frame_id,
    {
        RestartStackFrameCommand { stack_frame_id: request.stack_frame_id }
    }

    fn to_proto(&self, debug_client_id: DebugSessionId, upstream_project_id: u64) -> (r:
        proto::DapRestartStackFrameRequest)
        ensures
            r == (proto::DapRestartStackFrameRequest {
                project_id: upstream_project_id,
                client_id: debug_client_id.0 as u64,
                stack_frame_id: self.stack_frame_id,
            }),
    {
        proto::DapRestartStackFrameRequest {
            project_id: upstream_project_id,
            client_id: debug_client_id.to_proto(),
            stack_frame_id: self.stack_frame_id,
        }
    }
}

/// Fetch the loaded modules.
#[derive(Clone, Copy, Debug, PartialEq, Eq, Hash, Structural)]
pub struct ModulesCommand;

impl LocalDapCommand for ModulesCommand {
    type Arguments = dap::ModulesArguments;

    open spec fn supported(capabilities: dap::CapabilitiesView) -> bool {
        flag_set(capabilities.supports_modules_request)
    }

    fn is_supported(capabilities: &dap::Capabilities) -> (r: bool) {
        flag_set_exec(capabilities.supports_modules_request)
    }

    /// All modules, from the first.
    fn to_dap(&self) -> (r: dap::ModulesArguments)
        ensures
            r == (dap::ModulesArguments { start_module: None, module_count: None }),
    {
        dap::ModulesArguments { start_module: None, module_count: None }
    }
}

impl DapCommand for ModulesCommand {
    type ProtoRequest = proto::DapModulesRequest;

    fn client_id_from_proto(request: &proto::DapModulesRequest) -> (r: DebugSessionId)
        ensures
            r.0 == request.client_id as usize,
    {
        DebugSessionId::from_proto(request.client_id)
    }

    fn from_proto(request: &proto::DapModulesRequest) -> (r: Self) {
        ModulesCommand
    }

    fn to_proto(&self, debug_client_id: DebugSessionId, upstream_project_id: u64) -> (r: proto::DapModulesRequest)
        ensures
            r == (proto::DapModulesRequest { project_id: upstream_project_id, client_id: debug_client_id.0 as u64 }),
    {
        proto::DapModulesRequest { project_id: upstream_project_id, client_id: debug_client_id.to_proto() }
    }
}

/// The modules among the wire modules that carry an id, in order.
pub open spec fn modules_with_ids(v: Seq<proto::DapModule>) -> Seq<dap::Module>
    decreases v.len(),
{
    if v.len() == 0 {
        Seq::empty()
    } else {
        let rest = modules_with_ids(v.subrange(0, v.len() - 1));
        match crate::proto_conversions::module_from_proto(v.last()) {
            Ok(m) => rest.push(m),
            Err(_) => rest,
        }
    }
}

impl ModulesCommand {
    /// The wire answer to a modules request.
    pub fn response_to_proto(debug_client_id: DebugSessionId, message: Vec<dap::Module>) -> (r:
        proto::DapModulesResponse)
        ensures
            r.client_id == debug_client_id.0 as u64,
            r.modules@ == message@.map_values(|m: dap::Module| crate::proto_conversions::module_to_proto(m)),
    {
        let mut modules: Vec<proto::DapModule> = Vec::new();
        let mut i: usize = 0;
        while i < message.len()
            invariant
                i <= message.len(),
                modules@ =~= message@.subrange(0, i as int).map_values(
                    |m: dap::Module| crate::proto_conversions::module_to_proto(m),
                ),
            decreases message.len() - i,
        {
            modules.push(message[i].to_proto());
            i += 1;
        }
        assert(message@.subrange(0, message@.len() as int) =~= message@);
        proto::DapModulesResponse { modules, client_id: debug_client_id.to_proto() }
    }

    /// The modules a wire answer stands for: those without an id are dropped.
    pub fn response_from_proto(&self, message: proto::DapModulesResponse) -> (r: Vec<dap::Module>)
        ensures
            r@ == modules_with_ids(message.modules@),
    {
        let wire = message.modules;
        let mut out: Vec<dap::Module> = Vec::new();
        let mut i: usize = 0;
        while i < wire.len()
            invariant
                i <= wire.len(),
                out@ == modules_with_ids(wire@.subrange(0, i as int)),
            decreases wire.len() - i,
        {
            let ghost before = wire@.subrange(0, i as int);
            let m = &wire[i];
            let copy = proto::DapModule {
                id: match &m.id {
                    Some(id) => Some(
                        proto::DapModuleId {
                            id: match &id.id {
                                Some(proto::DapModuleIdKind::Number(n)) => Some(proto::DapModuleIdKind::Number(*n)),
                                Some(proto::DapModuleIdKind::String(s)) => Some(
                                    proto::DapModuleIdKind::String(s.clone()),
                                ),
                                None => None,
                            },
                        },
                    ),
                    None => None,
                },
                name: m.name.clone(),
                path: dap::clone_opt_string(&m.path),
                is_optimized: m.is_optimized,
                is_user_code: m.is_user_code,
                version: dap::clone_opt_string(&m.version),
                symbol_status: dap::clone_opt_string(&m.symbol_status),
                symbol_file_path: dap::clone_opt_string(&m.symbol_file_path),
                date_time_stamp: dap::clone_opt_string(&m.date_time_stamp),
                address_range: dap::clone_opt_string(&m.address_range),
            };
            assert(copy == wire@[i as int]);
            match dap::Module::from_proto(copy) {
                Ok(module) => out.push(module),
                Err(_) => {},
            }
            i += 1;
            proof {
                let after = wire@.subrange(0, i as int);
                assert(after.subrange(0, after.len() - 1) =~= before);
            }
        }
        assert(wire@.subrange(0, wire@.len() as int) =~= wire@);
        out
    }
}

/// Fetch a thread's stack frames.
#[derive(Clone, Copy, Debug, PartialEq, Eq, Hash, Structural)]
pub struct StackTraceCommand {
    pub thread_id: u64,
    pub start_frame: Option<u64>,
    pub levels: Option<u64>,
}

impl LocalDapCommand for StackTraceCommand {
    type Arguments = dap::StackTraceArguments;

    open spec fn supported(capabilities: dap::CapabilitiesView) -> bool {
        true
    }

    fn is_supported(capabilities: &dap::Capabilities) -> (r: bool) {
        true
    }

    fn to_dap(&self) -> (r: dap::StackTraceArguments)
        ensures
            r == (dap::StackTraceArguments {
                thread_id: self.thread_id,
                start_frame: self.start_frame,
                levels: self.levels,
                format: None,
            }),
    {
        dap::StackTraceArguments {
            thread_id: self.thread_id,
            start_frame: self.start_frame,
            levels: self.levels,
            format: None,
        }
    }
}

impl DapCommand for StackTraceCommand {
    type ProtoRequest = proto::DapStackTraceRequest;

    fn client_id_from_proto(request: &proto::DapStackTraceRequest) -> (r: DebugSessionId)
        ensures
            r.0 == request.client_id as usize,
    {
        DebugSessionId::from_proto(request.client_id)
    }

    fn from_proto(request: &proto::DapStackTraceRequest) -> (r: Self)
        ensures
            r == (StackTraceCommand {
                thread_id: request.thread_id,
                start_frame: request.start_frame,
                levels: request.stack_trace_levels,
            }),
    {
        StackTraceCommand {
            thread_id: request.thread_id,
            start_frame: request.start_frame,
            levels: request.stack_trace_levels,
        }
    }

    fn to_proto(&self, debug_client_id: DebugSessionId, upstream_project_id: u64) -> (r:
        proto::DapStackTraceRequest)
        ensures
            r == (proto::DapStackTraceRequest {
                project_id: upstream_project_id,
                client_id: debug_client_id.0 as u64,
                thread_id: self.thread_id,
                start_frame: self.start_frame,
                stack_trace_levels: self.levels,
            }),
    {
        proto::DapStackTraceRequest {
            project_id: upstream_project_id,
            client_id: debug_client_id.to_proto(),
            thread_id: self.thread_id,
            start_frame: self.start_frame,
            stack_trace_levels: self.levels,
        }
    }
}

/// Fetch the scopes of a stack frame.
#[derive(Clone, Copy, Debug, PartialEq, Eq, Hash, Structural)]
pub struct ScopesCommand {
    pub stack_frame_id: u64,
}

impl StackTraceCommand {
    /// The wire answer to a stack-trace request: each frame in its wire form.
    pub fn response_to_proto(_debug_client_id: DebugSessionId, message: Vec<dap::StackFrame>) -> (r:
        proto::DapStackTraceResponse)
        ensures
            r.frames@.len() == message@.len(),
            forall|j: int| 0 <= j < message@.len() ==> #[trigger] r.frames@[j]@
                == crate::proto_conversions::stack_frame_to_proto(message@[j]@),
    {
        let mut frames: Vec<proto::DapStackFrame> = Vec::new();
        let mut i: usize = 0;
        while i < message.len()
            invariant
                i <= message.len(),
                frames.len() == i,
                forall|j: int| 0 <= j < i ==> #[trigger] frames@[j]@
                    == crate::proto_conversions::stack_frame_to_proto(message@[j]@),
            decreases message.len() - i,
        {
            frames.push(message[i].to_proto());
            i += 1;
        }
        proto::DapStackTraceResponse { frames }
    }

    /// The stack frames a wire answer stands for, in order.
    pub fn response_from_proto(&self, message: proto::DapStackTraceResponse) -> (r: Vec<dap::StackFrame>)
        requires
            forall|j: int| 0 <= j < message.frames@.len() ==> crate::proto_conversions::opt_source_accepted(
                #[trigger] message.frames@[j]@.source,
            ),
        ensures
            r@.len() == message.frames@.len(),
            forall|j: int| 0 <= j < r@.len() ==> #[trigger] r@[j]@
                == crate::proto_conversions::stack_frame_from_proto(message.frames@[j]@),
    {
        let ghost orig = message.frames@;
        let mut wire = message.frames;
        let mut out: Vec<dap::StackFrame> = Vec::new();
        while wire.len() > 0
            invariant
                out.len() + wire.len() == orig.len(),
                wire@ == orig.skip(out.len() as int),
                forall|j: int| 0 <= j < orig.len() ==> crate::proto_conversions::opt_source_accepted(
                    #[trigger] orig[j]@.source,
                ),
                forall|j: int| 0 <= j < out.len() ==> #[trigger] out@[j]@
                    == crate::proto_conversions::stack_frame_from_proto(orig[j]@),
            decreases wire.len(),
        {
            let ghost k = out.len() as int;
            let frame = wire.remove(0);
            assert(frame == orig[k]);
            assert(orig.skip(k).skip(1) =~= orig.skip(k + 1));
            out.push(dap::StackFrame::from_proto(frame));
        }
        out
    }
}

impl ScopesCommand {
    /// The wire answer to a scopes request: each scope in its wire form.
    pub fn response_to_proto(_debug_client_id: DebugSessionId, message: Vec<dap::Scope>) -> (r:
        proto::DapScopesResponse)
        ensures
            r.scopes@.len() == message@.len(),
            forall|j: int| 0 <= j < message@.len() ==> #[trigger] r.scopes@[j]@
                == crate::proto_conversions::scope_to_proto(message@[j]@),
    {
        let mut scopes: Vec<proto::DapScope> = Vec::new();
        let mut i: usize = 0;
        while i < message.len()
            invariant
                i <= message.len(),
                scopes.len() == i,
                forall|j: int| 0 <= j < i ==> #[trigger] scopes@[j]@
                    == crate::proto_conversions::scope_to_proto(message@[j]@),
            decreases message.len() - i,
        {
            scopes.push(message[i].to_proto());
            i += 1;
        }
        proto::DapScopesResponse { scopes }
    }

    /// The scopes a wire answer stands for, in order.
    pub fn response_from_proto(&self, message: proto::DapScopesResponse) -> (r: Vec<dap::Scope>)
        requires
            forall|j: int| 0 <= j < message.scopes@.len() ==> crate::proto_conversions::opt_source_accepted(
                #[trigger] message.scopes@[j]@.source,
            ),
        ensures
            r@.len() == message.scopes@.len(),
            forall|j: int| 0 <= j < r@.len() ==> #[trigger] r@[j]@
                == crate::proto_conversions::scope_from_proto(message.scopes@[j]@),
    {
        let ghost orig = message.scopes@;
        let mut wire = message.scopes;
        let mut out: Vec<dap::Scope> = Vec::new();
        while wire.len() > 0
            invariant
                out.len() + wire.len() == orig.len(),
                wire@ == orig.skip(out.len() as int),
                forall|j: int| 0 <= j < orig.len() ==> crate::proto_conversions::opt_source_accepted(
                    #[trigger] orig[j]@.source,
                ),
                forall|j: int| 0 <= j < out.len() ==> #[trigger] out@[j]@
                    == crate::proto_conversions::scope_from_proto(orig[j]@),
            decreases wire.len(),
        {
            let ghost k = out.len() as int;
            let scope = wire.remove(0);
            assert(scope == orig[k]);
            assert(orig.skip(k).skip(1) =~= orig.skip(k + 1));
            out.push(dap::Scope::from_proto(scope));
        }
        out
    }
}

impl LocalDapCommand for ScopesCommand {
    type Arguments = dap::ScopesArguments;

    open spec fn supported(capabilities: dap::CapabilitiesView) -> bool {
        true
    }

    fn is_supported(capabilities: &dap::Capabilities) -> (r: bool) {
        true
    }

    fn to_dap(&self) -> (r: dap::ScopesArguments)
        ensures
            r.frame_id == self.stack_frame_id,
    {
        dap::ScopesArguments { frame_id: self.stack_frame_id }
    }
}

impl DapCommand for ScopesCommand {
    type ProtoRequest = proto::DapScopesRequest;

    fn client_id_from_proto(request: &proto::DapScopesRequest) -> (r: DebugSessionId)
        ensures
            r.0 == request.client_id as usize,
    {
        DebugSessionId::from_proto(request.client_id)
    }

    fn from_proto(request: &proto::DapScopesRequest) -> (r: Self)
        ensures
            r.stack_frame_id == request.stack_frame_id,
    {
        ScopesCommand { stack_frame_id: request.stack_frame_id }
    }

    fn to_proto(&self, debug_client_id: DebugSessionId, upstream_project_id: u64) -> (r: proto::DapScopesRequest)
        ensures
            r == (proto::DapScopesRequest {
                project_id: upstream_project_id,
                client_id: debug_client_id.0 as u64,
                stack_frame_id: self.stack_frame_id,
            }),
    {
        proto::DapScopesRequest {
            project_id: upstream_project_id,
            client_id: debug_client_id.to_proto(),
            stack_frame_id: self.stack_frame_id,
        }
    }
}

/// Signal that the client has finished configuring the adapter.
#[derive(Clone, Copy, Debug, PartialEq, Eq, Hash, Structural)]
pub struct ConfigurationDone;

impl ConfigurationDone {
    /// Sent only to adapters that ask for it.
    pub fn is_supported(capabilities: &dap::Capabilities) -> (r: bool)
        ensures
            r == flag_set(capabilities.supports_configuration_done_request),
    {
        flag_set_exec(capabilities.supports_configuration_done_request)
    }
}

/// The client's side of the `initialize` handshake.
#[derive(Clone, Debug, PartialEq)]
pub struct Initialize {
    pub adapter_id: String,
}

/// What the debugger tells an adapter about itself when it connects: it is
/// Zed, speaks en-US, sends paths, counts lines and columns from one, shows
/// variable types, memory references, runs programs in its terminal and
/// starts child sessions, and takes no paging, progress, invalidation,
/// memory events or shell-interpreted arguments.
pub fn dap_client_capabilities(adapter_id: String) -> (r: dap::InitializeRequestArguments)
    ensures
        r.client_id.is_some() && r.client_id->0@ == "zed"@,
        r.client_name.is_some() && r.client_name->0@ == "Zed"@,
        r.adapter_id == adapter_id,
        r.locale.is_some() && r.locale->0@ == "en-US"@,
        r.path_format == Some(dap::InitializeRequestArgumentsPathFormat::Path),
        r.supports_variable_type == Some(true),
        r.supports_variable_paging == Some(false),
        r.supports_run_in_terminal_request == Some(true),
        r.supports_memory_references == Some(true),
        r.supports_progress_reporting == Some(false),
        r.supports_invalidated_event == Some(false),
        r.lines_start_at1 == Some(true),
        r.columns_start_at1 == Some(true),
        r.supports_memory_event == Some(false),
        r.supports_args_can_be_interpreted_by_shell == Some(false),
        r.supports_start_debugging_request == Some(true),
{
    dap::InitializeRequestArguments {
        client_id: Some("zed".to_owned()),
        client_name: Some("Zed".to_owned()),
        adapter_id,
        locale: Some("en-US".to_owned()),
        path_format: Some(dap::InitializeRequestArgumentsPathFormat::Path),
        supports_variable_type: Some(true),
        supports_variable_paging: Some(false),
        supports_run_in_terminal_request: Some(true),
        supports_memory_references: Some(true),
        supports_progress_reporting: Some(false),
        supports_invalidated_event: Some(false),
        lines_start_at1: Some(true),
        columns_start_at1: Some(true),
        supports_memory_event: Some(false),
        supports_args_can_be_interpreted_by_shell: Some(false),
        supports_start_debugging_request: Some(true),
    }
}

impl Initialize {
    pub fn to_dap(&self) -> (r: dap::InitializeRequestArguments)
        ensures
            r.adapter_id == self.adapter_id,
            r.client_id.is_some() && r.client_id->0@ == "zed"@,
            r.client_name.is_some() && r.client_name->0@ == "Zed"@,
    {
        dap_client_capabilities(self.adapter_id.clone())
    }
}


/// Fetch the sources the adapter has loaded.
#[derive(Clone, Copy, Debug, PartialEq, Eq, Hash, Structural)]
pub struct LoadedSourcesCommand;

impl LocalDapCommand for LoadedSourcesCommand {
    type Arguments = dap::LoadedSourcesArguments;

    open spec fn supported(capabilities: dap::CapabilitiesView) -> bool {
        flag_set(capabilities.supports_loaded_sources_request)
    }

    fn is_supported(capabilities: &dap::Capabilities) -> (r: bool) {
        flag_set_exec(capabilities.supports_loaded_sources_request)
    }

    fn to_dap(&self) -> (r: dap::LoadedSourcesArguments) {
        dap::LoadedSourcesArguments {  }
    }
}

impl DapCommand for LoadedSourcesCommand {
    type ProtoRequest = proto::DapLoadedSourcesRequest;

    fn client_id_from_proto(request: &proto::DapLoadedSourcesRequest) -> (r: DebugSessionId)
        ensures
            r.0 == request.client_id as usize,
    {
        DebugSessionId::from_proto(request.client_id)
    }

    fn from_proto(request: &proto::DapLoadedSourcesRequest) -> (r: Self) {
        LoadedSourcesCommand
    }

    fn to_proto(&self, debug_client_id: DebugSessionId, upstream_project_id: u64) -> (r:
        proto::DapLoadedSourcesRequest)
        ensures
            r == (proto::DapLoadedSourcesRequest {
                project_id: upstream_project_id,
                client_id: debug_client_id.0 as u64,
            }),
    {
        proto::DapLoadedSourcesRequest { project_id: upstream_project_id, client_id: debug_client_id.to_proto() }
    }
}

impl LoadedSourcesCommand {
    /// The wire answer to a loaded-sources request.
    pub fn response_to_proto(debug_client_id: DebugSessionId, message: Vec<dap::Source>) -> (r:
        proto::DapLoadedSourcesResponse)
        ensures
            r.client_id == debug_client_id.0 as u64,
            proto::dap_sources_view(r.sources@) == crate::proto_conversions::sources_to_proto(
                dap::sources_view(message@),
            ),
    {
        let mut sources: Vec<proto::DapSource> = Vec::new();
        let mut i: usize = 0;
        proof {
            dap::lemma_sources_view(message@);
            crate::proto_conversions::lemma_sources_to_proto(dap::sources_view(message@));
        }
        while i < message.len()
            invariant
                i <= message.len(),
                sources.len() == i,
                dap::sources_view(message@).len() == message@.len(),
                forall|j: int| 0 <= j < message@.len() ==> #[trigger] dap::sources_view(message@)[j] == dap::source_view(message@[j]),
                forall|j: int| 0 <= j < i ==> #[trigger] sources@[j]@ == crate::proto_conversions::source_to_proto(
                    dap::source_view(message@[j]),
                ),
            decreases message.len() - i,
        {
            sources.push(message[i].to_proto());
            i += 1;
        }
        proof {
            proto::lemma_dap_sources_view(sources@);
            dap::lemma_sources_view(message@);
            crate::proto_conversions::lemma_sources_to_proto(dap::sources_view(message@));
            assert forall|j: int| 0 <= j < sources@.len() implies #[trigger] proto::dap_sources_view(
                sources@,
            )[j] == crate::proto_conversions::sources_to_proto(dap::sources_view(message@))[j] by {
                assert(dap::sources_view(message@)[j] == dap::source_view(message@[j]));
                assert(sources@[j]@ == proto::dap_source_view(sources@[j]));
            }
            assert(proto::dap_sources_view(sources@) =~= crate::proto_conversions::sources_to_proto(
                dap::sources_view(message@),
            ));
        }
        proto::DapLoadedSourcesResponse { client_id: debug_client_id.to_proto(), sources }
    }

    /// The sources a wire answer stands for.
    pub fn response_from_proto(&self, message: proto::DapLoadedSourcesResponse) -> (r: Vec<dap::Source>)
        requires
            crate::proto_conversions::sources_accepted(proto::dap_sources_view(message.sources@)),
        ensures
            dap::sources_view(r@) == crate::proto_conversions::sources_from_proto(
                proto::dap_sources_view(message.sources@),
            ),
    {
        let wire = message.sources;
        let ghost wv = proto::dap_sources_view(wire@);
        proof {
            proto::lemma_dap_sources_view(wire@);
            crate::proto_conversions::lemma_sources_accepted(wv);
            crate::proto_conversions::lemma_sources_from_proto(wv);
        }
        let mut out: Vec<dap::Source> = Vec::new();
        let mut i: usize = 0;
        while i < wire.len()
            invariant
                i <= wire.len(),
                out.len() == i,
                wv == proto::dap_sources_view(wire@),
                wv.len() == wire@.len(),
                forall|j: int| 0 <= j < wire@.len() ==> #[trigger] wv[j] == wire@[j]@,
                forall|j: int| 0 <= j < wv.len() ==> #[trigger] crate::proto_conversions::source_accepted(wv[j]),
                forall|j: int| 0 <= j < i ==> #[trigger] out@[j]@ == crate::proto_conversions::source_from_proto(wv[j]),
            decreases wire.len() - i,
        {
            let copy = wire[i].clone();
            assert(crate::proto_conversions::source_accepted(wv[i as int]));
            out.push(dap::Source::from_proto(copy));
            i += 1;
        }
        proof {
            dap::lemma_sources_view(out@);
            crate::proto_conversions::lemma_sources_from_proto(wv);
            assert forall|j: int| 0 <= j < out@.len() implies #[trigger] dap::sources_view(out@)[j]
                == crate::proto_conversions::sources_from_proto(wv)[j] by {
                assert(out@[j]@ == dap::source_view(out@[j]));
            }
            assert(dap::sources_view(out@) =~= crate::proto_conversions::sources_from_proto(wv));
        }
        out
    }
}

/// What bytes read as one JSON value and written back as JSON text give:
/// nothing when they are not one JSON value.
pub uninterp spec fn reserialized_json(bytes: Seq<u8>) -> Option<Seq<u8>>;

/// Reads bytes as a `serde_json::Value` with `serde_json::from_slice` and,
/// when they are one, writes that value back with `serde_json::to_vec`; the
/// result is a function of the bytes alone.
#[verifier::external_body]
fn reserialize_json(bytes: &[u8]) -> (r: Option<Vec<u8>>)
    ensures
        match r {
            Some(text) => reserialized_json(bytes@) == Some(text@),
            None => reserialized_json(bytes@) is None,
        },
{
    match serde_json::from_slice::<serde_json::Value>(bytes) {
        Ok(value) => serde_json::to_vec(&value).ok(),
        Err(_) => None,
    }
}

/// The JSON text `null`.
pub open spec fn json_null() -> Seq<u8> {
    seq![110u8, 117u8, 108u8, 108u8]
}

pub fn json_null_bytes() -> (r: Vec<u8>)
    ensures
        r@ == json_null(),
{
    let r: Vec<u8> = vec![110u8, 117u8, 108u8, 108u8];
    assert(r@ =~= json_null());
    r
}

/// Restart the debug session, with the adapter's own restart arguments as
/// JSON text.
#[derive(Clone, Debug, PartialEq)]
pub struct RestartCommand {
    pub raw: Vec<u8>,
}

impl LocalDapCommand for RestartCommand {
    type Arguments = dap::RestartArguments;

    open spec fn supported(capabilities: dap::CapabilitiesView) -> bool {
        flag_set(capabilities.supports_restart_request)
    }

    fn is_supported(capabilities: &dap::Capabilities) -> (r: bool) {
        flag_set_exec(capabilities.supports_restart_request)
    }

    fn to_dap(&self) -> (r: dap::RestartArguments)
        ensures
            r.raw@ == self.raw@,
    {
        dap::RestartArguments { raw: self.raw.clone() }
    }
}

impl DapCommand for RestartCommand {
    type ProtoRequest = proto::DapRestartRequest;

    fn client_id_from_proto(request: &proto::DapRestartRequest) -> (r: DebugSessionId)
        ensures
            r.0 == request.client_id as usize,
    {
        DebugSessionId::from_proto(request.client_id)
    }

    /// The arguments the request carries, read as a JSON value and kept as
    /// that value's text; `null` when they are not JSON.
    fn from_proto(request: &proto::DapRestartRequest) -> (r: Self)
        ensures
            r.raw@ == (match reserialized_json(request.raw_args@) {
                Some(text) => text,
                None => json_null(),
            }),
    {
        match reserialize_json(request.raw_args.as_slice()) {
            Some(text) => RestartCommand { raw: text },
            None => RestartCommand { raw: json_null_bytes() },
        }
    }

    fn to_proto(&self, debug_client_id: DebugSessionId, upstream_project_id: u64) -> (r:
        proto::DapRestartRequest)
        ensures
            r.project_id == upstream_project_id,
            r.client_id == debug_client_id.0 as u64,
            r.raw_args@ == (match reserialized_json(self.raw@) {
                Some(text) => text,
                None => Seq::empty(),
            }),
    {
        let raw_args = match reserialize_json(self.raw.as_slice()) {
            Some(text) => text,
            None => Vec::new(),
        };
        proto::DapRestartRequest { project_id: upstream_project_id, client_id: debug_client_id.to_proto(), raw_args }
    }
}

} // verus!
