//! The state of a debug session and of each debug adapter client in it: the
//! modules and sources the adapter reported, which idempotent requests are in
//! flight, and which request each user action sends.
use vstd::prelude::*;
use vstd::string::*;
use crate::dap;
use crate::dap::{Module, Source, SourceView, module_id_key, module_id_eq, same_source, same_opt_text};
use crate::dap_command::{
    flag_set, ContinueCommand, DisconnectCommand, LocalDapCommand, LoadedSourcesCommand,
    ModulesCommand, NextCommand, PauseCommand, RestartCommand, RestartStackFrameCommand,
    ScopesCommand, StackTraceCommand, StepBackCommand, StepCommand, StepInCommand,
    StepOutCommand, TerminateCommand, TerminateThreadsCommand, VariablesCommand, json_null,
    json_null_bytes,
};
use crate::debug_format::DebugAdapterConfig;
use crate::ids::{DebugAdapterClientId, DebugSessionId};

verus! {

/// The index of the first element that satisfies `pred`, or -1.
pub open spec fn first_index<T>(s: Seq<T>, pred: spec_fn(T) -> bool) -> int
    decreases s.len(),
{
    if s.len() == 0 {
        -1
    } else if pred(s[0]) {
        0
    } else {
        let r = first_index(s.skip(1), pred);
        if r < 0 {
            -1
        } else {
            r + 1
        }
    }
}

/// `s` with its first element that satisfies `pred` replaced by `x`.
pub open spec fn replace_first<T>(s: Seq<T>, pred: spec_fn(T) -> bool, x: T) -> Seq<T> {
    let i = first_index(s, pred);
    if i < 0 {
        s
    } else {
        s.update(i, x)
    }
}

/// The elements of `s` that satisfy `pred`, in order.
pub open spec fn keep<T>(s: Seq<T>, pred: spec_fn(T) -> bool) -> Seq<T>
    decreases s.len(),
{
    if s.len() == 0 {
        s
    } else if pred(s.last()) {
        keep(s.drop_last(), pred).push(s.last())
    } else {
        keep(s.drop_last(), pred)
    }
}

/// The first index is the first element that satisfies the predicate.
pub proof fn lemma_first_index<T>(s: Seq<T>, pred: spec_fn(T) -> bool, i: int)
    requires
        0 <= i <= s.len(),
        forall|j: int| 0 <= j < i ==> !pred(#[trigger] s[j]),
    ensures
        i < s.len() && pred(s[i]) ==> first_index(s, pred) == i,
        i == s.len() ==> first_index(s, pred) == -1,
    decreases i,
{
    if i > 0 {
        let t = s.skip(1);
        assert forall|j: int| 0 <= j < i - 1 implies !pred(#[trigger] t[j]) by {
            assert(t[j] == s[j + 1]);
        }
        lemma_first_index(t, pred, i - 1);
        if i < s.len() {
            assert(t[i - 1] == s[i]);
        }
        assert(!pred(s[0]));
    }
}

/// Whether a module has the id key `key`.
pub open spec fn has_module_id(key: dap::ModuleIdKey) -> spec_fn(Module) -> bool {
    |m: Module| module_id_key(m.id) == key
}

/// Whether a module has another id key than `key`.
pub open spec fn lacks_module_id(key: dap::ModuleIdKey) -> spec_fn(Module) -> bool {
    |m: Module| module_id_key(m.id) != key
}

/// Whether a loaded source is the one a changed-source event is about.
pub open spec fn matches_source(event: SourceView) -> spec_fn(SourceView) -> bool {
    |s: SourceView| source_matches(s, event)
}

/// Whether a loaded source differs from `event`.
pub open spec fn differs_from(event: SourceView) -> spec_fn(SourceView) -> bool {
    |s: SourceView| !same_source(s, event)
}

/// The modules after a module event: a new module is appended, a changed
/// one replaces the first module with its id, a removed one drops every
/// module with its id.
pub open spec fn modules_after_event(modules: Seq<Module>, event: dap::ModuleEvent) -> Seq<Module> {
    let key = module_id_key(event.module.id);
    match event.reason {
        dap::ModuleEventReason::New => modules.push(event.module),
        dap::ModuleEventReason::Changed => replace_first(modules, has_module_id(key), event.module),
        dap::ModuleEventReason::Removed => keep(modules, lacks_module_id(key)),
    }
}

/// Whether a loaded source is the one a changed-source event is about: by
/// its reference when the event has a nonzero one, else by its path when the
/// event has one, else by its name.
pub open spec fn source_matches(s: SourceView, event: SourceView) -> bool {
    if event.source_reference is Some && event.source_reference->0 != 0 {
        s.source_reference == event.source_reference
    } else if event.path is Some {
        s.path is Some && s.path->0@ == event.path->0@
    } else {
        same_opt_text(s.name, event.name)
    }
}

/// The loaded sources after a loaded-source event: a new source is
/// appended, a changed one replaces the first source it matches, a removed
/// one drops every source equal to it.
pub open spec fn sources_after_event(sources: Seq<SourceView>, reason: dap::LoadedSourceEventReason, source: SourceView) -> Seq<
    SourceView,
> {
    match reason {
        dap::LoadedSourceEventReason::New => sources.push(source),
        dap::LoadedSourceEventReason::Changed => replace_first(sources, matches_source(source), source),
        dap::LoadedSourceEventReason::Removed => keep(sources, differs_from(source)),
    }
}

/// An idempotent request whose answer is cached: sent once until the cache
/// is invalidated.
#[derive(Clone, Copy, Debug, PartialEq, Eq, Structural)]
pub enum CachedRequest {
    Modules(ModulesCommand),
    LoadedSources(LoadedSourcesCommand),
    StackTrace(StackTraceCommand),
    Scopes(u64, ScopesCommand),
    Variables(u64, u64, VariablesCommand),
}

/// A request a client sends to its debug adapter.
#[derive(Clone, Debug, PartialEq)]
pub enum SessionRequest {
    Modules(ModulesCommand),
    LoadedSources(LoadedSourcesCommand),
    Pause(PauseCommand),
    RestartStackFrame(RestartStackFrameCommand),
    Restart(RestartCommand),
    Disconnect(DisconnectCommand),
    Terminate(TerminateCommand),
    Continue(ContinueCommand),
    Next(NextCommand),
    StepIn(StepInCommand),
    StepOut(StepOutCommand),
    StepBack(StepBackCommand),
    TerminateThreads(TerminateThreadsCommand),
    StackTrace(StackTraceCommand),
    Scopes(ScopesCommand),
    Variables(VariablesCommand),
}

/// Whether an adapter with these capabilities supports a request.
pub open spec fn request_supported(request: SessionRequest, capabilities: dap::CapabilitiesView) -> bool {
    match request {
        SessionRequest::Modules(_) => ModulesCommand::supported(capabilities),
        SessionRequest::LoadedSources(_) => LoadedSourcesCommand::supported(capabilities),
        SessionRequest::Pause(_) => PauseCommand::supported(capabilities),
        SessionRequest::RestartStackFrame(_) => RestartStackFrameCommand::supported(capabilities),
        SessionRequest::Restart(_) => RestartCommand::supported(capabilities),
        SessionRequest::Disconnect(_) => DisconnectCommand::supported(capabilities),
        SessionRequest::Terminate(_) => TerminateCommand::supported(capabilities),
        SessionRequest::Continue(_) => ContinueCommand::supported(capabilities),
        SessionRequest::Next(_) => NextCommand::supported(capabilities),
        SessionRequest::StepIn(_) => StepInCommand::supported(capabilities),
        SessionRequest::StepOut(_) => StepOutCommand::supported(capabilities),
        SessionRequest::StepBack(_) => StepBackCommand::supported(capabilities),
        SessionRequest::TerminateThreads(_) => TerminateThreadsCommand::supported(capabilities),
        SessionRequest::StackTrace(_) => StackTraceCommand::supported(capabilities),
        SessionRequest::Scopes(_) => ScopesCommand::supported(capabilities),
        SessionRequest::Variables(_) => VariablesCommand::supported(capabilities),
    }
}

/// Which requests an adapter supports. The base requests of the protocol
/// (stack traces, scopes, variables, continuing, stepping over, in and out,
/// pausing, disconnecting) are supported by every adapter, whatever its
/// capabilities say; the others need the adapter to announce them: stepping
/// back, terminating threads, terminating, restarting, restarting a frame,
/// modules, loaded sources, each by its own capability set to true.
pub proof fn lemma_request_support(capabilities: dap::CapabilitiesView, request: SessionRequest)
    ensures
        request is StackTrace ==> request_supported(request, capabilities),
        request is Scopes ==> request_supported(request, capabilities),
        request is Variables ==> request_supported(request, capabilities),
        request is Continue ==> request_supported(request, capabilities),
        request is Next ==> request_supported(request, capabilities),
        request is StepIn ==> request_supported(request, capabilities),
        request is StepOut ==> request_supported(request, capabilities),
        request is Pause ==> request_supported(request, capabilities),
        request is Disconnect ==> request_supported(request, capabilities),
        request is StepBack ==> (request_supported(request, capabilities) <==> capabilities.supports_step_back
            == Some(true)),
        request is TerminateThreads ==> (request_supported(request, capabilities)
            <==> capabilities.supports_terminate_threads_request == Some(true)),
        request is Terminate ==> (request_supported(request, capabilities)
            <==> capabilities.supports_terminate_request == Some(true)),
        request is Restart ==> (request_supported(request, capabilities) <==> capabilities.supports_restart_request
            == Some(true)),
        request is RestartStackFrame ==> (request_supported(request, capabilities)
            <==> capabilities.supports_restart_frame == Some(true)),
        request is Modules ==> (request_supported(request, capabilities) <==> capabilities.supports_modules_request
            == Some(true)),
        request is LoadedSources ==> (request_supported(request, capabilities)
            <==> capabilities.supports_loaded_sources_request == Some(true)),
        StackTraceCommand::supported(capabilities),
        ScopesCommand::supported(capabilities),
        VariablesCommand::supported(capabilities),
{
}

/// The name of a request in the debug adapter protocol.
pub open spec fn request_command(request: SessionRequest) -> Seq<char> {
    match request {
        SessionRequest::Modules(_) => "modules"@,
        SessionRequest::LoadedSources(_) => "loadedSources"@,
        SessionRequest::Pause(_) => "pause"@,
        SessionRequest::RestartStackFrame(_) => "restartFrame"@,
        SessionRequest::Restart(_) => "restart"@,
        SessionRequest::Disconnect(_) => "disconnect"@,
        SessionRequest::Terminate(_) => "terminate"@,
        SessionRequest::Continue(_) => "continue"@,
        SessionRequest::Next(_) => "next"@,
        SessionRequest::StepIn(_) => "stepIn"@,
        SessionRequest::StepOut(_) => "stepOut"@,
        SessionRequest::StepBack(_) => "stepBack"@,
        SessionRequest::TerminateThreads(_) => "terminateThreads"@,
        SessionRequest::StackTrace(_) => "stackTrace"@,
        SessionRequest::Scopes(_) => "scopes"@,
        SessionRequest::Variables(_) => "variables"@,
    }
}

impl SessionRequest {
    /// The name of the request in the debug adapter protocol.
    pub fn command(&self) -> (r: &'static str)
        ensures
            r@ == request_command(*self),
    {
        match self {
            SessionRequest::Modules(_) => "modules",
            SessionRequest::LoadedSources(_) => "loadedSources",
            SessionRequest::Pause(_) => "pause",
            SessionRequest::RestartStackFrame(_) => "restartFrame",
            SessionRequest::Restart(_) => "restart",
            SessionRequest::Disconnect(_) => "disconnect",
            SessionRequest::Terminate(_) => "terminate",
            SessionRequest::Continue(_) => "continue",
            SessionRequest::Next(_) => "next",
            SessionRequest::StepIn(_) => "stepIn",
            SessionRequest::StepOut(_) => "stepOut",
            SessionRequest::StepBack(_) => "stepBack",
            SessionRequest::TerminateThreads(_) => "terminateThreads",
            SessionRequest::StackTrace(_) => "stackTrace",
            SessionRequest::Scopes(_) => "scopes",
            SessionRequest::Variables(_) => "variables",
        }
    }

    /// Whether an adapter with these capabilities supports the request.
    pub fn is_supported(&self, capabilities: &dap::Capabilities) -> (r: bool)
        ensures
            r == request_supported(*self, capabilities@),
    {
        match self {
            SessionRequest::Modules(_) => ModulesCommand::is_supported(capabilities),
            SessionRequest::LoadedSources(_) => LoadedSourcesCommand::is_supported(capabilities),
            SessionRequest::Pause(_) => PauseCommand::is_supported(capabilities),
            SessionRequest::RestartStackFrame(_) => RestartStackFrameCommand::is_supported(capabilities),
            SessionRequest::Restart(_) => RestartCommand::is_supported(capabilities),
            SessionRequest::Disconnect(_) => DisconnectCommand::is_supported(capabilities),
            SessionRequest::Terminate(_) => TerminateCommand::is_supported(capabilities),
            SessionRequest::Continue(_) => ContinueCommand::is_supported(capabilities),
            SessionRequest::Next(_) => NextCommand::is_supported(capabilities),
            SessionRequest::StepIn(_) => StepInCommand::is_supported(capabilities),
            SessionRequest::StepOut(_) => StepOutCommand::is_supported(capabilities),
            SessionRequest::StepBack(_) => StepBackCommand::is_supported(capabilities),
            SessionRequest::TerminateThreads(_) => TerminateThreadsCommand::is_supported(capabilities),
            SessionRequest::StackTrace(_) => StackTraceCommand::is_supported(capabilities),
            SessionRequest::Scopes(_) => ScopesCommand::is_supported(capabilities),
            SessionRequest::Variables(_) => VariablesCommand::is_supported(capabilities),
        }
    }
}

/// A request refused before it was sent, because the adapter does not support it.
#[derive(Clone, Debug, PartialEq)]
pub struct UnsupportedRequest {
    pub command: String,
}

/// How a client reaches its debug adapter: directly, or through the host of a
/// shared project.
#[derive(Clone, Copy, Debug, PartialEq, Eq, Structural)]
pub enum ClientMode {
    Local,
    Remote { upstream_project_id: u64 },
}


/// The state of one debug adapter client of a session.
pub struct ClientState {
    pub client_id: DebugAdapterClientId,
    pub mode: ClientMode,
    pub capabilities: dap::Capabilities,
    pub modules: Vec<Module>,
    pub loaded_sources: Vec<Source>,
    pub requests: Vec<CachedRequest>,
}

impl ClientState {
    /// The modules the adapter reported, in order.
    pub open spec fn module_list(&self) -> Seq<Module> {
        self.modules@
    }

    /// The sources the adapter reported loaded, in order.
    pub open spec fn source_list(&self) -> Seq<SourceView> {
        dap::sources_view(self.loaded_sources@)
    }

    /// The cached requests that were sent and not invalidated since.
    pub open spec fn cached(&self) -> Set<CachedRequest> {
        self.requests@.to_set()
    }

    /// A client with nothing reported, no capability and nothing cached.
    pub fn new(client_id: DebugAdapterClientId, mode: ClientMode) -> (r: Self)
        ensures
            r.client_id == client_id,
            r.mode == mode,
            r.capabilities@ == dap::no_capabilities(),
            r.module_list() == Seq::<Module>::empty(),
            r.source_list() == Seq::<SourceView>::empty(),
            r.cached() == Set::<CachedRequest>::empty(),
    {
        let r = ClientState {
            client_id,
            mode,
            capabilities: dap::Capabilities::default(),
            modules: Vec::new(),
            loaded_sources: Vec::new(),
            requests: Vec::new(),
        };
        assert(r.requests@.to_set() =~= Set::<CachedRequest>::empty());
        r
    }

    /// Forgets the reported modules and sources and every cached request.
    pub fn invalidate(&mut self)
        ensures
            final(self).module_list() == Seq::<Module>::empty(),
            final(self).source_list() == Seq::<SourceView>::empty(),
            final(self).cached() == Set::<CachedRequest>::empty(),
            final(self).client_id == old(self).client_id,
            final(self).mode == old(self).mode,
            final(self).capabilities == old(self).capabilities,
    {
        self.requests.clear();
        self.modules.clear();
        self.loaded_sources.clear();
        assert(self.requests@.to_set() =~= Set::<CachedRequest>::empty());
    }

    /// Whether a cached request is to be sent: it is when it is not cached
    /// yet, and it is cached from then on.
    pub fn fetch(&mut self, request: CachedRequest) -> (send: bool)
        ensures
            send == !old(self).cached().contains(request),
            final(self).cached() == old(self).cached().insert(request),
            final(self).module_list() == old(self).module_list(),
            final(self).source_list() == old(self).source_list(),
            final(self).client_id == old(self).client_id,
            final(self).mode == old(self).mode,
            final(self).capabilities == old(self).capabilities,
    {
        let mut i: usize = 0;
        while i < self.requests.len()
            invariant
                i <= self.requests.len(),
                forall|j: int| 0 <= j < i ==> self.requests@[j] != request,
            decreases self.requests.len() - i,
        {
            if self.requests[i] == request {
                assert(self.requests@.to_set().contains(request)) by {
                    assert(self.requests@.contains(request));
                }
                assert(self.requests@.to_set().insert(request) =~= self.requests@.to_set());
                return false;
            }
            i += 1;
        }
        assert(!self.requests@.contains(request));
        let ghost before = self.requests@;
        self.requests.push(request);
        assert(self.requests@.to_set() =~= before.to_set().insert(request)) by {
            assert forall|x: CachedRequest| self.requests@.contains(x) <==> before.contains(x) || x == request by {
                if self.requests@.contains(x) {
                    let k = choose|k: int| 0 <= k < self.requests@.len() && self.requests@[k] == x;
                    if k < before.len() {
                        assert(before[k] == x);
                    }
                }
                if before.contains(x) {
                    let k = choose|k: int| 0 <= k < before.len() && before[k] == x;
                    assert(self.requests@[k] == x);
                }
                if x == request {
                    assert(self.requests@[before.len() as int] == x);
                }
            }
        }
        true
    }

    /// The modules the adapter reported, and the request that fetches them:
    /// it is sent once, until the cache is invalidated.
    pub fn modules(&mut self) -> (r: (Option<SessionRequest>, Vec<Module>))
        ensures
            r.0 is Some <==> !old(self).cached().contains(CachedRequest::Modules(ModulesCommand)),
            r.0 matches Some(q) ==> q == SessionRequest::Modules(ModulesCommand),
            final(self).cached() == old(self).cached().insert(CachedRequest::Modules(ModulesCommand)),
            r.1@ == old(self).module_list(),
            final(self).module_list() == old(self).module_list(),
            final(self).source_list() == old(self).source_list(),
            final(self).client_id == old(self).client_id,
            final(self).mode == old(self).mode,
            final(self).capabilities == old(self).capabilities,
    {
        let send = self.fetch(CachedRequest::Modules(ModulesCommand));
        let mut out: Vec<Module> = Vec::new();
        let mut i: usize = 0;
        while i < self.modules.len()
            invariant
                i <= self.modules.len(),
                out@ =~= self.modules@.take(i as int),
            decreases self.modules.len() - i,
        {
            out.push(self.modules[i].clone());
            i += 1;
        }
        assert(self.modules@.take(self.modules.len() as int) =~= self.modules@);
        let request = if send {
            Some(SessionRequest::Modules(ModulesCommand))
        } else {
            None
        };
        (request, out)
    }

    /// What the module list shows for the module at `ix`: its name and path.
    pub fn module_entry(&self, ix: usize) -> (r: Option<(String, Option<String>)>)
        ensures
            r == (if ix < self.module_list().len() {
                Some((self.module_list()[ix as int].name, self.module_list()[ix as int].path))
            } else {
                None
            }),
    {
        if ix < self.modules.len() {
            Some((self.modules[ix].name.clone(), dap::clone_opt_string(&self.modules[ix].path)))
        } else {
            None
        }
    }

    /// Takes the adapter's answer to a modules request.
    pub fn set_modules(&mut self, modules: Vec<Module>)
        ensures
            final(self).module_list() == modules@,
            final(self).source_list() == old(self).source_list(),
            final(self).cached() == old(self).cached(),
            final(self).client_id == old(self).client_id,
            final(self).mode == old(self).mode,
            final(self).capabilities == old(self).capabilities,
    {
        self.modules = modules;
    }

    /// The sources the adapter reported loaded, and the request that fetches
    /// them: it is sent once, until the cache is invalidated.
    pub fn loaded_sources(&mut self) -> (r: (Option<SessionRequest>, Vec<Source>))
        ensures
            r.0 is Some <==> !old(self).cached().contains(CachedRequest::LoadedSources(LoadedSourcesCommand)),
            r.0 matches Some(q) ==> q == SessionRequest::LoadedSources(LoadedSourcesCommand),
            final(self).cached() == old(self).cached().insert(CachedRequest::LoadedSources(LoadedSourcesCommand)),
            dap::sources_view(r.1@) == old(self).source_list(),
            final(self).module_list() == old(self).module_list(),
            final(self).source_list() == old(self).source_list(),
            final(self).client_id == old(self).client_id,
            final(self).mode == old(self).mode,
            final(self).capabilities == old(self).capabilities,
    {
        let send = self.fetch(CachedRequest::LoadedSources(LoadedSourcesCommand));
        let mut out: Vec<Source> = Vec::new();
        let mut i: usize = 0;
        proof {
            dap::lemma_sources_view(self.loaded_sources@);
        }
        while i < self.loaded_sources.len()
            invariant
                i <= self.loaded_sources.len(),
                out.len() == i,
                forall|j: int| 0 <= j < i ==> #[trigger] out@[j]@ == self.loaded_sources@[j]@,
            decreases self.loaded_sources.len() - i,
        {
            out.push(self.loaded_sources[i].clone());
            i += 1;
        }
        proof {
            dap::lemma_sources_view(out@);
            dap::lemma_sources_view(self.loaded_sources@);
            assert forall|j: int| 0 <= j < out@.len() implies #[trigger] dap::sources_view(out@)[j]
                == dap::sources_view(self.loaded_sources@)[j] by {
                assert(out@[j]@ == dap::source_view(out@[j]));
                assert(self.loaded_sources@[j]@ == dap::source_view(self.loaded_sources@[j]));
            }
            assert(dap::sources_view(out@) =~= dap::sources_view(self.loaded_sources@));
        }
        let request = if send {
            Some(SessionRequest::LoadedSources(LoadedSourcesCommand))
        } else {
            None
        };
        (request, out)
    }

    /// Takes the adapter's answer to a loaded-sources request.
    pub fn set_loaded_sources(&mut self, sources: Vec<Source>)
        ensures
            final(self).source_list() == dap::sources_view(sources@),
            final(self).module_list() == old(self).module_list(),
            final(self).cached() == old(self).cached(),
            final(self).client_id == old(self).client_id,
            final(self).mode == old(self).mode,
            final(self).capabilities == old(self).capabilities,
    {
        self.loaded_sources = sources;
    }
}


fn source_matches_exec(s: &Source, event: &Source) -> (r: bool)
    ensures
        r == source_matches(s@, event@),
{
    match event.source_reference {
        Some(reference) if reference != 0 => s.source_reference == Some(reference),
        _ => match &event.path {
            Some(path) => match &s.path {
                Some(p) => *p == *path,
                None => false,
            },
            None => dap::opt_text_eq(&s.name, &event.name),
        },
    }
}

proof fn lemma_sources_view_update(v: Seq<Source>, i: int, x: Source)
    requires
        0 <= i < v.len(),
    ensures
        dap::sources_view(v.update(i, x)) == dap::sources_view(v).update(i, x@),
{
    dap::lemma_sources_view(v);
    dap::lemma_sources_view(v.update(i, x));
    assert(dap::sources_view(v.update(i, x)) =~= dap::sources_view(v).update(i, x@));
}

proof fn lemma_sources_view_push(v: Seq<Source>, x: Source)
    ensures
        dap::sources_view(v.push(x)) == dap::sources_view(v).push(x@),
{
    assert(v.push(x).subrange(0, v.len() as int) =~= v);
}

impl ClientState {
    /// Applies a module event to the reported modules.
    pub fn handle_module_event(&mut self, event: &dap::ModuleEvent)
        ensures
            final(self).module_list() == modules_after_event(old(self).module_list(), *event),
            final(self).source_list() == old(self).source_list(),
            final(self).cached() == old(self).cached(),
            final(self).client_id == old(self).client_id,
            final(self).mode == old(self).mode,
            final(self).capabilities == old(self).capabilities,
    {
        let ghost key = module_id_key(event.module.id);
        match event.reason {
            dap::ModuleEventReason::New => {
                self.modules.push(event.module.clone());
            },
            dap::ModuleEventReason::Changed => {
                let ghost s = self.modules@;
                let mut i: usize = 0;
                while i < self.modules.len()
                    invariant
                        *self == *old(self),
                        self.modules@ == s,
                        key == module_id_key(event.module.id),
                        event.reason is Changed,
                        i <= s.len(),
                        forall|j: int| 0 <= j < i ==> !has_module_id(key)(#[trigger] s[j]),
                    decreases s.len() - i,
                {
                    if module_id_eq(&self.modules[i].id, &event.module.id) {
                        assert(has_module_id(key)(s[i as int]));
                        proof {
                            lemma_first_index(s, has_module_id(key), i as int);
                        }
                        self.modules.set(i, event.module.clone());
                        assert(self.modules@ == replace_first(s, has_module_id(key), event.module));
                        return;
                    }
                    i += 1;
                }
                proof {
                    lemma_first_index(s, has_module_id(key), i as int);
                }
            },
            dap::ModuleEventReason::Removed => {
                let ghost s = self.modules@;
                let mut kept: Vec<Module> = Vec::new();
                let mut i: usize = 0;
                while i < self.modules.len()
                    invariant
                        *self == *old(self),
                        self.modules@ == s,
                        key == module_id_key(event.module.id),
                        i <= s.len(),
                        kept@ == keep(s.take(i as int), lacks_module_id(key)),
                    decreases s.len() - i,
                {
                    assert(s.take(i as int + 1).drop_last() =~= s.take(i as int));
                    assert(s.take(i as int + 1).last() == s[i as int]);
                    if !module_id_eq(&self.modules[i].id, &event.module.id) {
                        kept.push(self.modules[i].clone());
                    }
                    i += 1;
                }
                assert(s.take(s.len() as int) =~= s);
                self.modules = kept;
            },
        }
    }

    /// Applies a loaded-source event to the reported sources.
    pub fn handle_loaded_source_event(&mut self, event: &dap::LoadedSourceEvent)
        ensures
            final(self).source_list() == sources_after_event(
                old(self).source_list(),
                event.reason,
                event.source@,
            ),
            final(self).module_list() == old(self).module_list(),
            final(self).cached() == old(self).cached(),
            final(self).client_id == old(self).client_id,
            final(self).mode == old(self).mode,
            final(self).capabilities == old(self).capabilities,
    {
        let ghost e = event.source@;
        let ghost v = self.loaded_sources@;
        proof {
            dap::lemma_sources_view(v);
        }
        match event.reason {
            dap::LoadedSourceEventReason::New => {
                let copy = event.source.clone();
                proof {
                    lemma_sources_view_push(v, copy);
                }
                self.loaded_sources.push(copy);
            },
            dap::LoadedSourceEventReason::Changed => {
                let ghost s = dap::sources_view(v);
                let mut i: usize = 0;
                while i < self.loaded_sources.len()
                    invariant
                        *self == *old(self),
                        self.loaded_sources@ == v,
                        s == dap::sources_view(v),
                        s.len() == v.len(),
                        forall|j: int| 0 <= j < v.len() ==> #[trigger] s[j] == dap::source_view(v[j]),
                        i <= v.len(),
                        e == event.source@,
                        event.reason is Changed,
                        forall|j: int| 0 <= j < i ==> !matches_source(e)(#[trigger] s[j]),
                    decreases v.len() - i,
                {
                    if source_matches_exec(&self.loaded_sources[i], &event.source) {
                        assert(matches_source(e)(s[i as int]));
                        proof {
                            lemma_first_index(s, matches_source(e), i as int);
                        }
                        let copy = event.source.clone();
                        proof {
                            lemma_sources_view_update(v, i as int, copy);
                        }
                        self.loaded_sources.set(i, copy);
                        assert(first_index(s, matches_source(e)) == i);
                        assert(self.source_list() == s.update(i as int, e));
                        assert(replace_first(s, matches_source(e), e) == s.update(i as int, e));
                        return;
                    }
                    assert(!matches_source(e)(s[i as int]));
                    i += 1;
                }
                proof {
                    lemma_first_index(s, matches_source(e), i as int);
                }
            },
            dap::LoadedSourceEventReason::Removed => {
                let ghost s = dap::sources_view(v);
                let mut kept: Vec<Source> = Vec::new();
                let mut i: usize = 0;
                while i < self.loaded_sources.len()
                    invariant
                        *self == *old(self),
                        self.loaded_sources@ == v,
                        s == dap::sources_view(v),
                        s.len() == v.len(),
                        forall|j: int| 0 <= j < v.len() ==> #[trigger] s[j] == dap::source_view(v[j]),
                        i <= v.len(),
                        e == event.source@,
                        dap::sources_view(kept@) == keep(s.take(i as int), differs_from(e)),
                    decreases v.len() - i,
                {
                    assert(s.take(i as int + 1).drop_last() =~= s.take(i as int));
                    assert(s.take(i as int + 1).last() == s[i as int]);
                    if !self.loaded_sources[i].same_as(&event.source) {
                        let copy = self.loaded_sources[i].clone();
                        proof {
                            lemma_sources_view_push(kept@, copy);
                        }
                        kept.push(copy);
                    }
                    i += 1;
                }
                assert(s.take(s.len() as int) =~= s);
                self.loaded_sources = kept;
            },
        }
    }
}


/// The request that disconnects for good.
pub open spec fn terminating_disconnect() -> SessionRequest {
    SessionRequest::Disconnect(DisconnectCommand::spec_terminating())
}

/// The request that ends the session of a client with these capabilities:
/// terminating the debuggee when the adapter supports it, disconnecting for
/// good otherwise.
pub open spec fn end_request(capabilities: dap::Capabilities) -> SessionRequest {
    if flag_set(capabilities.supports_terminate_request) {
        SessionRequest::Terminate(TerminateCommand { restart: Some(false) })
    } else {
        terminating_disconnect()
    }
}

impl ClientState {
    /// Checks a request before it is sent: a client that talks to its adapter
    /// directly refuses a request the adapter does not support; a client of
    /// a shared project leaves that to the host.
    pub fn check_request(&self, request: &SessionRequest) -> (r: Result<(), UnsupportedRequest>)
        ensures
            r is Err <==> (self.mode is Local && !request_supported(*request, self.capabilities@)),
            r matches Err(e) ==> e.command@ == request_command(*request),
    {
        match self.mode {
            ClientMode::Local => {
                if request.is_supported(&self.capabilities) {
                    Ok(())
                } else {
                    Err(UnsupportedRequest { command: String::from_str(request.command()) })
                }
            },
            ClientMode::Remote { .. } => Ok(()),
        }
    }

    /// Pauses a thread.
    pub fn pause_thread(&self, thread_id: u64) -> (r: SessionRequest)
        ensures
            r == SessionRequest::Pause(PauseCommand { thread_id }),
    {
        SessionRequest::Pause(PauseCommand { thread_id })
    }

    /// Restarts from the start of a stack frame.
    pub fn restart_stack_frame(&self, stack_frame_id: u64) -> (r: SessionRequest)
        ensures
            r == SessionRequest::RestartStackFrame(RestartStackFrameCommand { stack_frame_id }),
    {
        SessionRequest::RestartStackFrame(RestartStackFrameCommand { stack_frame_id })
    }

    /// Restarts the session with the given arguments (`null` when there are
    /// none) when the adapter supports restarting; otherwise disconnects for
    /// good.
    pub fn restart(&self, args: Option<Vec<u8>>) -> (r: SessionRequest)
        ensures
            flag_set(self.capabilities.supports_restart_request) ==> (r matches SessionRequest::Restart(c)
                && c.raw@ == (match args {
                Some(a) => a@,
                None => json_null(),
            })),
            !flag_set(self.capabilities.supports_restart_request) ==> r == terminating_disconnect(),
    {
        if RestartCommand::is_supported(&self.capabilities) {
            let raw = match args {
                Some(a) => a,
                None => json_null_bytes(),
            };
            SessionRequest::Restart(RestartCommand { raw })
        } else {
            SessionRequest::Disconnect(DisconnectCommand::terminating())
        }
    }

    /// Ends the session: terminates the debuggee when the adapter supports
    /// it, otherwise disconnects for good.
    pub fn shutdown(&self) -> (r: SessionRequest)
        ensures
            r == (if flag_set(self.capabilities.supports_terminate_request) {
                SessionRequest::Terminate(TerminateCommand { restart: Some(false) })
            } else {
                terminating_disconnect()
            }),
    {
        if TerminateCommand::is_supported(&self.capabilities) {
            SessionRequest::Terminate(TerminateCommand { restart: Some(false) })
        } else {
            SessionRequest::Disconnect(DisconnectCommand::terminating())
        }
    }

    /// Resumes one thread only.
    pub fn continue_thread(&self, thread_id: u64) -> (r: SessionRequest)
        ensures
            r == SessionRequest::Continue(
                ContinueCommand { args: dap::ContinueArguments { thread_id, single_thread: Some(true) } },
            ),
    {
        SessionRequest::Continue(
            ContinueCommand { args: dap::ContinueArguments { thread_id, single_thread: Some(true) } },
        )
    }

    /// Steps over the current line of a thread.
    pub fn step_over(&self, thread_id: u64, granularity: dap::SteppingGranularity) -> (r: SessionRequest)
        ensures
            r matches SessionRequest::Next(c) && step_fits(c.inner, thread_id, granularity, self.capabilities),
    {
        SessionRequest::Next(
            NextCommand { inner: StepCommand::for_capabilities(thread_id, granularity, &self.capabilities) },
        )
    }

    /// Steps into the call at the current line of a thread.
    pub fn step_in(&self, thread_id: u64, granularity: dap::SteppingGranularity) -> (r: SessionRequest)
        ensures
            r matches SessionRequest::StepIn(c) && step_fits(c.inner, thread_id, granularity, self.capabilities),
    {
        SessionRequest::StepIn(
            StepInCommand { inner: StepCommand::for_capabilities(thread_id, granularity, &self.capabilities) },
        )
    }

    /// Steps out of the current function of a thread.
    pub fn step_out(&self, thread_id: u64, granularity: dap::SteppingGranularity) -> (r: SessionRequest)
        ensures
            r matches SessionRequest::StepOut(c) && step_fits(c.inner, thread_id, granularity, self.capabilities),
    {
        SessionRequest::StepOut(
            StepOutCommand { inner: StepCommand::for_capabilities(thread_id, granularity, &self.capabilities) },
        )
    }

    /// Steps a thread backwards.
    pub fn step_back(&self, thread_id: u64, granularity: dap::SteppingGranularity) -> (r: SessionRequest)
        ensures
            r matches SessionRequest::StepBack(c) && step_fits(c.inner, thread_id, granularity, self.capabilities),
    {
        SessionRequest::StepBack(
            StepBackCommand { inner: StepCommand::for_capabilities(thread_id, granularity, &self.capabilities) },
        )
    }

    /// Disconnects for good.
    pub fn disconnect_client(&self) -> (r: SessionRequest)
        ensures
            r == terminating_disconnect(),
    {
        SessionRequest::Disconnect(DisconnectCommand::terminating())
    }

    /// Terminates some threads (all without ids) when the adapter supports
    /// it; nothing is sent otherwise.
    pub fn terminate_threads(&self, thread_ids: Option<Vec<u64>>) -> (r: Option<SessionRequest>)
        ensures
            flag_set(self.capabilities.supports_terminate_threads_request) ==> (r matches Some(
                SessionRequest::TerminateThreads(c),
            ) && c.thread_ids == thread_ids),
            !flag_set(self.capabilities.supports_terminate_threads_request) ==> r is None,
    {
        if TerminateThreadsCommand::is_supported(&self.capabilities) {
            Some(SessionRequest::TerminateThreads(TerminateThreadsCommand { thread_ids }))
        } else {
            None
        }
    }

    /// The stack trace request of a thread, unless one is cached.
    pub fn stack_frames(&mut self, thread_id: u64) -> (r: Option<SessionRequest>)
        ensures
            ({
                let c = StackTraceCommand { thread_id, start_frame: None, levels: None };
                &&& r == (if old(self).cached().contains(CachedRequest::StackTrace(c)) {
                    None
                } else {
                    Some(SessionRequest::StackTrace(c))
                })
                &&& final(self).cached() == old(self).cached().insert(CachedRequest::StackTrace(c))
            }),
            final(self).module_list() == old(self).module_list(),
            final(self).source_list() == old(self).source_list(),
            final(self).capabilities == old(self).capabilities,
            final(self).mode == old(self).mode,
            final(self).client_id == old(self).client_id,
    {
        let command = StackTraceCommand { thread_id, start_frame: None, levels: None };
        if self.fetch(CachedRequest::StackTrace(command)) {
            Some(SessionRequest::StackTrace(command))
        } else {
            None
        }
    }

    /// The scopes request of a stack frame of a thread, unless one is cached.
    pub fn scopes(&mut self, thread_id: u64, stack_frame_id: u64) -> (r: Option<SessionRequest>)
        ensures
            ({
                let c = ScopesCommand { stack_frame_id };
                &&& r == (if old(self).cached().contains(CachedRequest::Scopes(thread_id, c)) {
                    None
                } else {
                    Some(SessionRequest::Scopes(c))
                })
                &&& final(self).cached() == old(self).cached().insert(CachedRequest::Scopes(thread_id, c))
            }),
            final(self).module_list() == old(self).module_list(),
            final(self).source_list() == old(self).source_list(),
            final(self).capabilities == old(self).capabilities,
            final(self).mode == old(self).mode,
            final(self).client_id == old(self).client_id,
    {
        let command = ScopesCommand { stack_frame_id };
        if self.fetch(CachedRequest::Scopes(thread_id, command)) {
            Some(SessionRequest::Scopes(command))
        } else {
            None
        }
    }

    /// The variables request of a scope or variable, unless one is cached.
    pub fn variables(&mut self, thread_id: u64, stack_frame_id: u64, variables_reference: u64) -> (r:
        Option<SessionRequest>)
        ensures
            ({
                let c = VariablesCommand {
                    variables_reference,
                    filter: None,
                    start: None,
                    count: None,
                    format: None,
                };
                let k = CachedRequest::Variables(thread_id, stack_frame_id, c);
                &&& r == (if old(self).cached().contains(k) {
                    None
                } else {
                    Some(SessionRequest::Variables(c))
                })
                &&& final(self).cached() == old(self).cached().insert(k)
            }),
            final(self).module_list() == old(self).module_list(),
            final(self).source_list() == old(self).source_list(),
            final(self).capabilities == old(self).capabilities,
            final(self).mode == old(self).mode,
            final(self).client_id == old(self).client_id,
    {
        let command = VariablesCommand {
            variables_reference,
            filter: None,
            start: None,
            count: None,
            format: None,
        };
        if self.fetch(CachedRequest::Variables(thread_id, stack_frame_id, command)) {
            Some(SessionRequest::Variables(command))
        } else {
            None
        }
    }
}

/// Whether a step is the one a thread makes under the capabilities: the
/// unit only when the adapter supports units, and the adapter's own
/// single-thread flag.
pub open spec fn step_fits(
    step: StepCommand,
    thread_id: u64,
    granularity: dap::SteppingGranularity,
    capabilities: dap::Capabilities,
) -> bool {
    &&& step.thread_id == thread_id
    &&& step.granularity == (if flag_set(capabilities.supports_stepping_granularity) {
        Some(granularity)
    } else {
        None
    })
    &&& step.single_thread == capabilities.supports_single_thread_execution_requests
}

/// Asking for a cached request a second time sends nothing until the cache
/// is invalidated.
pub proof fn lemma_fetch_once(cached: Set<CachedRequest>, request: CachedRequest)
    ensures
        cached.insert(request).contains(request),
        cached.insert(request).insert(request) == cached.insert(request),
{
    assert(cached.insert(request).insert(request) =~= cached.insert(request));
}


/// A cached request, asked for again and again with no invalidation in
/// between, is sent on the first call only: as it is for the modules and the
/// loaded sources of a client. `caches[i]` is the client's cached set before
/// call `i`, which sent the request when `sent[i]`, as `fetch` says.
pub proof fn lemma_requested_once(caches: Seq<Set<CachedRequest>>, sent: Seq<bool>, request: CachedRequest)
    requires
        caches.len() == sent.len() + 1,
        !caches[0].contains(request),
        forall|i: int| 0 <= i < sent.len() ==> ((#[trigger] sent[i]) == !caches[i].contains(request)) && caches[i + 1]
            == caches[i].insert(request),
    ensures
        sent.len() > 0 ==> sent[0],
        forall|i: int| 1 <= i < sent.len() ==> !#[trigger] sent[i],
{
    assert forall|i: int| 1 <= i < sent.len() implies !#[trigger] sent[i] by {
        let k = i - 1;
        assert(0 <= k < sent.len());
        assert(sent[k] == !caches[k].contains(request));
        assert(caches[k + 1] == caches[k].insert(request));
        assert(caches[i].contains(request));
    }
}

/// A session debugged on this machine, with its configuration.
pub struct LocalDebugSession {
    pub configuration: DebugAdapterConfig,
}

impl LocalDebugSession {
    /// The session's configuration.
    pub fn configuration(&self) -> (r: &DebugAdapterConfig)
        ensures
            r == &self.configuration,
    {
        &self.configuration
    }

    /// Replaces the session's configuration.
    pub fn update_configuration(&mut self, configuration: DebugAdapterConfig)
        ensures
            final(self).configuration == configuration,
    {
        self.configuration = configuration;
    }
}

/// A session of a shared project, debugged by its host.
pub struct RemoteDebugSession {
    pub label: String,
}

/// Where a session is debugged.
pub enum DebugSessionMode {
    Local(LocalDebugSession),
    Remote(RemoteDebugSession),
}

/// A debug session and the state of each of its clients.
pub struct DebugSession {
    id: DebugSessionId,
    mode: DebugSessionMode,
    states: Vec<ClientState>,
    ignore_breakpoints: bool,
}

impl DebugSession {
    #[verifier::type_invariant]
    closed spec fn inv(&self) -> bool {
        forall|i: int, j: int|
            0 <= i < j < self.states@.len() ==> self.states@[i].client_id != self.states@[j].client_id
    }

    pub closed spec fn session_id(&self) -> DebugSessionId {
        self.id
    }

    pub closed spec fn session_mode(&self) -> &DebugSessionMode {
        &self.mode
    }

    /// The ids of the session's clients.
    pub closed spec fn client_ids(&self) -> Set<DebugAdapterClientId> {
        Set::new(
            |id: DebugAdapterClientId|
                exists|i: int| 0 <= i < self.states@.len() && self.states@[i].client_id == id,
        )
    }

    pub closed spec fn ignores_breakpoints(&self) -> bool {
        self.ignore_breakpoints
    }

    /// A session debugged here, with no client and breakpoints honoured.
    pub fn new_local(id: DebugSessionId, configuration: DebugAdapterConfig) -> (r: Self)
        ensures
            r.session_id() == id,
            r.session_mode() matches DebugSessionMode::Local(l) && l.configuration == configuration,
            r.client_ids() == Set::<DebugAdapterClientId>::empty(),
            !r.ignores_breakpoints(),
    {
        let r = DebugSession {
            id,
            ignore_breakpoints: false,
            states: Vec::new(),
            mode: DebugSessionMode::Local(LocalDebugSession { configuration }),
        };
        assert(r.client_ids() =~= Set::<DebugAdapterClientId>::empty());
        r
    }

    /// A session of a shared project, with no client.
    pub fn new_remote(id: DebugSessionId, label: String, ignore_breakpoints: bool) -> (r: Self)
        ensures
            r.session_id() == id,
            r.session_mode() matches DebugSessionMode::Remote(remote) && remote.label == label,
            r.client_ids() == Set::<DebugAdapterClientId>::empty(),
            r.ignores_breakpoints() == ignore_breakpoints,
    {
        let r = DebugSession {
            id,
            ignore_breakpoints,
            states: Vec::new(),
            mode: DebugSessionMode::Remote(RemoteDebugSession { label }),
        };
        assert(r.client_ids() =~= Set::<DebugAdapterClientId>::empty());
        r
    }

    /// The local part of the session, when it is debugged here.
    pub fn as_local(&self) -> (r: Option<&LocalDebugSession>)
        ensures
            r == (match self.session_mode() {
                DebugSessionMode::Local(l) => Some(l),
                DebugSessionMode::Remote(_) => None,
            }),
    {
        match &self.mode {
            DebugSessionMode::Local(local) => Some(local),
            DebugSessionMode::Remote(_) => None,
        }
    }

    pub fn id(&self) -> (r: DebugSessionId)
        ensures
            r == self.session_id(),
    {
        self.id
    }

    /// The session's name: the label of its configuration, or of the remote
    /// session.
    pub fn name(&self) -> (r: String)
        ensures
            r == (match self.session_mode() {
                DebugSessionMode::Local(l) => l.configuration.label,
                DebugSessionMode::Remote(remote) => remote.label,
            }),
    {
        match &self.mode {
            DebugSessionMode::Local(local) => local.configuration.label.clone(),
            DebugSessionMode::Remote(remote) => remote.label.clone(),
        }
    }

    pub fn ignore_breakpoints(&self) -> (r: bool)
        ensures
            r == self.ignores_breakpoints(),
    {
        self.ignore_breakpoints
    }

    pub fn set_ignore_breakpoints(&mut self, ignore: bool)
        ensures
            final(self).ignores_breakpoints() == ignore,
            final(self).session_id() == old(self).session_id(),
            final(self).client_ids() == old(self).client_ids(),
    {
        proof {
            use_type_invariant(&*self);
        }
        self.ignore_breakpoints = ignore;
    }

    fn index_of_client(&self, client_id: DebugAdapterClientId) -> (r: Option<usize>)
        ensures
            match r {
                Some(i) => i < self.states.len() && self.states@[i as int].client_id == client_id
                    && self.client_ids().contains(client_id),
                None => !self.client_ids().contains(client_id),
            },
    {
        let mut i: usize = 0;
        while i < self.states.len()
            invariant
                i <= self.states.len(),
                forall|j: int| 0 <= j < i ==> self.states@[j].client_id != client_id,
            decreases self.states.len() - i,
        {
            if self.states[i].client_id == client_id {
                assert(self.client_ids().contains(client_id));
                return Some(i);
            }
            i += 1;
        }
        None
    }

    /// The id and mode of a client, when the session has it.
    pub closed spec fn client_state_spec(&self, client_id: DebugAdapterClientId) -> Option<
        (DebugAdapterClientId, ClientMode),
    > {
        if self.client_ids().contains(client_id) {
            let i = choose|i: int| 0 <= i < self.states@.len() && self.states@[i].client_id == client_id;
            Some((self.states@[i].client_id, self.states@[i].mode))
        } else {
            None
        }
    }

    /// Adds a client with a fresh state, unless the session has it already.
    pub fn add_client(&mut self, client_id: DebugAdapterClientId, mode: ClientMode)
        ensures
            final(self).client_ids() == old(self).client_ids().insert(client_id),
            final(self).session_id() == old(self).session_id(),
            final(self).ignores_breakpoints() == old(self).ignores_breakpoints(),
            !old(self).client_ids().contains(client_id) ==> final(self).client_state_spec(client_id)
                == Some((client_id, mode)),
    {
        proof {
            use_type_invariant(&*self);
        }
        match self.index_of_client(client_id) {
            Some(_) => {
                assert(self.client_ids().insert(client_id) =~= self.client_ids());
            },
            None => {
                let ghost before = self.states@;
                let ghost old_ids = self.client_ids();
                let mut states: Vec<ClientState> = Vec::new();
                std::mem::swap(&mut states, &mut self.states);
                states.push(ClientState::new(client_id, mode));
                assert(forall|j: int| 0 <= j < before.len() ==> before[j].client_id != client_id);
                self.states = states;
                let ghost n = before.len() as int;
                assert(self.states@[n].client_id == client_id);
                assert forall|x: DebugAdapterClientId| self.client_ids().contains(x) <==> old_ids.insert(
                    client_id,
                ).contains(x) by {
                    if self.client_ids().contains(x) {
                        let k = choose|k: int| 0 <= k < self.states@.len() && self.states@[k].client_id == x;
                        if k < n {
                            assert(before[k] == self.states@[k]);
                        }
                    }
                    if old_ids.contains(x) {
                        let k = choose|k: int| 0 <= k < before.len() && before[k].client_id == x;
                        assert(self.states@[k] == before[k]);
                    }
                }
                assert(self.client_ids() =~= old_ids.insert(client_id));
                assert(self.client_ids().contains(client_id));
                let ghost c = choose|i: int| 0 <= i < self.states@.len() && self.states@[i].client_id == client_id;
                assert(c == n) by {
                    if c < n {
                        assert(before[c] == self.states@[c]);
                    }
                }
            },
        }
    }

    /// The state of a client the session has.
    pub closed spec fn client_state_of(&self, client_id: DebugAdapterClientId) -> ClientState {
        let i = choose|i: int| 0 <= i < self.states@.len() && self.states@[i].client_id == client_id;
        self.states@[i]
    }

    /// The state of a client, when the session has it.
    pub fn client_state(&self, client_id: DebugAdapterClientId) -> (r: Option<&ClientState>)
        ensures
            r is Some <==> self.client_ids().contains(client_id),
            r matches Some(c) ==> c.client_id == client_id && *c == self.client_state_of(client_id),
    {
        proof {
            use_type_invariant(self);
        }
        match self.index_of_client(client_id) {
            Some(i) => {
                proof {
                    let k = choose|k: int| 0 <= k < self.states@.len() && self.states@[k].client_id == client_id;
                    assert(k == i);
                }
                Some(&self.states[i])
            },
            None => None,
        }
    }

    /// The modules a client reported; none when the session has no such
    /// client.
    pub closed spec fn client_modules(&self, client_id: DebugAdapterClientId) -> Seq<Module> {
        if self.client_ids().contains(client_id) {
            let i = choose|i: int| 0 <= i < self.states@.len() && self.states@[i].client_id == client_id;
            self.states@[i].module_list()
        } else {
            Seq::empty()
        }
    }

    /// Applies a module event to a client's modules and gives how many it
    /// has then; nothing when the session has no such client.
    pub fn on_module_event(&mut self, client_id: DebugAdapterClientId, event: &dap::ModuleEvent) -> (r: Option<usize>)
        ensures
            final(self).client_ids() == old(self).client_ids(),
            final(self).session_id() == old(self).session_id(),
            final(self).ignores_breakpoints() == old(self).ignores_breakpoints(),
            old(self).client_ids().contains(client_id) ==> final(self).client_modules(client_id)
                == modules_after_event(old(self).client_modules(client_id), *event) && r == Some(
                final(self).client_modules(client_id).len() as usize,
            ),
            !old(self).client_ids().contains(client_id) ==> r is None && final(self).client_modules(client_id)
                == old(self).client_modules(client_id),
    {
        proof {
            use_type_invariant(&*self);
        }
        match self.index_of_client(client_id) {
            None => None,
            Some(i) => {
                let ghost before = self.states@;
                let ghost old_ids = self.client_ids();
                proof {
                    let c = choose|k: int| 0 <= k < before.len() && before[k].client_id == client_id;
                    assert(c == i);
                }
                let mut states: Vec<ClientState> = Vec::new();
                std::mem::swap(&mut states, &mut self.states);
                let mut state = states.remove(i);
                state.handle_module_event(event);
                let count = state.modules.len();
                states.insert(i, state);
                self.states = states;
                proof {
                    assert forall|k: int| 0 <= k < self.states@.len() implies #[trigger] self.states@[k].client_id
                        == before[k].client_id by {
                    }
                    assert forall|x: DebugAdapterClientId| self.client_ids().contains(x) <==> old_ids.contains(x) by {
                        if self.client_ids().contains(x) {
                            let k = choose|k: int| 0 <= k < self.states@.len() && self.states@[k].client_id == x;
                            assert(before[k].client_id == x);
                        }
                        if old_ids.contains(x) {
                            let k = choose|k: int| 0 <= k < before.len() && before[k].client_id == x;
                            assert(self.states@[k].client_id == x);
                        }
                    }
                    assert(self.client_ids() =~= old_ids);
                    let c = choose|k: int| 0 <= k < self.states@.len() && self.states@[k].client_id == client_id;
                    assert(c == i);
                }
                Some(count)
            },
        }
    }

    /// Removes a client and hands back its state; nothing when the session
    /// has no such client.
    pub fn remove_client(&mut self, client_id: DebugAdapterClientId) -> (r: Option<ClientState>)
        ensures
            final(self).client_ids() == old(self).client_ids().remove(client_id),
            r is Some <==> old(self).client_ids().contains(client_id),
            r matches Some(state) ==> state.client_id == client_id,
            final(self).session_id() == old(self).session_id(),
            final(self).ignores_breakpoints() == old(self).ignores_breakpoints(),
    {
        proof {
            use_type_invariant(&*self);
        }
        match self.index_of_client(client_id) {
            Some(i) => {
                let ghost before = self.states@;
                let ghost old_ids = self.client_ids();
                let mut states: Vec<ClientState> = Vec::new();
                std::mem::swap(&mut states, &mut self.states);
                let state = states.remove(i);
                assert(forall|k: int| 0 <= k < states@.len() ==> #[trigger] states@[k] == (if k < i {
                    before[k]
                } else {
                    before[k + 1]
                }));
                self.states = states;
                assert forall|x: DebugAdapterClientId| self.client_ids().contains(x) <==> old_ids.remove(
                    client_id,
                ).contains(x) by {
                    if self.client_ids().contains(x) {
                        let k = choose|k: int| 0 <= k < self.states@.len() && self.states@[k].client_id == x;
                        if k < i {
                            assert(before[k].client_id == x);
                        } else {
                            assert(before[k + 1].client_id == x);
                        }
                    }
                    if old_ids.contains(x) && x != client_id {
                        let k = choose|k: int| 0 <= k < before.len() && before[k].client_id == x;
                        assert(k != i);
                        if k < i {
                            assert(self.states@[k] == before[k]);
                        } else {
                            assert(self.states@[k - 1] == before[k]);
                        }
                    }
                }
                assert(self.client_ids() =~= old_ids.remove(client_id));
                Some(state)
            },
            None => {
                assert(self.client_ids().remove(client_id) =~= self.client_ids());
                None
            },
        }
    }

    /// Removes a client and gives the request that ends its session; nothing
    /// when the session has no such client.
    pub fn shutdown_client(&mut self, client_id: DebugAdapterClientId) -> (r: Option<SessionRequest>)
        ensures
            final(self).client_ids() == old(self).client_ids().remove(client_id),
            r is Some <==> old(self).client_ids().contains(client_id),
            final(self).session_id() == old(self).session_id(),
            final(self).ignores_breakpoints() == old(self).ignores_breakpoints(),
    {
        match self.remove_client(client_id) {
            Some(state) => Some(state.shutdown()),
            None => None,
        }
    }

    /// The ids of the session's clients, each once.
    pub fn clients(&self) -> (r: Vec<DebugAdapterClientId>)
        ensures
            r@.no_duplicates(),
            r@.to_set() == self.client_ids(),
    {
        proof {
            use_type_invariant(self);
        }
        let mut out: Vec<DebugAdapterClientId> = Vec::new();
        let mut i: usize = 0;
        while i < self.states.len()
            invariant
                i <= self.states.len(),
                forall|a: int, b: int|
                    0 <= a < b < self.states@.len() ==> self.states@[a].client_id != self.states@[b].client_id,
                out@ == self.states@.take(i as int).map_values(|c: ClientState| c.client_id),
            decreases self.states.len() - i,
        {
            out.push(self.states[i].client_id);
            assert(self.states@.take(i as int + 1).map_values(|c: ClientState| c.client_id) =~= self.states@.take(
                i as int,
            ).map_values(|c: ClientState| c.client_id).push(self.states@[i as int].client_id));
            i += 1;
        }
        assert(self.states@.take(self.states.len() as int) =~= self.states@);
        assert forall|x: DebugAdapterClientId| out@.to_set().contains(x) <==> self.client_ids().contains(x) by {
            if self.client_ids().contains(x) {
                let k = choose|k: int| 0 <= k < self.states@.len() && self.states@[k].client_id == x;
                assert(out@[k] == x);
            }
        }
        assert(out@.to_set() =~= self.client_ids());
        out
    }

    /// How many clients the session has.
    pub fn clients_len(&self) -> (r: usize)
        ensures
            r == self.client_ids().len(),
    {
        proof {
            use_type_invariant(self);
        }
        let ids = self.clients();
        proof {
            ids@.unique_seq_to_set();
        }
        ids.len()
    }

    /// The id of a client, when the session has it.
    pub fn client_by_id(&self, client_id: DebugAdapterClientId) -> (r: Option<DebugAdapterClientId>)
        ensures
            r == (if self.client_ids().contains(client_id) {
                Some(client_id)
            } else {
                None
            }),
    {
        match self.index_of_client(client_id) {
            Some(_) => Some(client_id),
            None => None,
        }
    }

    /// The request that ends the session of each client, with the client's
    /// id, one per client.
    pub fn shutdown_clients(&self) -> (r: Vec<(DebugAdapterClientId, SessionRequest)>)
        ensures
            r@.map_values(|p: (DebugAdapterClientId, SessionRequest)| p.0).no_duplicates(),
            r@.map_values(|p: (DebugAdapterClientId, SessionRequest)| p.0).to_set() == self.client_ids(),
            forall|i: int| 0 <= i < r@.len() ==> (#[trigger] r@[i]).1 == end_request(
                self.client_state_of(r@[i].0).capabilities,
            ),
    {
        proof {
            use_type_invariant(self);
        }
        let mut out: Vec<(DebugAdapterClientId, SessionRequest)> = Vec::new();
        let mut i: usize = 0;
        while i < self.states.len()
            invariant
                i <= self.states.len(),
                forall|a: int, b: int|
                    0 <= a < b < self.states@.len() ==> self.states@[a].client_id != self.states@[b].client_id,
                out@.map_values(|p: (DebugAdapterClientId, SessionRequest)| p.0) == self.states@.take(
                    i as int,
                ).map_values(|c: ClientState| c.client_id),
                forall|k: int| 0 <= k < out@.len() ==> (#[trigger] out@[k]).1 == end_request(
                    self.client_state_of(out@[k].0).capabilities,
                ),
            decreases self.states.len() - i,
        {
            let id = self.states[i].client_id;
            let request = self.states[i].shutdown();
            proof {
                let c = choose|c: int| 0 <= c < self.states@.len() && self.states@[c].client_id == id;
                assert(c == i);
            }
            let ghost before = out@;
            out.push((id, request));
            assert(out@.map_values(|p: (DebugAdapterClientId, SessionRequest)| p.0) =~= before.map_values(
                |p: (DebugAdapterClientId, SessionRequest)| p.0,
            ).push(id));
            assert(self.states@.take(i as int + 1).map_values(|c: ClientState| c.client_id) =~= self.states@.take(
                i as int,
            ).map_values(|c: ClientState| c.client_id).push(id));
            assert forall|k: int| 0 <= k < out@.len() implies (#[trigger] out@[k]).1 == end_request(
                self.client_state_of(out@[k].0).capabilities,
            ) by {
                if k < before.len() {
                    assert(out@[k] == before[k]);
                }
            }
            i += 1;
        }
        assert(self.states@.take(self.states.len() as int) =~= self.states@);
        let ghost ids = self.states@.map_values(|c: ClientState| c.client_id);
        assert forall|x: DebugAdapterClientId| ids.to_set().contains(x) <==> self.client_ids().contains(x) by {
            if self.client_ids().contains(x) {
                let k = choose|k: int| 0 <= k < self.states@.len() && self.states@[k].client_id == x;
                assert(ids[k] == x);
            }
        }
        assert(ids.to_set() =~= self.client_ids());
        out
    }
}

} // verus!
