//! How a debug adapter is configured: how to connect to it and which request
//! starts the debuggee.
use vstd::prelude::*;
use crate::tasks::TaskTemplate;

verus! {

/// An IPv4 address, octet by octet.
#[derive(Clone, Copy, Debug, PartialEq, Eq, Structural)]
pub struct Ipv4Address {
    pub a: u8,
    pub b: u8,
    pub c: u8,
    pub d: u8,
}

/// Where a debug adapter listens for a TCP connection.
#[derive(Clone, Copy, Debug, PartialEq, Eq, Structural)]
pub struct TCPHost {
    /// The port the adapter listens on; a free one is picked when missing.
    pub port: Option<u16>,
    /// The adapter's IPv4 address as four octets; localhost when missing.
    pub host: Option<Ipv4Address>,
    /// How long to wait, in milliseconds, between starting the adapter and
    /// connecting to it.
    pub delay: Option<u64>,
}

impl Default for TCPHost {
    fn default() -> (r: Self)
        ensures
            r.port is None && r.host is None && r.delay is None,
    {
        TCPHost { port: None, host: None, delay: None }
    }
}

impl TCPHost {
    /// The address to connect to: the configured one, or localhost.
    pub open spec fn spec_host(&self) -> Ipv4Address {
        match self.host {
            Some(h) => h,
            None => Ipv4Address { a: 127u8, b: 0u8, c: 0u8, d: 1u8 },
        }
    }

    /// The address to connect to: the configured one, or localhost.
    pub fn host(&self) -> (r: Ipv4Address)
        ensures
            r == self.spec_host(),
    {
        match self.host {
            Some(h) => h,
            None => Ipv4Address { a: 127, b: 0, c: 0, d: 1 },
        }
    }
}

/// How the debugger talks to the adapter.
#[derive(Clone, Copy, Debug, PartialEq, Eq, Structural)]
pub enum DebugConnectionType {
    TCP(TCPHost),
    STDIO,
}

impl Default for DebugConnectionType {
    /// A TCP connection with nothing configured.
    fn default() -> (r: Self)
        ensures
            r == DebugConnectionType::TCP(TCPHost { port: None, host: None, delay: None }),
    {
        DebugConnectionType::TCP(TCPHost { port: None, host: None, delay: None })
    }
}

/// The request that starts the debuggee.
#[derive(Clone, Copy, Debug, PartialEq, Eq, Structural)]
pub enum DebugRequestType {
    Launch,
    Attach,
}

impl Default for DebugRequestType {
    fn default() -> (r: Self)
        ensures
            r == DebugRequestType::Launch,
    {
        DebugRequestType::Launch
    }
}

/// The configuration of a debug session.
#[derive(Clone, Debug, PartialEq)]
pub struct DebugAdapterConfig {
    /// The name shown for the session.
    pub label: String,
    /// The id of the adapter, sent in the `initialize` request.
    pub id: String,
    pub connection: DebugConnectionType,
    pub request: DebugRequestType,
    /// The program to debug.
    pub program: Option<String>,
    /// The working directory of the program.
    pub cwd: Option<String>,
}

/// The adapter a debug task runs.
#[derive(Clone, Copy, Debug, PartialEq, Eq, Structural)]
pub enum DebugAdapterKind {
    Custom,
}

/// A debug task as a task file defines it.
#[derive(Clone, Debug, PartialEq)]
pub struct DebugTaskDefinition {
    /// The name of the task.
    pub label: String,
    /// The program to debug.
    pub program: String,
    /// Where the adapter is.
    pub adapter_path: String,
    /// Whether the adapter launches or attaches.
    pub session_type: DebugRequestType,
    /// The adapter to run.
    pub adapter: DebugAdapterKind,
}

/// Why a debug task could not be made a task template.
#[derive(Clone, Copy, Debug, PartialEq, Eq, Structural)]
pub enum DebugTaskError {
    /// Debug tasks are not turned into task templates yet.
    NotYetImplemented,
}

impl DebugTaskDefinition {
    /// The task template of a debug task: not made yet, for any task.
    pub fn to_zed_format(self) -> (r: Result<TaskTemplate, DebugTaskError>)
        ensures
            r == Err::<TaskTemplate, DebugTaskError>(DebugTaskError::NotYetImplemented),
    {
        Err(DebugTaskError::NotYetImplemented)
    }
}

/// The debug tasks of a file.
#[derive(Clone, Debug, PartialEq)]
pub struct DebugTaskFile(pub Vec<DebugTaskDefinition>);

/// Task templates.
#[derive(Clone, Debug, PartialEq)]
pub struct TaskTemplates(pub Vec<TaskTemplate>);

impl TaskTemplates {
    /// The templates of the debug tasks of a file: each task that becomes a
    /// template, in order; the others are left out. As no debug task becomes
    /// a template yet, there are none.
    pub fn from_debug_tasks(file: DebugTaskFile) -> (r: Self)
        ensures
            r.0@.len() == 0,
    {
        let mut templates: Vec<TaskTemplate> = Vec::new();
        let mut tasks = file.0;
        while tasks.len() > 0
            invariant
                templates@.len() == 0,
            decreases tasks.len(),
        {
            let task = tasks.remove(0);
            match task.to_zed_format() {
                Ok(template) => templates.push(template),
                Err(_) => {},
            }
        }
        TaskTemplates(templates)
    }
}

} // verus!
