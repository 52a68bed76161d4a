//! Debug adapters: their names, where they are downloaded from, how their
//! binaries are started and the arguments of the request that starts the
//! debuggee.
use vstd::prelude::*;
use vstd::string::*;
use crate::debug_format::{DebugAdapterConfig, DebugRequestType, Ipv4Address, TCPHost};
use crate::text::{decimal, decimal_string, dotted, dotted_string};
use crate::file_finder::{starts_with, trim, trimmed};
use crate::install::{utf8_decoded, utf8_text};

verus! {

/// The name of a debug adapter; it also names the adapter's directory.
#[derive(Clone, Debug, PartialEq)]
pub struct DebugAdapterName(pub String);

impl DebugAdapterName {
    /// The name as text.
    pub fn to_string(&self) -> (r: String)
        ensures
            r@ == self.0@,
    {
        self.0.clone()
    }
}

/// A repository on GitHub.
#[derive(Clone, Debug, PartialEq)]
pub struct GithubRepo {
    pub repo_name: String,
    pub repo_owner: String,
}

impl GithubRepo {
    /// `owner/name`, as GitHub names a repository.
    pub fn repo_name_with_owner(&self) -> (r: String)
        ensures
            r@ == self.repo_owner@ + "/"@ + self.repo_name@,
    {
        let mut r = self.repo_owner.clone();
        r.append("/");
        r.append(self.repo_name.as_str());
        r
    }
}

/// Where a debug adapter comes from.
#[derive(Clone, Debug, PartialEq)]
pub enum DebugAdapterDownloadKind {
    Github(GithubRepo),
    Custom,
}

/// How to start a debug adapter.
#[derive(Clone, Debug, PartialEq)]
pub struct DebugAdapterBinary {
    pub command: String,
    pub arguments: Option<Vec<String>>,
    pub envs: Option<Vec<(String, String)>>,
    pub cwd: Option<String>,
}

/// A value of the arguments of a launch or attach request.
#[derive(Clone, Debug, PartialEq)]
pub enum ArgValue {
    Null,
    Bool(bool),
    Number(u64),
    Text(String),
}

/// The arguments of a launch or attach request: a JSON object, field by
/// field, in order.
#[derive(Clone, Debug, PartialEq)]
pub struct RequestArgs {
    pub fields: Vec<(String, ArgValue)>,
}

/// An optional text as an argument value: `null` when missing.
pub open spec fn opt_text_arg(s: Option<String>) -> ArgValue {
    match s {
        Some(t) => ArgValue::Text(t),
        None => ArgValue::Null,
    }
}

fn opt_text_arg_exec(s: &Option<String>) -> (r: ArgValue)
    ensures
        r == opt_text_arg(*s),
{
    match s {
        Some(t) => ArgValue::Text(t.clone()),
        None => ArgValue::Null,
    }
}

fn field(name: &str, value: ArgValue) -> (r: (String, ArgValue))
    ensures
        r.0@ == name@,
        r.1 == value,
{
    (String::from_str(name), value)
}

/// A path joined with a relative path, as a Unix path is extended: no
/// separator is added after an empty path or after a trailing separator.
pub open spec fn join_path(base: Seq<char>, relative: Seq<char>) -> Seq<char> {
    if base.len() == 0 {
        relative
    } else if base.last() == '/' {
        base + relative
    } else {
        base + "/"@ + relative
    }
}

/// Joins a relative path to a path.
pub fn join(base: &String, relative: &str) -> (r: String)
    ensures
        r@ == join_path(base@, relative@),
{
    let n = base.as_str().unicode_len();
    if n == 0 {
        String::from_str(relative)
    } else {
        let mut out = base.clone();
        if base.as_str().get_char(n - 1) != '/' {
            out.append("/");
        }
        out.append(relative);
        proof {
            reveal_strlit("/");
        }
        out
    }
}

/// The LLDB debug adapter.
#[derive(Clone, Debug, PartialEq)]
pub struct LldbDebugAdapter {}

impl LldbDebugAdapter {
    /// The adapter; it has no settings.
    pub fn new() -> (r: Self)
        ensures
            r == (LldbDebugAdapter {  }),
    {
        LldbDebugAdapter {  }
    }

    /// `lldb`.
    pub fn name(&self) -> (r: DebugAdapterName)
        ensures
            r.0@ == "lldb"@,
    {
        DebugAdapterName(String::from_str("lldb"))
    }

    /// The adapter is released with LLVM.
    pub fn download_kind(&self) -> (r: DebugAdapterDownloadKind)
        ensures
            r matches DebugAdapterDownloadKind::Github(repo) && repo.repo_name@ == "llvm-project"@
                && repo.repo_owner@ == "llvm"@,
    {
        DebugAdapterDownloadKind::Github(
            GithubRepo {
                repo_name: String::from_str("llvm-project"),
                repo_owner: String::from_str("llvm"),
            },
        )
    }

    /// The binary `xcrun -f lldb-dap` points at, given what it printed: the
    /// printed path without surrounding whitespace, run with no arguments.
    pub fn fetch_binary(&self, xcrun_stdout: Vec<u8>) -> (r: Result<DebugAdapterBinary, BinaryError>)
        ensures
            match utf8_decoded(xcrun_stdout@) {
                Some(text) => r matches Ok(b) && b.command@ == trimmed(text) && b.arguments is None
                    && b.envs is None && b.cwd is None,
                None => r == Err::<DebugAdapterBinary, BinaryError>(BinaryError::NotUtf8),
            },
    {
        match utf8_text(xcrun_stdout) {
            Some(text) => Ok(DebugAdapterBinary { command: trim(text.as_str()), arguments: None, envs: None, cwd: None }),
            None => Err(BinaryError::NotUtf8),
        }
    }

    /// `{"program": <program>}`.
    pub fn request_args(&self, config: &DebugAdapterConfig) -> (r: RequestArgs)
        ensures
            r.fields@.len() == 1,
            r.fields@[0].0@ == "program"@,
            r.fields@[0].1 == opt_text_arg(config.program),
    {
        RequestArgs { fields: vec![field("program", opt_text_arg_exec(&config.program))] }
    }
}

/// A process that a debugger may attach to.
#[derive(Debug, PartialEq)]
pub struct ProcessEntry {
    pub pid: u32,
    pub name: String,
}

impl Clone for ProcessEntry {
    fn clone(&self) -> (r: Self)
        ensures
            r == *self,
    {
        ProcessEntry { pid: self.pid, name: self.name.clone() }
    }
}

/// What `regex::Regex` decides: `None` when the pattern does not compile,
/// otherwise whether the pattern matches somewhere in the haystack.
pub uninterp spec fn regex_match(pattern: Seq<char>, haystack: Seq<char>) -> Option<bool>;

/// Compiles `pattern` with `regex::Regex::new` and, when it compiles, asks
/// `regex::Regex::is_match` about `haystack`; the result is a function of
/// the two texts alone.
#[verifier::external_body]
fn regex_is_match(pattern: &str, haystack: &str) -> (r: Option<bool>)
    ensures
        r == regex_match(pattern@, haystack@),
{
    match regex::Regex::new(pattern) {
        Ok(re) => Some(re.is_match(haystack)),
        Err(_) => None,
    }
}

/// The pattern of the names of Python interpreters.
pub open spec fn python_process_pattern() -> Seq<char> {
    "(?i)^(?:python3|python|py)(?:$|\\b)"@
}

/// Whether a process name is that of a Python interpreter.
pub open spec fn is_python_process(name: Seq<char>) -> bool {
    regex_match(python_process_pattern(), name) == Some(true)
}

/// The processes whose name is that of a Python interpreter, in order.
pub open spec fn python_processes(processes: Seq<ProcessEntry>) -> Seq<ProcessEntry>
    decreases processes.len(),
{
    if processes.len() == 0 {
        processes
    } else if is_python_process(processes.last().name@) {
        python_processes(processes.drop_last()).push(processes.last())
    } else {
        python_processes(processes.drop_last())
    }
}

/// The Python debug adapter, debugpy, reached over TCP.
#[derive(Clone, Debug, PartialEq)]
pub struct PythonDebugAdapter {
    pub port: u16,
    pub host: Ipv4Address,
    pub timeout: Option<u64>,
}

impl PythonDebugAdapter {
    /// The adapter at the configured address (localhost when missing), on
    /// the given port.
    pub fn new(host: &TCPHost, port: u16) -> (r: Self)
        ensures
            r.port == port,
            r.host == host.spec_host(),
            r.timeout == host.delay,
    {
        PythonDebugAdapter { port, host: host.host(), timeout: host.delay }
    }

    /// `debugpy`.
    pub fn name(&self) -> (r: DebugAdapterName)
        ensures
            r.0@ == "debugpy"@,
    {
        DebugAdapterName(String::from_str("debugpy"))
    }

    /// `Python`.
    pub fn language_name(&self) -> (r: String)
        ensures
            r@ == "Python"@,
    {
        String::from_str("Python")
    }

    /// debugpy is released by Microsoft.
    pub fn github_repo(&self) -> (r: GithubRepo)
        ensures
            r.repo_name@ == "debugpy"@,
            r.repo_owner@ == "microsoft"@,
    {
        GithubRepo { repo_name: String::from_str("debugpy"), repo_owner: String::from_str("microsoft") }
    }

    /// The interpreter to start the adapter with: the toolchain's, else the
    /// first interpreter found on the path.
    pub fn python_command(toolchain: Option<String>, found: Vec<Option<String>>) -> (r: Option<String>)
        ensures
            toolchain is Some ==> r == toolchain,
            toolchain is None ==> r == first_found(found@),
    {
        match toolchain {
            Some(path) => Some(path),
            None => {
                let mut i: usize = 0;
                while i < found.len()
                    invariant
                        toolchain is None,
                        i <= found.len(),
                        forall|j: int| 0 <= j < i ==> found@[j] is None,
                    decreases found.len() - i,
                {
                    if let Some(path) = &found[i] {
                        proof {
                            lemma_first_found(found@, i as int);
                        }
                        return Some(path.clone());
                    }
                    i += 1;
                }
                proof {
                    lemma_first_found(found@, i as int);
                }
                None
            },
        }
    }

    /// Starts the adapter of `debugpy_dir` with `python`, listening on the
    /// adapter's host and port.
    pub fn binary(&self, python: String, debugpy_dir: &String, config: &DebugAdapterConfig) -> (r:
        DebugAdapterBinary)
        ensures
            r.command == python,
            r.arguments matches Some(args) && args@.len() == 3 && args@[0]@ == join_path(
                debugpy_dir@,
                "src/debugpy/adapter"@,
            ) && args@[1]@ == "--port="@ + decimal(self.port as nat) && args@[2]@ == "--host="@
                + dotted(self.host),
            r.cwd == config.cwd,
            r.envs is None,
    {
        let mut port = String::from_str("--port=");
        port.append(decimal_string(self.port as u64).as_str());
        let mut host = String::from_str("--host=");
        host.append(dotted_string(self.host).as_str());
        let args = vec![join(debugpy_dir, "src/debugpy/adapter"), port, host];
        DebugAdapterBinary {
            command: python,
            arguments: Some(args),
            cwd: crate::dap::clone_opt_string(&config.cwd),
            envs: None,
        }
    }

    /// The adapter binary installed here: debugpy from the directory the
    /// user gave, else from the first entry of the adapter's directory under
    /// `adapters_dir` (listed as `entries`) named `debugpy_…`, run with the
    /// toolchain's interpreter or the first one found on the path
    /// (`found`).
    pub fn get_installed_binary(
        &self,
        user_installed_path: Option<String>,
        adapters_dir: &String,
        entries: &Vec<String>,
        toolchain: Option<String>,
        found: Vec<Option<String>>,
        config: &DebugAdapterConfig,
    ) -> (r: Result<DebugAdapterBinary, BinaryError>)
        ensures
            ({
                let dir = match user_installed_path {
                    Some(p) => Some(p@),
                    None => match first_with_prefix(entries@, "debugpy_"@) {
                        Some(i) => Some(join_path(join_path(adapters_dir@, "debugpy"@), entries@[i]@)),
                        None => None,
                    },
                };
                let python = if toolchain is Some {
                    toolchain
                } else {
                    first_found(found@)
                };
                match (dir, python) {
                    (None, _) => r == Err::<DebugAdapterBinary, BinaryError>(BinaryError::DebugpyNotFound),
                    (Some(_), None) => r == Err::<DebugAdapterBinary, BinaryError>(BinaryError::PythonNotFound),
                    (Some(d), Some(p)) => r matches Ok(b) && debugpy_binary(b, p, d, *self, *config),
                }
            }),
    {
        let dir = match user_installed_path {
            Some(p) => p,
            None => {
                let adapter_dir = join(adapters_dir, "debugpy");
                let prefix = String::from_str("debugpy_");
                proof {
                    reveal_strlit("debugpy_");
                }
                match find_file_name_in_dir(&adapter_dir, entries, &prefix) {
                    Some(d) => d,
                    None => return Err(BinaryError::DebugpyNotFound),
                }
            },
        };
        let python = match PythonDebugAdapter::python_command(toolchain, found) {
            Some(p) => p,
            None => return Err(BinaryError::PythonNotFound),
        };
        Ok(self.binary(python, &dir, config))
    }

    /// `{"request": "launch" | "attach", "processId": <pid>, "program":
    /// <program>, "subProcess": true, "cwd": <cwd>}`; the process id is
    /// sent only when the request attaches, `null` otherwise.
    pub fn request_args(&self, config: &DebugAdapterConfig, process_id: Option<u32>) -> (r: RequestArgs)
        ensures
            r.fields@.len() == 5,
            r.fields@[0].0@ == "request"@,
            r.fields@[0].1 matches ArgValue::Text(t) && t@ == (if config.request is Launch {
                "launch"@
            } else {
                "attach"@
            }),
            r.fields@[1].0@ == "processId"@,
            r.fields@[1].1 == (if config.request is Attach {
                match process_id {
                    Some(p) => ArgValue::Number(p as u64),
                    None => ArgValue::Null,
                }
            } else {
                ArgValue::Null
            }),
            r.fields@[2].0@ == "program"@,
            r.fields@[2].1 == opt_text_arg(config.program),
            r.fields@[3].0@ == "subProcess"@,
            r.fields@[3].1 == ArgValue::Bool(true),
            r.fields@[4].0@ == "cwd"@,
            r.fields@[4].1 == opt_text_arg(config.cwd),
    {
        let request = match config.request {
            DebugRequestType::Launch => String::from_str("launch"),
            DebugRequestType::Attach => String::from_str("attach"),
        };
        let pid = match (config.request, process_id) {
            (DebugRequestType::Attach, Some(p)) => ArgValue::Number(p as u64),
            _ => ArgValue::Null,
        };
        RequestArgs {
            fields: vec![
                field("request", ArgValue::Text(request)),
                field("processId", pid),
                field("program", opt_text_arg_exec(&config.program)),
                field("subProcess", ArgValue::Bool(true)),
                field("cwd", opt_text_arg_exec(&config.cwd)),
            ],
        }
    }

    /// The processes a Python debugger can attach to: those whose name is
    /// that of a Python interpreter, in order.
    pub fn attach_processes(&self, processes: &Vec<ProcessEntry>) -> (r: Vec<ProcessEntry>)
        ensures
            r@ == python_processes(processes@),
    {
        let mut out: Vec<ProcessEntry> = Vec::new();
        let mut i: usize = 0;
        while i < processes.len()
            invariant
                i <= processes.len(),
                out@ == python_processes(processes@.take(i as int)),
            decreases processes.len() - i,
        {
            assert(processes@.take(i as int + 1).drop_last() =~= processes@.take(i as int));
            assert(processes@.take(i as int + 1).last() == processes@[i as int]);
            let m = regex_is_match("(?i)^(?:python3|python|py)(?:$|\\b)", processes[i].name.as_str());
            if m == Some(true) {
                out.push(processes[i].clone());
            }
            i += 1;
        }
        assert(processes@.take(processes.len() as int) =~= processes@);
        out
    }
}

/// The first found value of a sequence, if any.
pub open spec fn first_found(s: Seq<Option<String>>) -> Option<String>
    decreases s.len(),
{
    if s.len() == 0 {
        None
    } else if s[0] is Some {
        s[0]
    } else {
        first_found(s.skip(1))
    }
}

proof fn lemma_first_found(s: Seq<Option<String>>, i: int)
    requires
        0 <= i <= s.len(),
        forall|j: int| 0 <= j < i ==> s[j] is None,
    ensures
        i < s.len() && s[i] is Some ==> first_found(s) == s[i],
        i == s.len() ==> first_found(s) is None,
    decreases i,
{
    if i > 0 {
        let t = s.skip(1);
        assert forall|j: int| 0 <= j < i - 1 implies t[j] is None by {
            assert(t[j] == s[j + 1]);
        }
        lemma_first_found(t, i - 1);
        if i < s.len() {
            assert(t[i - 1] == s[i]);
        }
    }
}

/// The Go debug adapter, Delve, reached over TCP.
#[derive(Clone, Debug, PartialEq)]
pub struct GoDebugAdapter {
    pub port: u16,
    pub host: Ipv4Address,
    pub timeout: Option<u64>,
}

/// Why an adapter binary could not be found.
#[derive(Clone, Debug, PartialEq)]
pub enum BinaryError {
    /// `dlv` is not on the path.
    DelveNotFound,
    /// No debugpy directory was installed or given.
    DebugpyNotFound,
    /// Neither a toolchain nor the path has a Python interpreter.
    PythonNotFound,
    /// The path `xcrun` gave for `lldb-dap` is not UTF-8.
    NotUtf8,
    /// `lldb-dap` is only looked up on macOS.
    LldbDapUnsupported,
}

/// Whether `b` starts `dlv dap --listen <host>:<port>` from `path` in the
/// configured working directory.
pub open spec fn delve_binary(
    b: DebugAdapterBinary,
    path: String,
    adapter: GoDebugAdapter,
    config: DebugAdapterConfig,
) -> bool {
    &&& b.command == path
    &&& b.arguments is Some
    &&& b.arguments->0@.len() == 3
    &&& b.arguments->0@[0]@ == "dap"@
    &&& b.arguments->0@[1]@ == "--listen"@
    &&& b.arguments->0@[2]@ == dotted(adapter.host) + ":"@ + decimal(adapter.port as nat)
    &&& b.cwd == config.cwd
    &&& b.envs is None
}

impl GoDebugAdapter {
    /// The adapter at the configured address (localhost when missing), on
    /// the given port.
    pub fn new(host: &TCPHost, port: u16) -> (r: Self)
        ensures
            r.port == port,
            r.host == host.spec_host(),
            r.timeout == host.delay,
    {
        GoDebugAdapter { port, host: host.host(), timeout: host.delay }
    }

    /// `delve`.
    pub fn name(&self) -> (r: DebugAdapterName)
        ensures
            r.0@ == "delve"@,
    {
        DebugAdapterName(String::from_str("delve"))
    }

    /// Starts `dlv dap --listen <host>:<port>`, given where `dlv` was found
    /// on the path.
    pub fn installed_binary(&self, delve_path: Option<String>, config: &DebugAdapterConfig) -> (r: Result<
        DebugAdapterBinary,
        BinaryError,
    >)
        ensures
            delve_path is None ==> r == Err::<DebugAdapterBinary, BinaryError>(BinaryError::DelveNotFound),
            delve_path matches Some(p) ==> (r matches Ok(b) && delve_binary(b, p, *self, *config)),
    {
        match delve_path {
            None => Err(BinaryError::DelveNotFound),
            Some(command) => {
                let mut listen = dotted_string(self.host);
                listen.append(":");
                listen.append(decimal_string(self.port as u64).as_str());
                Ok(
                    DebugAdapterBinary {
                        command,
                        arguments: Some(vec![String::from_str("dap"), String::from_str("--listen"), listen]),
                        cwd: crate::dap::clone_opt_string(&config.cwd),
                        envs: None,
                    },
                )
            },
        }
    }

    /// `{"program": <program>, "cwd": <cwd>, "subProcess": true}`.
    pub fn request_args(&self, config: &DebugAdapterConfig) -> (r: RequestArgs)
        ensures
            r.fields@.len() == 3,
            r.fields@[0].0@ == "program"@,
            r.fields@[0].1 == opt_text_arg(config.program),
            r.fields@[1].0@ == "cwd"@,
            r.fields@[1].1 == opt_text_arg(config.cwd),
            r.fields@[2].0@ == "subProcess"@,
            r.fields@[2].1 == ArgValue::Bool(true),
    {
        RequestArgs {
            fields: vec![
                field("program", opt_text_arg_exec(&config.program)),
                field("cwd", opt_text_arg_exec(&config.cwd)),
                field("subProcess", ArgValue::Bool(true)),
            ],
        }
    }
}

/// The index of the first name of a listing that starts with `prefix`.
pub open spec fn first_with_prefix(names: Seq<String>, prefix: Seq<char>) -> Option<int>
    decreases names.len(),
{
    if names.len() == 0 {
        None
    } else if first_with_prefix(names.drop_last(), prefix) is None && prefix.is_prefix_of(names.last()@) {
        Some(names.len() - 1)
    } else {
        first_with_prefix(names.drop_last(), prefix)
    }
}

proof fn lemma_first_with_prefix_extends(names: Seq<String>, k: int, prefix: Seq<char>)
    requires
        0 <= k <= names.len(),
        first_with_prefix(names.take(k), prefix) is Some,
    ensures
        first_with_prefix(names, prefix) == first_with_prefix(names.take(k), prefix),
    decreases names.len() - k,
{
    if k < names.len() {
        assert(names.take(k + 1).drop_last() =~= names.take(k));
        lemma_first_with_prefix_extends(names, k + 1, prefix);
    } else {
        assert(names.take(k) =~= names);
    }
}

/// The entry of a directory whose name is the first of the listing `names`
/// that starts with `prefix`, as a path under the directory.
pub fn find_file_name_in_dir(dir: &String, names: &Vec<String>, prefix: &String) -> (r: Option<String>)
    ensures
        match first_with_prefix(names@, prefix@) {
            Some(i) => r matches Some(p) && p@ == join_path(dir@, names@[i]@),
            None => r is None,
        },
{
    let mut i: usize = 0;
    while i < names.len()
        invariant
            i <= names.len(),
            first_with_prefix(names@.take(i as int), prefix@) is None,
        decreases names.len() - i,
    {
        assert(names@.take(i as int + 1).drop_last() =~= names@.take(i as int));
        assert(names@.take(i as int + 1).last() == names@[i as int]);
        if starts_with(&names[i], prefix) {
            proof {
                lemma_first_with_prefix_extends(names@, i as int + 1, prefix@);
            }
            return Some(join(dir, names[i].as_str()));
        }
        i += 1;
    }
    assert(names@.take(names.len() as int) =~= names@);
    None
}

/// Whether `b` starts the debugpy adapter of `dir` with `python`, listening
/// on the adapter's host and port, in the configured working directory.
pub open spec fn debugpy_binary(
    b: DebugAdapterBinary,
    python: String,
    dir: Seq<char>,
    adapter: PythonDebugAdapter,
    config: DebugAdapterConfig,
) -> bool {
    &&& b.command == python
    &&& b.arguments matches Some(args) && args@.len() == 3 && args@[0]@ == join_path(dir, "src/debugpy/adapter"@)
        && args@[1]@ == "--port="@ + decimal(adapter.port as nat) && args@[2]@ == "--host="@ + dotted(adapter.host)
    &&& b.cwd == config.cwd
    &&& b.envs is None
}

} // verus!
