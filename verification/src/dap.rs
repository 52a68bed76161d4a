//! The Debug Adapter Protocol values that the debugger keeps, sends and
//! receives: scopes, variables, stack frames, sources, modules, breakpoints,
//! output events and the adapter's capabilities.
use vstd::prelude::*;

verus! {

/// How a scope should be presented in the UI.
#[derive(Clone, Copy, Debug, PartialEq, Eq, Structural)]
pub enum ScopePresentationHint {
    Arguments,
    Locals,
    Registers,
    ReturnValue,
    Unknown,
}

/// How a source should be presented in the UI.
#[derive(Clone, Copy, Debug, PartialEq, Eq, Structural)]
pub enum SourcePresentationHint {
    Normal,
    Emphasize,
    Deemphasize,
    Unknown,
}

/// How a stack frame should be presented in the UI.
#[derive(Clone, Copy, Debug, PartialEq, Eq, Structural)]
pub enum StackFramePresentationHint {
    Normal,
    Label,
    Subtle,
    Deemphasize,
}

/// The algorithm of a source checksum.
#[derive(Clone, Copy, Debug, PartialEq, Eq, Structural)]
pub enum ChecksumAlgorithm {
    Md5,
    Sha1,
    Sha256,
    Timestamp,
}

/// A checksum of a source file.
#[derive(Debug, PartialEq)]
pub struct Checksum {
    pub algorithm: ChecksumAlgorithm,
    pub checksum: String,
}

impl Clone for Checksum {
    fn clone(&self) -> (r: Self)
        ensures
            r == *self,
    {
        Checksum { algorithm: self.algorithm, checksum: self.checksum.clone() }
    }
}

/// A copy of an optional string.
pub fn clone_opt_string(s: &Option<String>) -> (r: Option<String>)
    ensures
        r == *s,
{
    match s {
        Some(v) => Some(v.clone()),
        None => None,
    }
}

/// A source file or a piece of source held by the adapter.
#[derive(Debug, PartialEq)]
pub struct Source {
    pub name: Option<String>,
    pub path: Option<String>,
    pub source_reference: Option<i32>,
    pub presentation_hint: Option<SourcePresentationHint>,
    pub origin: Option<String>,
    pub sources: Option<Vec<Source>>,
    /// Opaque data the adapter attaches to the source, as JSON text.
    pub adapter_data: Option<String>,
    pub checksums: Option<Vec<Checksum>>,
}

/// The abstract value of a source: its nested sources and checksums taken as
/// sequences.
pub struct SourceView {
    pub name: Option<String>,
    pub path: Option<String>,
    pub source_reference: Option<i32>,
    pub presentation_hint: Option<SourcePresentationHint>,
    pub origin: Option<String>,
    pub sources: Option<Seq<SourceView>>,
    pub adapter_data: Option<String>,
    pub checksums: Option<Seq<Checksum>>,
}

/// The abstract value of a source.
pub open spec fn source_view(s: Source) -> SourceView
    decreases s, 1int,
{
    SourceView {
        name: s.name,
        path: s.path,
        source_reference: s.source_reference,
        presentation_hint: s.presentation_hint,
        origin: s.origin,
        sources: match s.sources {
            Some(v) => Some(sources_view(v@)),
            None => None,
        },
        adapter_data: s.adapter_data,
        checksums: match s.checksums {
            Some(v) => Some(v@),
            None => None,
        },
    }
}

/// The abstract values of a sequence of sources, element by element.
pub open spec fn sources_view(v: Seq<Source>) -> Seq<SourceView>
    decreases v, 0int,
{
    if v.len() == 0 {
        Seq::empty()
    } else {
        sources_view(v.subrange(0, v.len() - 1)).push(source_view(v.last()))
    }
}

/// `sources_view` has the length of its argument and views each element.
pub proof fn lemma_sources_view(v: Seq<Source>)
    ensures
        sources_view(v).len() == v.len(),
        forall|i: int| 0 <= i < v.len() ==> #[trigger] sources_view(v)[i] == source_view(v[i]),
    decreases v.len(),
{
    if v.len() > 0 {
        let w = v.subrange(0, v.len() - 1);
        lemma_sources_view(w);
        assert forall|i: int| 0 <= i < v.len() implies #[trigger] sources_view(v)[i] == source_view(v[i]) by {
            if i < v.len() - 1 {
                assert(w[i] == v[i]);
            }
        }
    }
}

/// Two sequences of sources with equal element views have equal views.
pub proof fn lemma_sources_view_ext(a: Seq<Source>, b: Seq<Source>)
    requires
        a.len() == b.len(),
        forall|i: int| 0 <= i < a.len() ==> source_view(#[trigger] a[i]) == source_view(b[i]),
    ensures
        sources_view(a) == sources_view(b),
{
    lemma_sources_view(a);
    lemma_sources_view(b);
    assert(sources_view(a) =~= sources_view(b));
}

impl View for Source {
    type V = SourceView;

    open spec fn view(&self) -> SourceView {
        source_view(*self)
    }
}

impl Source {
    /// A copy of this source, nested sources included.
    pub fn clone_source(&self) -> (r: Source)
        ensures
            r@ == self@,
        decreases self,
    {
        let sources = match &self.sources {
            Some(v) => {
                let mut out: Vec<Source> = Vec::new();
                let mut i: usize = 0;
                while i < v.len()
                    invariant
                        self.sources == Some(*v),
                        i <= v.len(),
                        out@.len() == i,
                        forall|j: int| 0 <= j < i ==> source_view(#[trigger] out@[j]) == source_view(v@[j]),
                    decreases v.len() - i,
                {
                    proof {
                        assert(decreases_to!(*self => self.sources));
                        assert(decreases_to!(self.sources => self.sources->0));
                        assert(decreases_to!(*v => v@));
                        assert(decreases_to!(v@ => v@[i as int]));
                    }
                    let c = v[i].clone_source();
                    out.push(c);
                    i += 1;
                }
                proof {
                    lemma_sources_view_ext(out@, v@);
                }
                Some(out)
            },
            None => None,
        };
        let checksums = match &self.checksums {
            Some(v) => {
                let mut out: Vec<Checksum> = Vec::new();
                let mut i: usize = 0;
                while i < v.len()
                    invariant
                        i <= v.len(),
                        out@ =~= v@.subrange(0, i as int),
                    decreases v.len() - i,
                {
                    out.push(v[i].clone());
                    i += 1;
                }
                assert(out@ =~= v@);
                Some(out)
            },
            None => None,
        };
        Source {
            name: clone_opt_string(&self.name),
            path: clone_opt_string(&self.path),
            source_reference: self.source_reference,
            presentation_hint: self.presentation_hint,
            origin: clone_opt_string(&self.origin),
            sources,
            adapter_data: clone_opt_string(&self.adapter_data),
            checksums,
        }
    }
}

impl Clone for Source {
    fn clone(&self) -> (r: Self)
        ensures
            r@ == self@,
    {
        self.clone_source()
    }
}

/// A named container of variables, such as "Locals".
#[derive(Debug, PartialEq)]
pub struct Scope {
    pub name: String,
    pub presentation_hint: Option<ScopePresentationHint>,
    pub variables_reference: u64,
    pub named_variables: Option<u64>,
    pub indexed_variables: Option<u64>,
    pub expensive: bool,
    pub source: Option<Source>,
    pub line: Option<u64>,
    pub column: Option<u64>,
    pub end_line: Option<u64>,
    pub end_column: Option<u64>,
}

/// Hints on how a variable should be presented.
#[derive(Debug, PartialEq)]
pub struct VariablePresentationHint {
    pub kind: Option<String>,
    pub visibility: Option<String>,
    pub lazy: Option<bool>,
}

/// A variable: a name, its value and, when it has children, the reference
/// under which they can be fetched.
#[derive(Debug, PartialEq)]
pub struct Variable {
    pub name: String,
    pub value: String,
    pub type_: Option<String>,
    pub presentation_hint: Option<VariablePresentationHint>,
    pub evaluate_name: Option<String>,
    pub variables_reference: u64,
    pub named_variables: Option<u64>,
    pub indexed_variables: Option<u64>,
    pub memory_reference: Option<String>,
    pub declaration_location_reference: Option<u64>,
    pub value_location_reference: Option<u64>,
}

/// The id of a module: a number or a string.
#[derive(Debug, PartialEq)]
pub enum ModuleId {
    Number(i32),
    String(String),
}

/// A frame of a thread's call stack.
#[derive(Debug, PartialEq)]
pub struct StackFrame {
    pub id: u64,
    pub name: String,
    pub source: Option<Source>,
    pub line: u64,
    pub column: u64,
    pub end_line: Option<u64>,
    pub end_column: Option<u64>,
    pub can_restart: Option<bool>,
    pub instruction_pointer_reference: Option<String>,
    pub module_id: Option<ModuleId>,
    pub presentation_hint: Option<StackFramePresentationHint>,
}

/// A module (library or executable) loaded by the debuggee.
#[derive(Debug, PartialEq)]
pub struct Module {
    pub id: ModuleId,
    pub name: String,
    pub path: Option<String>,
    pub is_optimized: Option<bool>,
    pub is_user_code: Option<bool>,
    pub version: Option<String>,
    pub symbol_status: Option<String>,
    pub symbol_file_path: Option<String>,
    pub date_time_stamp: Option<String>,
    pub address_range: Option<String>,
}

/// The unit of a step request.
#[derive(Clone, Copy, Debug, PartialEq, Eq, Hash, Structural)]
pub enum SteppingGranularity {
    Statement,
    Line,
    Instruction,
}

/// The category of an output event.
#[derive(Clone, Copy, Debug, PartialEq, Eq, Structural)]
pub enum OutputEventCategory {
    Console,
    Important,
    Stdout,
    Stderr,
    Telemetry,
    Unknown,
}

/// How an output event groups the following output.
#[derive(Clone, Copy, Debug, PartialEq, Eq, Structural)]
pub enum OutputEventGroup {
    Start,
    StartCollapsed,
    End,
}

/// Output that the debuggee or the adapter produced.
#[derive(Clone, Debug, PartialEq)]
pub struct OutputEvent {
    pub category: Option<OutputEventCategory>,
    pub output: String,
    pub group: Option<OutputEventGroup>,
    pub variables_reference: Option<u64>,
    pub source: Option<Source>,
    pub line: Option<u64>,
    pub column: Option<u64>,
    /// Additional data, as JSON text.
    pub data: Option<String>,
    pub location_reference: Option<u64>,
}

/// The kind of a completion item.
#[derive(Clone, Copy, Debug, PartialEq, Eq, Structural)]
pub enum CompletionItemType {
    Method,
    Function,
    Constructor,
    Field,
    Variable,
    Class,
    Interface,
    Module,
    Property,
    Unit,
    Value,
    Enum,
    Keyword,
    Snippet,
    Text,
    Color,
    File,
    Reference,
    Customcolor,
}

/// A completion proposed by the adapter.
#[derive(Clone, Debug, PartialEq)]
pub struct CompletionItem {
    pub label: String,
    pub text: Option<String>,
    pub sort_text: Option<String>,
    pub detail: Option<String>,
    pub type_: Option<CompletionItemType>,
    pub start: Option<u64>,
    pub length: Option<u64>,
    pub selection_start: Option<u64>,
    pub selection_length: Option<u64>,
}

/// The context in which an expression is evaluated.
#[derive(Clone, Copy, Debug, PartialEq, Eq, Structural)]
pub enum EvaluateArgumentsContext {
    Variables,
    Watch,
    Repl,
    Hover,
    Clipboard,
    Unknown,
}

/// A thread of the debuggee.
#[derive(Clone, Debug, PartialEq)]
pub struct Thread {
    pub id: u64,
    pub name: String,
}

/// When the debuggee should break on an exception.
#[derive(Clone, Copy, Debug, PartialEq, Eq, Structural)]
pub enum ExceptionBreakMode {
    Never,
    Always,
    Unhandled,
    UserUnhandled,
}

/// A segment of a path into the tree of exceptions.
#[derive(Clone, Debug, PartialEq)]
pub struct ExceptionPathSegment {
    pub negate: Option<bool>,
    pub names: Vec<String>,
}

/// A set of exceptions and when to break on them.
#[derive(Clone, Debug, PartialEq)]
pub struct ExceptionOptions {
    pub path: Option<Vec<ExceptionPathSegment>>,
    pub break_mode: ExceptionBreakMode,
}

/// Options of an exception filter that the user turned on.
#[derive(Clone, Debug, PartialEq)]
pub struct ExceptionFilterOptions {
    pub filter_id: String,
    pub condition: Option<String>,
    pub mode: Option<String>,
}

/// Why a breakpoint is not verified.
#[derive(Clone, Copy, Debug, PartialEq, Eq, Structural)]
pub enum BreakpointReason {
    Pending,
    Failed,
}

/// A breakpoint as the adapter reports it.
#[derive(Clone, Debug, PartialEq)]
pub struct Breakpoint {
    pub id: Option<u64>,
    pub verified: bool,
    pub message: Option<String>,
    pub source: Option<Source>,
    pub line: Option<u64>,
    pub column: Option<u64>,
    pub end_line: Option<u64>,
    pub end_column: Option<u64>,
    pub instruction_reference: Option<String>,
    pub offset: Option<u64>,
    pub reason: Option<BreakpointReason>,
}

/// The kinds of breakpoints a breakpoint mode applies to.
#[derive(Clone, Copy, Debug, PartialEq, Eq, Structural)]
pub enum BreakpointModeApplicability {
    Source,
    Exception,
    Data,
    Instruction,
    Unknown,
}

/// A mode in which breakpoints can be set.
#[derive(Clone, Debug, PartialEq)]
pub struct BreakpointMode {
    pub mode: String,
    pub label: String,
    pub description: Option<String>,
    pub applies_to: Vec<BreakpointModeApplicability>,
}

/// An exception filter the adapter offers.
#[derive(Clone, Debug, PartialEq)]
pub struct ExceptionBreakpointsFilter {
    pub filter: String,
    pub label: String,
    pub description: Option<String>,
    pub default: Option<bool>,
    pub supports_condition: Option<bool>,
    pub condition_description: Option<String>,
}

/// The type of values shown in a module column.
#[derive(Clone, Copy, Debug, PartialEq, Eq, Structural)]
pub enum ColumnDescriptorType {
    String,
    Number,
    Boolean,
    UnixTimestampUTC,
}

/// A column of the modules view.
#[derive(Clone, Debug, PartialEq)]
pub struct ColumnDescriptor {
    pub attribute_name: String,
    pub label: String,
    pub format: Option<String>,
    pub type_: Option<ColumnDescriptorType>,
    pub width: Option<u64>,
}


/// The abstract value of an optional source.
pub open spec fn opt_source_view(s: Option<Source>) -> Option<SourceView> {
    match s {
        Some(s) => Some(s@),
        None => None,
    }
}

/// A copy of an optional source.
pub fn clone_opt_source(s: &Option<Source>) -> (r: Option<Source>)
    ensures
        opt_source_view(r) == opt_source_view(*s),
{
    match s {
        Some(v) => Some(v.clone_source()),
        None => None,
    }
}

/// The abstract value of a scope: its source taken by its view.
pub struct ScopeView {
    pub name: String,
    pub presentation_hint: Option<ScopePresentationHint>,
    pub variables_reference: u64,
    pub named_variables: Option<u64>,
    pub indexed_variables: Option<u64>,
    pub expensive: bool,
    pub source: Option<SourceView>,
    pub line: Option<u64>,
    pub column: Option<u64>,
    pub end_line: Option<u64>,
    pub end_column: Option<u64>,
}

impl View for Scope {
    type V = ScopeView;

    open spec fn view(&self) -> ScopeView {
        ScopeView {
            name: self.name,
            presentation_hint: self.presentation_hint,
            variables_reference: self.variables_reference,
            named_variables: self.named_variables,
            indexed_variables: self.indexed_variables,
            expensive: self.expensive,
            source: opt_source_view(self.source),
            line: self.line,
            column: self.column,
            end_line: self.end_line,
            end_column: self.end_column,
        }
    }
}

impl Clone for Scope {
    fn clone(&self) -> (r: Self)
        ensures
            r@ == self@,
    {
        Scope {
            name: self.name.clone(),
            presentation_hint: self.presentation_hint,
            variables_reference: self.variables_reference,
            named_variables: self.named_variables,
            indexed_variables: self.indexed_variables,
            expensive: self.expensive,
            source: clone_opt_source(&self.source),
            line: self.line,
            column: self.column,
            end_line: self.end_line,
            end_column: self.end_column,
        }
    }
}

/// The abstract value of a stack frame: its source taken by its view.
pub struct StackFrameView {
    pub id: u64,
    pub name: String,
    pub source: Option<SourceView>,
    pub line: u64,
    pub column: u64,
    pub end_line: Option<u64>,
    pub end_column: Option<u64>,
    pub can_restart: Option<bool>,
    pub instruction_pointer_reference: Option<String>,
    pub module_id: Option<ModuleId>,
    pub presentation_hint: Option<StackFramePresentationHint>,
}

impl View for StackFrame {
    type V = StackFrameView;

    open spec fn view(&self) -> StackFrameView {
        StackFrameView {
            id: self.id,
            name: self.name,
            source: opt_source_view(self.source),
            line: self.line,
            column: self.column,
            end_line: self.end_line,
            end_column: self.end_column,
            can_restart: self.can_restart,
            instruction_pointer_reference: self.instruction_pointer_reference,
            module_id: self.module_id,
            presentation_hint: self.presentation_hint,
        }
    }
}

impl Clone for ModuleId {
    fn clone(&self) -> (r: Self)
        ensures
            r == *self,
    {
        match self {
            ModuleId::Number(n) => ModuleId::Number(*n),
            ModuleId::String(s) => ModuleId::String(s.clone()),
        }
    }
}

impl Clone for StackFrame {
    fn clone(&self) -> (r: Self)
        ensures
            r@ == self@,
    {
        StackFrame {
            id: self.id,
            name: self.name.clone(),
            source: clone_opt_source(&self.source),
            line: self.line,
            column: self.column,
            end_line: self.end_line,
            end_column: self.end_column,
            can_restart: self.can_restart,
            instruction_pointer_reference: clone_opt_string(&self.instruction_pointer_reference),
            module_id: match &self.module_id {
                Some(m) => Some(m.clone()),
                None => None,
            },
            presentation_hint: self.presentation_hint,
        }
    }
}

/// The abstract value of an output event: its source taken by its view.
pub struct OutputEventView {
    pub category: Option<OutputEventCategory>,
    pub output: String,
    pub group: Option<OutputEventGroup>,
    pub variables_reference: Option<u64>,
    pub source: Option<SourceView>,
    pub line: Option<u64>,
    pub column: Option<u64>,
    pub data: Option<String>,
    pub location_reference: Option<u64>,
}

impl View for OutputEvent {
    type V = OutputEventView;

    open spec fn view(&self) -> OutputEventView {
        OutputEventView {
            category: self.category,
            output: self.output,
            group: self.group,
            variables_reference: self.variables_reference,
            source: opt_source_view(self.source),
            line: self.line,
            column: self.column,
            data: self.data,
            location_reference: self.location_reference,
        }
    }
}

/// The abstract value of a breakpoint: its source taken by its view.
pub struct BreakpointView {
    pub id: Option<u64>,
    pub verified: bool,
    pub message: Option<String>,
    pub source: Option<SourceView>,
    pub line: Option<u64>,
    pub column: Option<u64>,
    pub end_line: Option<u64>,
    pub end_column: Option<u64>,
    pub instruction_reference: Option<String>,
    pub offset: Option<u64>,
    pub reason: Option<BreakpointReason>,
}

impl View for Breakpoint {
    type V = BreakpointView;

    open spec fn view(&self) -> BreakpointView {
        BreakpointView {
            id: self.id,
            verified: self.verified,
            message: self.message,
            source: opt_source_view(self.source),
            line: self.line,
            column: self.column,
            end_line: self.end_line,
            end_column: self.end_column,
            instruction_reference: self.instruction_reference,
            offset: self.offset,
            reason: self.reason,
        }
    }
}

/// The abstract value of an exception path segment: its names as a sequence.
pub struct ExceptionPathSegmentView {
    pub negate: Option<bool>,
    pub names: Seq<String>,
}

impl View for ExceptionPathSegment {
    type V = ExceptionPathSegmentView;

    open spec fn view(&self) -> ExceptionPathSegmentView {
        ExceptionPathSegmentView { negate: self.negate, names: self.names@ }
    }
}

/// The abstract value of exception options: the path as a sequence of views.
pub struct ExceptionOptionsView {
    pub path: Option<Seq<ExceptionPathSegmentView>>,
    pub break_mode: ExceptionBreakMode,
}

impl View for ExceptionOptions {
    type V = ExceptionOptionsView;

    open spec fn view(&self) -> ExceptionOptionsView {
        ExceptionOptionsView {
            path: match self.path {
                Some(p) => Some(p@.map_values(|s: ExceptionPathSegment| s@)),
                None => None,
            },
            break_mode: self.break_mode,
        }
    }
}

/// The abstract value of a breakpoint mode: what it applies to, as a sequence.
pub struct BreakpointModeView {
    pub mode: String,
    pub label: String,
    pub description: Option<String>,
    pub applies_to: Seq<BreakpointModeApplicability>,
}

impl View for BreakpointMode {
    type V = BreakpointModeView;

    open spec fn view(&self) -> BreakpointModeView {
        BreakpointModeView {
            mode: self.mode,
            label: self.label,
            description: self.description,
            applies_to: self.applies_to@,
        }
    }
}

/// The abstract value of a module column: its text fields as text.
pub struct ColumnDescriptorView {
    pub attribute_name: Seq<char>,
    pub label: Seq<char>,
    pub format: Option<Seq<char>>,
    pub type_: Option<ColumnDescriptorType>,
    pub width: Option<u64>,
}

impl View for ColumnDescriptor {
    type V = ColumnDescriptorView;

    open spec fn view(&self) -> ColumnDescriptorView {
        ColumnDescriptorView {
            attribute_name: self.attribute_name@,
            label: self.label@,
            format: match self.format {
                Some(f) => Some(f@),
                None => None,
            },
            type_: self.type_,
            width: self.width,
        }
    }
}

/// The features a debug adapter supports; a missing entry means unsupported.
#[derive(Clone, Debug, PartialEq)]
pub struct Capabilities {
    pub supports_configuration_done_request: Option<bool>,
    pub supports_function_breakpoints: Option<bool>,
    pub supports_conditional_breakpoints: Option<bool>,
    pub supports_hit_conditional_breakpoints: Option<bool>,
    pub supports_evaluate_for_hovers: Option<bool>,
    pub exception_breakpoint_filters: Option<Vec<ExceptionBreakpointsFilter>>,
    pub supports_step_back: Option<bool>,
    pub supports_set_variable: Option<bool>,
    pub supports_restart_frame: Option<bool>,
    pub supports_goto_targets_request: Option<bool>,
    pub supports_step_in_targets_request: Option<bool>,
    pub supports_completions_request: Option<bool>,
    pub completion_trigger_characters: Option<Vec<String>>,
    pub supports_modules_request: Option<bool>,
    pub additional_module_columns: Option<Vec<ColumnDescriptor>>,
    pub supported_checksum_algorithms: Option<Vec<ChecksumAlgorithm>>,
    pub supports_restart_request: Option<bool>,
    pub supports_exception_options: Option<bool>,
    pub supports_value_formatting_options: Option<bool>,
    pub supports_exception_info_request: Option<bool>,
    pub support_terminate_debuggee: Option<bool>,
    pub support_suspend_debuggee: Option<bool>,
    pub supports_delayed_stack_trace_loading: Option<bool>,
    pub supports_loaded_sources_request: Option<bool>,
    pub supports_log_points: Option<bool>,
    pub supports_terminate_threads_request: Option<bool>,
    pub supports_set_expression: Option<bool>,
    pub supports_terminate_request: Option<bool>,
    pub supports_data_breakpoints: Option<bool>,
    pub supports_read_memory_request: Option<bool>,
    pub supports_write_memory_request: Option<bool>,
    pub supports_disassemble_request: Option<bool>,
    pub supports_cancel_request: Option<bool>,
    pub supports_breakpoint_locations_request: Option<bool>,
    pub supports_clipboard_context: Option<bool>,
    pub supports_stepping_granularity: Option<bool>,
    pub supports_instruction_breakpoints: Option<bool>,
    pub supports_exception_filter_options: Option<bool>,
    pub supports_single_thread_execution_requests: Option<bool>,
    pub supports_data_breakpoint_bytes: Option<bool>,
    pub breakpoint_modes: Option<Vec<BreakpointMode>>,
    pub supports_ansistyling: Option<bool>,
}

/// The abstract value of capabilities: lists taken as sequences.
pub struct CapabilitiesView {
    pub supports_configuration_done_request: Option<bool>,
    pub supports_function_breakpoints: Option<bool>,
    pub supports_conditional_breakpoints: Option<bool>,
    pub supports_hit_conditional_breakpoints: Option<bool>,
    pub supports_evaluate_for_hovers: Option<bool>,
    pub exception_breakpoint_filters: Option<Seq<ExceptionBreakpointsFilter>>,
    pub supports_step_back: Option<bool>,
    pub supports_set_variable: Option<bool>,
    pub supports_restart_frame: Option<bool>,
    pub supports_goto_targets_request: Option<bool>,
    pub supports_step_in_targets_request: Option<bool>,
    pub supports_completions_request: Option<bool>,
    pub completion_trigger_characters: Option<Seq<String>>,
    pub supports_modules_request: Option<bool>,
    pub additional_module_columns: Option<Seq<ColumnDescriptorView>>,
    pub supported_checksum_algorithms: Option<Seq<ChecksumAlgorithm>>,
    pub supports_restart_request: Option<bool>,
    pub supports_exception_options: Option<bool>,
    pub supports_value_formatting_options: Option<bool>,
    pub supports_exception_info_request: Option<bool>,
    pub support_terminate_debuggee: Option<bool>,
    pub support_suspend_debuggee: Option<bool>,
    pub supports_delayed_stack_trace_loading: Option<bool>,
    pub supports_loaded_sources_request: Option<bool>,
    pub supports_log_points: Option<bool>,
    pub supports_terminate_threads_request: Option<bool>,
    pub supports_set_expression: Option<bool>,
    pub supports_terminate_request: Option<bool>,
    pub supports_data_breakpoints: Option<bool>,
    pub supports_read_memory_request: Option<bool>,
    pub supports_write_memory_request: Option<bool>,
    pub supports_disassemble_request: Option<bool>,
    pub supports_cancel_request: Option<bool>,
    pub supports_breakpoint_locations_request: Option<bool>,
    pub supports_clipboard_context: Option<bool>,
    pub supports_stepping_granularity: Option<bool>,
    pub supports_instruction_breakpoints: Option<bool>,
    pub supports_exception_filter_options: Option<bool>,
    pub supports_single_thread_execution_requests: Option<bool>,
    pub supports_data_breakpoint_bytes: Option<bool>,
    pub breakpoint_modes: Option<Seq<BreakpointModeView>>,
    pub supports_ansistyling: Option<bool>,
}

/// Capabilities that announce nothing.
pub open spec fn no_capabilities() -> CapabilitiesView {
    CapabilitiesView {
        supports_configuration_done_request: None,
        supports_function_breakpoints: None,
        supports_conditional_breakpoints: None,
        supports_hit_conditional_breakpoints: None,
        supports_evaluate_for_hovers: None,
        exception_breakpoint_filters: None,
        supports_step_back: None,
        supports_set_variable: None,
        supports_restart_frame: None,
        supports_goto_targets_request: None,
        supports_step_in_targets_request: None,
        supports_completions_request: None,
        completion_trigger_characters: None,
        supports_modules_request: None,
        additional_module_columns: None,
        supported_checksum_algorithms: None,
        supports_restart_request: None,
        supports_exception_options: None,
        supports_value_formatting_options: None,
        supports_exception_info_request: None,
        support_terminate_debuggee: None,
        support_suspend_debuggee: None,
        supports_delayed_stack_trace_loading: None,
        supports_loaded_sources_request: None,
        supports_log_points: None,
        supports_terminate_threads_request: None,
        supports_set_expression: None,
        supports_terminate_request: None,
        supports_data_breakpoints: None,
        supports_read_memory_request: None,
        supports_write_memory_request: None,
        supports_disassemble_request: None,
        supports_cancel_request: None,
        supports_breakpoint_locations_request: None,
        supports_clipboard_context: None,
        supports_stepping_granularity: None,
        supports_instruction_breakpoints: None,
        supports_exception_filter_options: None,
        supports_single_thread_execution_requests: None,
        supports_data_breakpoint_bytes: None,
        breakpoint_modes: None,
        supports_ansistyling: None,
    }
}

impl Default for Capabilities {
    /// Capabilities that announce nothing.
    fn default() -> (r: Self)
        ensures
            r@ == no_capabilities(),
    {
        Capabilities {
            supports_configuration_done_request: None,
            supports_function_breakpoints: None,
            supports_conditional_breakpoints: None,
            supports_hit_conditional_breakpoints: None,
            supports_evaluate_for_hovers: None,
            exception_breakpoint_filters: None,
            supports_step_back: None,
            supports_set_variable: None,
            supports_restart_frame: None,
            supports_goto_targets_request: None,
            supports_step_in_targets_request: None,
            supports_completions_request: None,
            completion_trigger_characters: None,
            supports_modules_request: None,
            additional_module_columns: None,
            supported_checksum_algorithms: None,
            supports_restart_request: None,
            supports_exception_options: None,
            supports_value_formatting_options: None,
            supports_exception_info_request: None,
            support_terminate_debuggee: None,
            support_suspend_debuggee: None,
            supports_delayed_stack_trace_loading: None,
            supports_loaded_sources_request: None,
            supports_log_points: None,
            supports_terminate_threads_request: None,
            supports_set_expression: None,
            supports_terminate_request: None,
            supports_data_breakpoints: None,
            supports_read_memory_request: None,
            supports_write_memory_request: None,
            supports_disassemble_request: None,
            supports_cancel_request: None,
            supports_breakpoint_locations_request: None,
            supports_clipboard_context: None,
            supports_stepping_granularity: None,
            supports_instruction_breakpoints: None,
            supports_exception_filter_options: None,
            supports_single_thread_execution_requests: None,
            supports_data_breakpoint_bytes: None,
            breakpoint_modes: None,
            supports_ansistyling: None,
        }
    }
}

impl View for Capabilities {
    type V = CapabilitiesView;

    open spec fn view(&self) -> CapabilitiesView {
        CapabilitiesView {
            supports_configuration_done_request: self.supports_configuration_done_request,
            supports_function_breakpoints: self.supports_function_breakpoints,
            supports_conditional_breakpoints: self.supports_conditional_breakpoints,
            supports_hit_conditional_breakpoints: self.supports_hit_conditional_breakpoints,
            supports_evaluate_for_hovers: self.supports_evaluate_for_hovers,
            exception_breakpoint_filters: match self.exception_breakpoint_filters {
                Some(v) => Some(v@),
                None => None,
            },
            supports_step_back: self.supports_step_back,
            supports_set_variable: self.supports_set_variable,
            supports_restart_frame: self.supports_restart_frame,
            supports_goto_targets_request: self.supports_goto_targets_request,
            supports_step_in_targets_request: self.supports_step_in_targets_request,
            supports_completions_request: self.supports_completions_request,
            completion_trigger_characters: match self.completion_trigger_characters {
                Some(v) => Some(v@),
                None => None,
            },
            supports_modules_request: self.supports_modules_request,
            additional_module_columns: match self.additional_module_columns {
                Some(v) => Some(v@.map_values(|c: ColumnDescriptor| c@)),
                None => None,
            },
            supported_checksum_algorithms: match self.supported_checksum_algorithms {
                Some(v) => Some(v@),
                None => None,
            },
            supports_restart_request: self.supports_restart_request,
            supports_exception_options: self.supports_exception_options,
            supports_value_formatting_options: self.supports_value_formatting_options,
            supports_exception_info_request: self.supports_exception_info_request,
            support_terminate_debuggee: self.support_terminate_debuggee,
            support_suspend_debuggee: self.support_suspend_debuggee,
            supports_delayed_stack_trace_loading: self.supports_delayed_stack_trace_loading,
            supports_loaded_sources_request: self.supports_loaded_sources_request,
            supports_log_points: self.supports_log_points,
            supports_terminate_threads_request: self.supports_terminate_threads_request,
            supports_set_expression: self.supports_set_expression,
            supports_terminate_request: self.supports_terminate_request,
            supports_data_breakpoints: self.supports_data_breakpoints,
            supports_read_memory_request: self.supports_read_memory_request,
            supports_write_memory_request: self.supports_write_memory_request,
            supports_disassemble_request: self.supports_disassemble_request,
            supports_cancel_request: self.supports_cancel_request,
            supports_breakpoint_locations_request: self.supports_breakpoint_locations_request,
            supports_clipboard_context: self.supports_clipboard_context,
            supports_stepping_granularity: self.supports_stepping_granularity,
            supports_instruction_breakpoints: self.supports_instruction_breakpoints,
            supports_exception_filter_options: self.supports_exception_filter_options,
            supports_single_thread_execution_requests: self.supports_single_thread_execution_requests,
            supports_data_breakpoint_bytes: self.supports_data_breakpoint_bytes,
            breakpoint_modes: match self.breakpoint_modes {
                Some(v) => Some(v@.map_values(|m: BreakpointMode| m@)),
                None => None,
            },
            supports_ansistyling: self.supports_ansistyling,
        }
    }
}

/// Arguments of a `next` (step over) request.
#[derive(Clone, Debug, PartialEq, Eq, Structural)]
pub struct NextArguments {
    pub thread_id: u64,
    pub single_thread: Option<bool>,
    pub granularity: Option<SteppingGranularity>,
}

/// Arguments of a `stepIn` request.
#[derive(Clone, Debug, PartialEq, Eq, Structural)]
pub struct StepInArguments {
    pub thread_id: u64,
    pub single_thread: Option<bool>,
    pub target_id: Option<u64>,
    pub granularity: Option<SteppingGranularity>,
}

/// Arguments of a `stepOut` request.
#[derive(Clone, Debug, PartialEq, Eq, Structural)]
pub struct StepOutArguments {
    pub thread_id: u64,
    pub single_thread: Option<bool>,
    pub granularity: Option<SteppingGranularity>,
}

/// Arguments of a `stepBack` request.
#[derive(Clone, Debug, PartialEq, Eq, Structural)]
pub struct StepBackArguments {
    pub thread_id: u64,
    pub single_thread: Option<bool>,
    pub granularity: Option<SteppingGranularity>,
}

/// Arguments of a `continue` request.
#[derive(Clone, Copy, Debug, PartialEq, Eq, Hash, Structural)]
pub struct ContinueArguments {
    pub thread_id: u64,
    pub single_thread: Option<bool>,
}

/// The answer to a `continue` request.
#[derive(Clone, Copy, Debug, PartialEq, Eq, Structural)]
pub struct ContinueResponse {
    pub all_threads_continued: Option<bool>,
}

/// Arguments of a `pause` request.
#[derive(Clone, Copy, Debug, PartialEq, Eq, Structural)]
pub struct PauseArguments {
    pub thread_id: u64,
}

/// Arguments of a `disconnect` request.
#[derive(Clone, Copy, Debug, PartialEq, Eq, Structural)]
pub struct DisconnectArguments {
    pub restart: Option<bool>,
    pub terminate_debuggee: Option<bool>,
    pub suspend_debuggee: Option<bool>,
}

/// Arguments of a `terminateThreads` request.
#[derive(Clone, Debug, PartialEq)]
pub struct TerminateThreadsArguments {
    pub thread_ids: Option<Vec<u64>>,
}

/// Arguments of a `terminate` request.
#[derive(Clone, Copy, Debug, PartialEq, Eq, Structural)]
pub struct TerminateArguments {
    pub restart: Option<bool>,
}

/// Which children a `variables` request asks for.
#[derive(Clone, Copy, Debug, PartialEq, Eq, Hash, Structural)]
pub enum VariablesArgumentsFilter {
    Indexed,
    Named,
}

/// How values should be formatted.
#[derive(Clone, Copy, Debug, PartialEq, Eq, Hash, Structural)]
pub struct ValueFormat {
    pub hex: Option<bool>,
}

/// Arguments of a `variables` request.
#[derive(Clone, Copy, Debug, PartialEq, Eq, Structural)]
pub struct VariablesArguments {
    pub variables_reference: u64,
    pub filter: Option<VariablesArgumentsFilter>,
    pub start: Option<u64>,
    pub count: Option<u64>,
    pub format: Option<ValueFormat>,
}

/// Arguments of a `setVariable` request.
#[derive(Clone, Debug, PartialEq)]
pub struct SetVariableArguments {
    pub variables_reference: u64,
    pub name: String,
    pub value: String,
    pub format: Option<ValueFormat>,
}

/// The answer to a `setVariable` request.
#[derive(Clone, Debug, PartialEq)]
pub struct SetVariableResponse {
    pub value: String,
    pub type_: Option<String>,
    pub variables_reference: Option<u64>,
    pub named_variables: Option<u64>,
    pub indexed_variables: Option<u64>,
    pub memory_reference: Option<String>,
}

/// Arguments of a `restartFrame` request.
#[derive(Clone, Copy, Debug, PartialEq, Eq, Structural)]
pub struct RestartFrameArguments {
    pub frame_id: u64,
}

/// Arguments of a `modules` request.
#[derive(Clone, Copy, Debug, PartialEq, Eq, Structural)]
pub struct ModulesArguments {
    pub start_module: Option<u64>,
    pub module_count: Option<u64>,
}

/// Arguments of a `stackTrace` request.
#[derive(Clone, Copy, Debug, PartialEq, Eq, Structural)]
pub struct StackTraceArguments {
    pub thread_id: u64,
    pub start_frame: Option<u64>,
    pub levels: Option<u64>,
    pub format: Option<ValueFormat>,
}

/// Arguments of a `scopes` request.
#[derive(Clone, Copy, Debug, PartialEq, Eq, Structural)]
pub struct ScopesArguments {
    pub frame_id: u64,
}

/// The format in which the client sends paths.
#[derive(Clone, Copy, Debug, PartialEq, Eq, Structural)]
pub enum InitializeRequestArgumentsPathFormat {
    Path,
    Uri,
}

/// Arguments of the `initialize` request: who the client is and what it supports.
#[derive(Clone, Debug, PartialEq)]
pub struct InitializeRequestArguments {
    pub client_id: Option<String>,
    pub client_name: Option<String>,
    pub adapter_id: String,
    pub locale: Option<String>,
    pub lines_start_at1: Option<bool>,
    pub columns_start_at1: Option<bool>,
    pub path_format: Option<InitializeRequestArgumentsPathFormat>,
    pub supports_variable_type: Option<bool>,
    pub supports_variable_paging: Option<bool>,
    pub supports_run_in_terminal_request: Option<bool>,
    pub supports_memory_references: Option<bool>,
    pub supports_progress_reporting: Option<bool>,
    pub supports_invalidated_event: Option<bool>,
    pub supports_memory_event: Option<bool>,
    pub supports_args_can_be_interpreted_by_shell: Option<bool>,
    pub supports_start_debugging_request: Option<bool>,
}

/// A breakpoint as the client asks the adapter to set it.
#[derive(Clone, Debug, PartialEq)]
pub struct SourceBreakpoint {
    pub line: u64,
    pub column: Option<u64>,
    pub condition: Option<String>,
    pub hit_condition: Option<String>,
    pub log_message: Option<String>,
    pub mode: Option<String>,
}

/// Why a module event was sent.
#[derive(Clone, Copy, Debug, PartialEq, Eq, Structural)]
pub enum ModuleEventReason {
    New,
    Changed,
    Removed,
}

/// A module was loaded, changed or unloaded.
#[derive(Clone, Debug, PartialEq)]
pub struct ModuleEvent {
    pub reason: ModuleEventReason,
    pub module: Module,
}

/// Why a loaded-source event was sent.
#[derive(Clone, Copy, Debug, PartialEq, Eq, Structural)]
pub enum LoadedSourceEventReason {
    New,
    Changed,
    Removed,
}

/// A source was loaded, changed or unloaded.
#[derive(Clone, Debug, PartialEq)]
pub struct LoadedSourceEvent {
    pub reason: LoadedSourceEventReason,
    pub source: Source,
}

impl Clone for Module {
    fn clone(&self) -> (r: Self)
        ensures
            r == *self,
    {
        Module {
            id: self.id.clone(),
            name: self.name.clone(),
            path: clone_opt_string(&self.path),
            is_optimized: self.is_optimized,
            is_user_code: self.is_user_code,
            version: clone_opt_string(&self.version),
            symbol_status: clone_opt_string(&self.symbol_status),
            symbol_file_path: clone_opt_string(&self.symbol_file_path),
            date_time_stamp: clone_opt_string(&self.date_time_stamp),
            address_range: clone_opt_string(&self.address_range),
        }
    }
}

/// The value of a module id, strings taken by their text.
pub enum ModuleIdKey {
    Number(i32),
    Text(Seq<char>),
}

/// The value of a module id.
pub open spec fn module_id_key(id: ModuleId) -> ModuleIdKey {
    match id {
        ModuleId::Number(n) => ModuleIdKey::Number(n),
        ModuleId::String(s) => ModuleIdKey::Text(s@),
    }
}

/// Whether two module ids are equal.
pub fn module_id_eq(a: &ModuleId, b: &ModuleId) -> (r: bool)
    ensures
        r == (module_id_key(*a) == module_id_key(*b)),
{
    match (a, b) {
        (ModuleId::Number(x), ModuleId::Number(y)) => *x == *y,
        (ModuleId::String(x), ModuleId::String(y)) => *x == *y,
        _ => false,
    }
}

/// Whether two optional strings have the same text.
pub open spec fn same_opt_text(a: Option<String>, b: Option<String>) -> bool {
    match (a, b) {
        (None, None) => true,
        (Some(x), Some(y)) => x@ == y@,
        _ => false,
    }
}

/// Whether two optional strings have the same text.
pub fn opt_text_eq(a: &Option<String>, b: &Option<String>) -> (r: bool)
    ensures
        r == same_opt_text(*a, *b),
{
    match (a, b) {
        (None, None) => true,
        (Some(x), Some(y)) => *x == *y,
        _ => false,
    }
}

/// Whether two checksums are equal.
pub open spec fn same_checksum(a: Checksum, b: Checksum) -> bool {
    a.algorithm == b.algorithm && a.checksum@ == b.checksum@
}

/// Whether two optional lists of checksums are equal, element by element.
pub open spec fn same_checksums(a: Option<Seq<Checksum>>, b: Option<Seq<Checksum>>) -> bool {
    match (a, b) {
        (None, None) => true,
        (Some(x), Some(y)) => x.len() == y.len() && forall|i: int| 0 <= i < x.len() ==> #[trigger] same_checksum(x[i], y[i]),
        _ => false,
    }
}

/// Whether two sources are equal: the same text in every string, the same
/// numbers and hints, and equal nested sources and checksums.
pub open spec fn same_source(a: SourceView, b: SourceView) -> bool
    decreases a, 1int,
{
    &&& same_opt_text(a.name, b.name)
    &&& same_opt_text(a.path, b.path)
    &&& a.source_reference == b.source_reference
    &&& a.presentation_hint == b.presentation_hint
    &&& same_opt_text(a.origin, b.origin)
    &&& same_opt_text(a.adapter_data, b.adapter_data)
    &&& same_checksums(a.checksums, b.checksums)
    &&& match (a.sources, b.sources) {
        (None, None) => true,
        (Some(x), Some(y)) => same_sources(x, y),
        _ => false,
    }
}

/// Whether two sequences of sources are equal, element by element.
pub open spec fn same_sources(a: Seq<SourceView>, b: Seq<SourceView>) -> bool
    decreases a, 0int,
{
    &&& a.len() == b.len()
    &&& (a.len() == 0 || (same_sources(a.subrange(0, a.len() - 1), b.subrange(0, b.len() - 1)) && same_source(
        a.last(),
        b.last(),
    )))
}

/// `same_sources` compares element by element.
pub proof fn lemma_same_sources(a: Seq<SourceView>, b: Seq<SourceView>)
    ensures
        same_sources(a, b) <==> (a.len() == b.len() && forall|i: int| 0 <= i < a.len() ==> #[trigger] same_source(a[i], b[i])),
    decreases a.len(),
{
    if a.len() > 0 && a.len() == b.len() {
        let a1 = a.subrange(0, a.len() - 1);
        let b1 = b.subrange(0, b.len() - 1);
        lemma_same_sources(a1, b1);
        assert(a.last() == a[a.len() - 1] && b.last() == b[b.len() - 1]);
        if forall|i: int| 0 <= i < a.len() ==> #[trigger] same_source(a[i], b[i]) {
            assert forall|i: int| 0 <= i < a1.len() implies #[trigger] same_source(a1[i], b1[i]) by {
                assert(a1[i] == a[i] && b1[i] == b[i]);
                assert(same_source(a[i], b[i]));
            }
            assert(same_source(a[a.len() - 1], b[b.len() - 1]));
        }
        if same_sources(a, b) {
            assert forall|i: int| 0 <= i < a.len() implies #[trigger] same_source(a[i], b[i]) by {
                if i < a.len() - 1 {
                    assert(a1[i] == a[i] && b1[i] == b[i]);
                    assert(same_source(a1[i], b1[i]));
                }
            }
        }
    }
}

fn checksums_equal(a: &Option<Vec<Checksum>>, b: &Option<Vec<Checksum>>) -> (r: bool)
    ensures
        r == same_checksums(
            match *a {
                Some(v) => Some(v@),
                None => None,
            },
            match *b {
                Some(v) => Some(v@),
                None => None,
            },
        ),
{
    match (a, b) {
        (None, None) => true,
        (Some(x), Some(y)) => {
            if x.len() != y.len() {
                return false;
            }
            let mut i: usize = 0;
            while i < x.len()
                invariant
                    *a == Some(*x),
                    *b == Some(*y),
                    x.len() == y.len(),
                    i <= x.len(),
                    forall|j: int| 0 <= j < i ==> #[trigger] same_checksum(x@[j], y@[j]),
                decreases x.len() - i,
            {
                if x[i].algorithm != y[i].algorithm || x[i].checksum != y[i].checksum {
                    assert(!same_checksum(x@[i as int], y@[i as int]));
                    return false;
                }
                i += 1;
            }
            true
        },
        _ => false,
    }
}

impl Source {
    /// Whether two sources are equal, nested sources included.
    pub fn same_as(&self, other: &Source) -> (r: bool)
        ensures
            r == same_source(self@, other@),
        decreases self,
    {
        if !opt_text_eq(&self.name, &other.name) || !opt_text_eq(&self.path, &other.path)
            || self.source_reference != other.source_reference || self.presentation_hint
            != other.presentation_hint || !opt_text_eq(&self.origin, &other.origin) || !opt_text_eq(
            &self.adapter_data,
            &other.adapter_data,
        ) || !checksums_equal(&self.checksums, &other.checksums) {
            return false;
        }
        match (&self.sources, &other.sources) {
            (None, None) => true,
            (Some(x), Some(y)) => {
                proof {
                    lemma_sources_view(x@);
                    lemma_sources_view(y@);
                    lemma_same_sources(sources_view(x@), sources_view(y@));
                }
                if x.len() != y.len() {
                    return false;
                }
                let mut i: usize = 0;
                while i < x.len()
                    invariant
                        self.sources == Some(*x),
                        other.sources == Some(*y),
                        x.len() == y.len(),
                        i <= x.len(),
                        sources_view(x@).len() == x@.len(),
                        sources_view(y@).len() == y@.len(),
                        forall|j: int| 0 <= j < x@.len() ==> #[trigger] sources_view(x@)[j] == source_view(x@[j]),
                        forall|j: int| 0 <= j < y@.len() ==> #[trigger] sources_view(y@)[j] == source_view(y@[j]),
                        forall|j: int| 0 <= j < i ==> #[trigger] same_source(sources_view(x@)[j], sources_view(y@)[j]),
                    decreases x.len() - i,
                {
                    proof {
                        assert(decreases_to!(*self => self.sources));
                        assert(decreases_to!(self.sources => self.sources->0));
                        assert(decreases_to!(*x => x@));
                        assert(decreases_to!(x@ => x@[i as int]));
                    }
                    if !x[i].same_as(&y[i]) {
                        proof {
                            lemma_same_sources(sources_view(x@), sources_view(y@));
                        }
                        assert(!same_source(sources_view(x@)[i as int], sources_view(y@)[i as int]));
                        return false;
                    }
                    i += 1;
                }
                proof {
                    lemma_same_sources(sources_view(x@), sources_view(y@));
                }
                true
            },
            _ => false,
        }
    }
}


/// Arguments of a `loadedSources` request: there are none.
#[derive(Clone, Copy, Debug, PartialEq, Eq, Structural)]
pub struct LoadedSourcesArguments {}

/// Arguments of a `restart` request: the adapter-specific arguments, as JSON
/// text.
#[derive(Clone, Debug, PartialEq)]
pub struct RestartArguments {
    pub raw: Vec<u8>,
}


impl Clone for VariablePresentationHint {
    fn clone(&self) -> (r: Self)
        ensures
            r == *self,
    {
        VariablePresentationHint {
            kind: clone_opt_string(&self.kind),
            visibility: clone_opt_string(&self.visibility),
            lazy: self.lazy,
        }
    }
}

impl Clone for Variable {
    fn clone(&self) -> (r: Self)
        ensures
            r == *self,
    {
        Variable {
            name: self.name.clone(),
            value: self.value.clone(),
            type_: clone_opt_string(&self.type_),
            presentation_hint: match &self.presentation_hint {
                Some(h) => Some(h.clone()),
                None => None,
            },
            evaluate_name: clone_opt_string(&self.evaluate_name),
            variables_reference: self.variables_reference,
            named_variables: self.named_variables,
            indexed_variables: self.indexed_variables,
            memory_reference: clone_opt_string(&self.memory_reference),
            declaration_location_reference: self.declaration_location_reference,
            value_location_reference: self.value_location_reference,
        }
    }
}

} // verus!
