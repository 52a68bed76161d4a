//! The wire messages that carry debugger state between collaborators.
//!
//! Enumerations travel as `i32` fields; each enumeration below has the
//! numbering of the wire schema (`to_i32`) and its inverse (`from_i32`).
use vstd::prelude::*;

verus! {

/// How a scope should be presented, on the wire.
#[derive(Clone, Copy, Debug, PartialEq, Eq, Structural)]
pub enum DapScopePresentationHint {
    Arguments,
    Locals,
    Registers,
    ReturnValue,
    ScopeUnknown,
}

impl DapScopePresentationHint {
    /// The number that stands for this value on the wire.
    pub open spec fn spec_to_i32(self) -> i32 {
        match self {
            DapScopePresentationHint::Arguments => 0,
            DapScopePresentationHint::Locals => 1,
            DapScopePresentationHint::Registers => 2,
            DapScopePresentationHint::ReturnValue => 3,
            DapScopePresentationHint::ScopeUnknown => 4,
        }
    }

    /// The value a wire number stands for, if any.
    pub open spec fn spec_from_i32(v: i32) -> Option<Self> {
        if v == 0 {
            Some(DapScopePresentationHint::Arguments)
        } else if v == 1 {
            Some(DapScopePresentationHint::Locals)
        } else if v == 2 {
            Some(DapScopePresentationHint::Registers)
        } else if v == 3 {
            Some(DapScopePresentationHint::ReturnValue)
        } else if v == 4 {
            Some(DapScopePresentationHint::ScopeUnknown)
        } else {
            None
        }
    }

    /// Reading back the number of a value gives the value.
    pub proof fn lemma_i32_round_trip(self)
        ensures
            Self::spec_from_i32(self.spec_to_i32()) == Some(self),
    {
    }

    pub fn to_i32(self) -> (r: i32)
        ensures
            r == self.spec_to_i32(),
    {
        match self {
            DapScopePresentationHint::Arguments => 0,
            DapScopePresentationHint::Locals => 1,
            DapScopePresentationHint::Registers => 2,
            DapScopePresentationHint::ReturnValue => 3,
            DapScopePresentationHint::ScopeUnknown => 4,
        }
    }

    pub fn from_i32(v: i32) -> (r: Option<Self>)
        ensures
            r == Self::spec_from_i32(v),
    {
        if v == 0 {
            Some(DapScopePresentationHint::Arguments)
        } else if v == 1 {
            Some(DapScopePresentationHint::Locals)
        } else if v == 2 {
            Some(DapScopePresentationHint::Registers)
        } else if v == 3 {
            Some(DapScopePresentationHint::ReturnValue)
        } else if v == 4 {
            Some(DapScopePresentationHint::ScopeUnknown)
        } else {
            None
        }
    }
}

/// How a source should be presented, on the wire.
#[derive(Clone, Copy, Debug, PartialEq, Eq, Structural)]
pub enum DapSourcePresentationHint {
    SourceNormal,
    Emphasize,
    Deemphasize,
    SourceUnknown,
}

impl DapSourcePresentationHint {
    /// The number that stands for this value on the wire.
    pub open spec fn spec_to_i32(self) -> i32 {
        match self {
            DapSourcePresentationHint::SourceNormal => 0,
            DapSourcePresentationHint::Emphasize => 1,
            DapSourcePresentationHint::Deemphasize => 2,
            DapSourcePresentationHint::SourceUnknown => 3,
        }
    }

    /// The value a wire number stands for, if any.
    pub open spec fn spec_from_i32(v: i32) -> Option<Self> {
        if v == 0 {
            Some(DapSourcePresentationHint::SourceNormal)
        } else if v == 1 {
            Some(DapSourcePresentationHint::Emphasize)
        } else if v == 2 {
            Some(DapSourcePresentationHint::Deemphasize)
        } else if v == 3 {
            Some(DapSourcePresentationHint::SourceUnknown)
        } else {
            None
        }
    }

    /// Reading back the number of a value gives the value.
    pub proof fn lemma_i32_round_trip(self)
        ensures
            Self::spec_from_i32(self.spec_to_i32()) == Some(self),
    {
    }

    pub fn to_i32(self) -> (r: i32)
        ensures
            r == self.spec_to_i32(),
    {
        match self {
            DapSourcePresentationHint::SourceNormal => 0,
            DapSourcePresentationHint::Emphasize => 1,
            DapSourcePresentationHint::Deemphasize => 2,
            DapSourcePresentationHint::SourceUnknown => 3,
        }
    }

    pub fn from_i32(v: i32) -> (r: Option<Self>)
        ensures
            r == Self::spec_from_i32(v),
    {
        if v == 0 {
            Some(DapSourcePresentationHint::SourceNormal)
        } else if v == 1 {
            Some(DapSourcePresentationHint::Emphasize)
        } else if v == 2 {
            Some(DapSourcePresentationHint::Deemphasize)
        } else if v == 3 {
            Some(DapSourcePresentationHint::SourceUnknown)
        } else {
            None
        }
    }
}

/// The algorithm of a checksum, on the wire; the first value stands for an unset field.
#[derive(Clone, Copy, Debug, PartialEq, Eq, Structural)]
pub enum DapChecksumAlgorithm {
    ChecksumAlgorithmUnspecified,
    Md5,
    Sha1,
    Sha256,
    Timestamp,
}

impl DapChecksumAlgorithm {
    /// The number that stands for this value on the wire.
    pub open spec fn spec_to_i32(self) -> i32 {
        match self {
            DapChecksumAlgorithm::ChecksumAlgorithmUnspecified => 0,
            DapChecksumAlgorithm::Md5 => 1,
            DapChecksumAlgorithm::Sha1 => 2,
            DapChecksumAlgorithm::Sha256 => 3,
            DapChecksumAlgorithm::Timestamp => 4,
        }
    }

    /// The value a wire number stands for, if any.
    pub open spec fn spec_from_i32(v: i32) -> Option<Self> {
        if v == 0 {
            Some(DapChecksumAlgorithm::ChecksumAlgorithmUnspecified)
        } else if v == 1 {
            Some(DapChecksumAlgorithm::Md5)
        } else if v == 2 {
            Some(DapChecksumAlgorithm::Sha1)
        } else if v == 3 {
            Some(DapChecksumAlgorithm::Sha256)
        } else if v == 4 {
            Some(DapChecksumAlgorithm::Timestamp)
        } else {
            None
        }
    }

    /// Reading back the number of a value gives the value.
    pub proof fn lemma_i32_round_trip(self)
        ensures
            Self::spec_from_i32(self.spec_to_i32()) == Some(self),
    {
    }

    pub fn to_i32(self) -> (r: i32)
        ensures
            r == self.spec_to_i32(),
    {
        match self {
            DapChecksumAlgorithm::ChecksumAlgorithmUnspecified => 0,
            DapChecksumAlgorithm::Md5 => 1,
            DapChecksumAlgorithm::Sha1 => 2,
            DapChecksumAlgorithm::Sha256 => 3,
            DapChecksumAlgorithm::Timestamp => 4,
        }
    }

    pub fn from_i32(v: i32) -> (r: Option<Self>)
        ensures
            r == Self::spec_from_i32(v),
    {
        if v == 0 {
            Some(DapChecksumAlgorithm::ChecksumAlgorithmUnspecified)
        } else if v == 1 {
            Some(DapChecksumAlgorithm::Md5)
        } else if v == 2 {
            Some(DapChecksumAlgorithm::Sha1)
        } else if v == 3 {
            Some(DapChecksumAlgorithm::Sha256)
        } else if v == 4 {
            Some(DapChecksumAlgorithm::Timestamp)
        } else {
            None
        }
    }
}

/// The unit of a step request, on the wire.
#[derive(Clone, Copy, Debug, PartialEq, Eq, Structural)]
pub enum SteppingGranularity {
    Statement,
    Line,
    Instruction,
}

impl SteppingGranularity {
    /// The number that stands for this value on the wire.
    pub open spec fn spec_to_i32(self) -> i32 {
        match self {
            SteppingGranularity::Statement => 0,
            SteppingGranularity::Line => 1,
            SteppingGranularity::Instruction => 2,
        }
    }

    /// The value a wire number stands for, if any.
    pub open spec fn spec_from_i32(v: i32) -> Option<Self> {
        if v == 0 {
            Some(SteppingGranularity::Statement)
        } else if v == 1 {
            Some(SteppingGranularity::Line)
        } else if v == 2 {
            Some(SteppingGranularity::Instruction)
        } else {
            None
        }
    }

    /// Reading back the number of a value gives the value.
    pub proof fn lemma_i32_round_trip(self)
        ensures
            Self::spec_from_i32(self.spec_to_i32()) == Some(self),
    {
    }

    pub fn to_i32(self) -> (r: i32)
        ensures
            r == self.spec_to_i32(),
    {
        match self {
            SteppingGranularity::Statement => 0,
            SteppingGranularity::Line => 1,
            SteppingGranularity::Instruction => 2,
        }
    }

    pub fn from_i32(v: i32) -> (r: Option<Self>)
        ensures
            r == Self::spec_from_i32(v),
    {
        if v == 0 {
            Some(SteppingGranularity::Statement)
        } else if v == 1 {
            Some(SteppingGranularity::Line)
        } else if v == 2 {
            Some(SteppingGranularity::Instruction)
        } else {
            None
        }
    }
}

/// The category of an output event, on the wire.
#[derive(Clone, Copy, Debug, PartialEq, Eq, Structural)]
pub enum DapOutputCategory {
    ConsoleOutput,
    Important,
    Stdout,
    Stderr,
    Unknown,
    Telemetry,
}

impl DapOutputCategory {
    /// The number that stands for this value on the wire.
    pub open spec fn spec_to_i32(self) -> i32 {
        match self {
            DapOutputCategory::ConsoleOutput => 0,
            DapOutputCategory::Important => 1,
            DapOutputCategory::Stdout => 2,
            DapOutputCategory::Stderr => 3,
            DapOutputCategory::Unknown => 4,
            DapOutputCategory::Telemetry => 5,
        }
    }

    /// The value a wire number stands for, if any.
    pub open spec fn spec_from_i32(v: i32) -> Option<Self> {
        if v == 0 {
            Some(DapOutputCategory::ConsoleOutput)
        } else if v == 1 {
            Some(DapOutputCategory::Important)
        } else if v == 2 {
            Some(DapOutputCategory::Stdout)
        } else if v == 3 {
            Some(DapOutputCategory::Stderr)
        } else if v == 4 {
            Some(DapOutputCategory::Unknown)
        } else if v == 5 {
            Some(DapOutputCategory::Telemetry)
        } else {
            None
        }
    }

    /// Reading back the number of a value gives the value.
    pub proof fn lemma_i32_round_trip(self)
        ensures
            Self::spec_from_i32(self.spec_to_i32()) == Some(self),
    {
    }

    pub fn to_i32(self) -> (r: i32)
        ensures
            r == self.spec_to_i32(),
    {
        match self {
            DapOutputCategory::ConsoleOutput => 0,
            DapOutputCategory::Important => 1,
            DapOutputCategory::Stdout => 2,
            DapOutputCategory::Stderr => 3,
            DapOutputCategory::Unknown => 4,
            DapOutputCategory::Telemetry => 5,
        }
    }

    pub fn from_i32(v: i32) -> (r: Option<Self>)
        ensures
            r == Self::spec_from_i32(v),
    {
        if v == 0 {
            Some(DapOutputCategory::ConsoleOutput)
        } else if v == 1 {
            Some(DapOutputCategory::Important)
        } else if v == 2 {
            Some(DapOutputCategory::Stdout)
        } else if v == 3 {
            Some(DapOutputCategory::Stderr)
        } else if v == 4 {
            Some(DapOutputCategory::Unknown)
        } else if v == 5 {
            Some(DapOutputCategory::Telemetry)
        } else {
            None
        }
    }
}

/// The grouping of an output event, on the wire.
#[derive(Clone, Copy, Debug, PartialEq, Eq, Structural)]
pub enum DapOutputEventGroup {
    Start,
    StartCollapsed,
    End,
}

impl DapOutputEventGroup {
    /// The number that stands for this value on the wire.
    pub open spec fn spec_to_i32(self) -> i32 {
        match self {
            DapOutputEventGroup::Start => 0,
            DapOutputEventGroup::StartCollapsed => 1,
            DapOutputEventGroup::End => 2,
        }
    }

    /// The value a wire number stands for, if any.
    pub open spec fn spec_from_i32(v: i32) -> Option<Self> {
        if v == 0 {
            Some(DapOutputEventGroup::Start)
        } else if v == 1 {
            Some(DapOutputEventGroup::StartCollapsed)
        } else if v == 2 {
            Some(DapOutputEventGroup::End)
        } else {
            None
        }
    }

    /// Reading back the number of a value gives the value.
    pub proof fn lemma_i32_round_trip(self)
        ensures
            Self::spec_from_i32(self.spec_to_i32()) == Some(self),
    {
    }

    pub fn to_i32(self) -> (r: i32)
        ensures
            r == self.spec_to_i32(),
    {
        match self {
            DapOutputEventGroup::Start => 0,
            DapOutputEventGroup::StartCollapsed => 1,
            DapOutputEventGroup::End => 2,
        }
    }

    pub fn from_i32(v: i32) -> (r: Option<Self>)
        ensures
            r == Self::spec_from_i32(v),
    {
        if v == 0 {
            Some(DapOutputEventGroup::Start)
        } else if v == 1 {
            Some(DapOutputEventGroup::StartCollapsed)
        } else if v == 2 {
            Some(DapOutputEventGroup::End)
        } else {
            None
        }
    }
}

/// The context of an evaluation, on the wire.
#[derive(Clone, Copy, Debug, PartialEq, Eq, Structural)]
pub enum DapEvaluateContext {
    EvaluateVariables,
    Watch,
    Hover,
    Repl,
    Clipboard,
    EvaluateUnknown,
}

impl DapEvaluateContext {
    /// The number that stands for this value on the wire.
    pub open spec fn spec_to_i32(self) -> i32 {
        match self {
            DapEvaluateContext::EvaluateVariables => 0,
            DapEvaluateContext::Watch => 1,
            DapEvaluateContext::Hover => 2,
            DapEvaluateContext::Repl => 3,
            DapEvaluateContext::Clipboard => 4,
            DapEvaluateContext::EvaluateUnknown => 5,
        }
    }

    /// The value a wire number stands for, if any.
    pub open spec fn spec_from_i32(v: i32) -> Option<Self> {
        if v == 0 {
            Some(DapEvaluateContext::EvaluateVariables)
        } else if v == 1 {
            Some(DapEvaluateContext::Watch)
        } else if v == 2 {
            Some(DapEvaluateContext::Hover)
        } else if v == 3 {
            Some(DapEvaluateContext::Repl)
        } else if v == 4 {
            Some(DapEvaluateContext::Clipboard)
        } else if v == 5 {
            Some(DapEvaluateContext::EvaluateUnknown)
        } else {
            None
        }
    }

    /// Reading back the number of a value gives the value.
    pub proof fn lemma_i32_round_trip(self)
        ensures
            Self::spec_from_i32(self.spec_to_i32()) == Some(self),
    {
    }

    pub fn to_i32(self) -> (r: i32)
        ensures
            r == self.spec_to_i32(),
    {
        match self {
            DapEvaluateContext::EvaluateVariables => 0,
            DapEvaluateContext::Watch => 1,
            DapEvaluateContext::Hover => 2,
            DapEvaluateContext::Repl => 3,
            DapEvaluateContext::Clipboard => 4,
            DapEvaluateContext::EvaluateUnknown => 5,
        }
    }

    pub fn from_i32(v: i32) -> (r: Option<Self>)
        ensures
            r == Self::spec_from_i32(v),
    {
        if v == 0 {
            Some(DapEvaluateContext::EvaluateVariables)
        } else if v == 1 {
            Some(DapEvaluateContext::Watch)
        } else if v == 2 {
            Some(DapEvaluateContext::Hover)
        } else if v == 3 {
            Some(DapEvaluateContext::Repl)
        } else if v == 4 {
            Some(DapEvaluateContext::Clipboard)
        } else if v == 5 {
            Some(DapEvaluateContext::EvaluateUnknown)
        } else {
            None
        }
    }
}

/// The kind of a completion item, on the wire.
#[derive(Clone, Copy, Debug, PartialEq, Eq, Structural)]
pub enum DapCompletionItemType {
    Method,
    Function,
    Constructor,
    Field,
    Variable,
    Class,
    Interface,
    Module,
    Property,
    Unit,
    Value,
    Enum,
    Keyword,
    Snippet,
    Text,
    Color,
    CompletionItemFile,
    Reference,
    Customcolor,
}

impl DapCompletionItemType {
    /// The number that stands for this value on the wire.
    pub open spec fn spec_to_i32(self) -> i32 {
        match self {
            DapCompletionItemType::Method => 0,
            DapCompletionItemType::Function => 1,
            DapCompletionItemType::Constructor => 2,
            DapCompletionItemType::Field => 3,
            DapCompletionItemType::Variable => 4,
            DapCompletionItemType::Class => 5,
            DapCompletionItemType::Interface => 6,
            DapCompletionItemType::Module => 7,
            DapCompletionItemType::Property => 8,
            DapCompletionItemType::Unit => 9,
            DapCompletionItemType::Value => 10,
            DapCompletionItemType::Enum => 11,
            DapCompletionItemType::Keyword => 12,
            DapCompletionItemType::Snippet => 13,
            DapCompletionItemType::Text => 14,
            DapCompletionItemType::Color => 15,
            DapCompletionItemType::CompletionItemFile => 16,
            DapCompletionItemType::Reference => 17,
            DapCompletionItemType::Customcolor => 18,
        }
    }

    /// The value a wire number stands for, if any.
    pub open spec fn spec_from_i32(v: i32) -> Option<Self> {
        if v == 0 {
            Some(DapCompletionItemType::Method)
        } else if v == 1 {
            Some(DapCompletionItemType::Function)
        } else if v == 2 {
            Some(DapCompletionItemType::Constructor)
        } else if v == 3 {
            Some(DapCompletionItemType::Field)
        } else if v == 4 {
            Some(DapCompletionItemType::Variable)
        } else if v == 5 {
            Some(DapCompletionItemType::Class)
        } else if v == 6 {
            Some(DapCompletionItemType::Interface)
        } else if v == 7 {
            Some(DapCompletionItemType::Module)
        } else if v == 8 {
            Some(DapCompletionItemType::Property)
        } else if v == 9 {
            Some(DapCompletionItemType::Unit)
        } else if v == 10 {
            Some(DapCompletionItemType::Value)
        } else if v == 11 {
            Some(DapCompletionItemType::Enum)
        } else if v == 12 {
            Some(DapCompletionItemType::Keyword)
        } else if v == 13 {
            Some(DapCompletionItemType::Snippet)
        } else if v == 14 {
            Some(DapCompletionItemType::Text)
        } else if v == 15 {
            Some(DapCompletionItemType::Color)
        } else if v == 16 {
            Some(DapCompletionItemType::CompletionItemFile)
        } else if v == 17 {
            Some(DapCompletionItemType::Reference)
        } else if v == 18 {
            Some(DapCompletionItemType::Customcolor)
        } else {
            None
        }
    }

    /// Reading back the number of a value gives the value.
    pub proof fn lemma_i32_round_trip(self)
        ensures
            Self::spec_from_i32(self.spec_to_i32()) == Some(self),
    {
    }

    pub fn to_i32(self) -> (r: i32)
        ensures
            r == self.spec_to_i32(),
    {
        match self {
            DapCompletionItemType::Method => 0,
            DapCompletionItemType::Function => 1,
            DapCompletionItemType::Constructor => 2,
            DapCompletionItemType::Field => 3,
            DapCompletionItemType::Variable => 4,
            DapCompletionItemType::Class => 5,
            DapCompletionItemType::Interface => 6,
            DapCompletionItemType::Module => 7,
            DapCompletionItemType::Property => 8,
            DapCompletionItemType::Unit => 9,
            DapCompletionItemType::Value => 10,
            DapCompletionItemType::Enum => 11,
            DapCompletionItemType::Keyword => 12,
            DapCompletionItemType::Snippet => 13,
            DapCompletionItemType::Text => 14,
            DapCompletionItemType::Color => 15,
            DapCompletionItemType::CompletionItemFile => 16,
            DapCompletionItemType::Reference => 17,
            DapCompletionItemType::Customcolor => 18,
        }
    }

    pub fn from_i32(v: i32) -> (r: Option<Self>)
        ensures
            r == Self::spec_from_i32(v),
    {
        if v == 0 {
            Some(DapCompletionItemType::Method)
        } else if v == 1 {
            Some(DapCompletionItemType::Function)
        } else if v == 2 {
            Some(DapCompletionItemType::Constructor)
        } else if v == 3 {
            Some(DapCompletionItemType::Field)
        } else if v == 4 {
            Some(DapCompletionItemType::Variable)
        } else if v == 5 {
            Some(DapCompletionItemType::Class)
        } else if v == 6 {
            Some(DapCompletionItemType::Interface)
        } else if v == 7 {
            Some(DapCompletionItemType::Module)
        } else if v == 8 {
            Some(DapCompletionItemType::Property)
        } else if v == 9 {
            Some(DapCompletionItemType::Unit)
        } else if v == 10 {
            Some(DapCompletionItemType::Value)
        } else if v == 11 {
            Some(DapCompletionItemType::Enum)
        } else if v == 12 {
            Some(DapCompletionItemType::Keyword)
        } else if v == 13 {
            Some(DapCompletionItemType::Snippet)
        } else if v == 14 {
            Some(DapCompletionItemType::Text)
        } else if v == 15 {
            Some(DapCompletionItemType::Color)
        } else if v == 16 {
            Some(DapCompletionItemType::CompletionItemFile)
        } else if v == 17 {
            Some(DapCompletionItemType::Reference)
        } else if v == 18 {
            Some(DapCompletionItemType::Customcolor)
        } else {
            None
        }
    }
}

/// When to break on an exception, on the wire.
#[derive(Clone, Copy, Debug, PartialEq, Eq, Structural)]
pub enum ExceptionBreakMode {
    Never,
    Always,
    Unhandled,
    AlwaysUnhandled,
}

impl ExceptionBreakMode {
    /// The number that stands for this value on the wire.
    pub open spec fn spec_to_i32(self) -> i32 {
        match self {
            ExceptionBreakMode::Never => 0,
            ExceptionBreakMode::Always => 1,
            ExceptionBreakMode::Unhandled => 2,
            ExceptionBreakMode::AlwaysUnhandled => 3,
        }
    }

    /// The value a wire number stands for, if any.
    pub open spec fn spec_from_i32(v: i32) -> Option<Self> {
        if v == 0 {
            Some(ExceptionBreakMode::Never)
        } else if v == 1 {
            Some(ExceptionBreakMode::Always)
        } else if v == 2 {
            Some(ExceptionBreakMode::Unhandled)
        } else if v == 3 {
            Some(ExceptionBreakMode::AlwaysUnhandled)
        } else {
            None
        }
    }

    /// Reading back the number of a value gives the value.
    pub proof fn lemma_i32_round_trip(self)
        ensures
            Self::spec_from_i32(self.spec_to_i32()) == Some(self),
    {
    }

    pub fn to_i32(self) -> (r: i32)
        ensures
            r == self.spec_to_i32(),
    {
        match self {
            ExceptionBreakMode::Never => 0,
            ExceptionBreakMode::Always => 1,
            ExceptionBreakMode::Unhandled => 2,
            ExceptionBreakMode::AlwaysUnhandled => 3,
        }
    }

    pub fn from_i32(v: i32) -> (r: Option<Self>)
        ensures
            r == Self::spec_from_i32(v),
    {
        if v == 0 {
            Some(ExceptionBreakMode::Never)
        } else if v == 1 {
            Some(ExceptionBreakMode::Always)
        } else if v == 2 {
            Some(ExceptionBreakMode::Unhandled)
        } else if v == 3 {
            Some(ExceptionBreakMode::AlwaysUnhandled)
        } else {
            None
        }
    }
}

/// Why a breakpoint is not verified, on the wire.
#[derive(Clone, Copy, Debug, PartialEq, Eq, Structural)]
pub enum DapBreakpointReason {
    Pending,
    Failed,
}

impl DapBreakpointReason {
    /// The number that stands for this value on the wire.
    pub open spec fn spec_to_i32(self) -> i32 {
        match self {
            DapBreakpointReason::Pending => 0,
            DapBreakpointReason::Failed => 1,
        }
    }

    /// The value a wire number stands for, if any.
    pub open spec fn spec_from_i32(v: i32) -> Option<Self> {
        if v == 0 {
            Some(DapBreakpointReason::Pending)
        } else if v == 1 {
            Some(DapBreakpointReason::Failed)
        } else {
            None
        }
    }

    /// Reading back the number of a value gives the value.
    pub proof fn lemma_i32_round_trip(self)
        ensures
            Self::spec_from_i32(self.spec_to_i32()) == Some(self),
    {
    }

    pub fn to_i32(self) -> (r: i32)
        ensures
            r == self.spec_to_i32(),
    {
        match self {
            DapBreakpointReason::Pending => 0,
            DapBreakpointReason::Failed => 1,
        }
    }

    pub fn from_i32(v: i32) -> (r: Option<Self>)
        ensures
            r == Self::spec_from_i32(v),
    {
        if v == 0 {
            Some(DapBreakpointReason::Pending)
        } else if v == 1 {
            Some(DapBreakpointReason::Failed)
        } else {
            None
        }
    }
}

/// What a breakpoint mode applies to, on the wire.
#[derive(Clone, Copy, Debug, PartialEq, Eq, Structural)]
pub enum BreakpointModeApplicability {
    Source,
    Exception,
    Data,
    InstructionBreakpoint,
    BreakpointModeUnknown,
}

impl BreakpointModeApplicability {
    /// The number that stands for this value on the wire.
    pub open spec fn spec_to_i32(self) -> i32 {
        match self {
            BreakpointModeApplicability::Source => 0,
            BreakpointModeApplicability::Exception => 1,
            BreakpointModeApplicability::Data => 2,
            BreakpointModeApplicability::InstructionBreakpoint => 3,
            BreakpointModeApplicability::BreakpointModeUnknown => 4,
        }
    }

    /// The value a wire number stands for, if any.
    pub open spec fn spec_from_i32(v: i32) -> Option<Self> {
        if v == 0 {
            Some(BreakpointModeApplicability::Source)
        } else if v == 1 {
            Some(BreakpointModeApplicability::Exception)
        } else if v == 2 {
            Some(BreakpointModeApplicability::Data)
        } else if v == 3 {
            Some(BreakpointModeApplicability::InstructionBreakpoint)
        } else if v == 4 {
            Some(BreakpointModeApplicability::BreakpointModeUnknown)
        } else {
            None
        }
    }

    /// Reading back the number of a value gives the value.
    pub proof fn lemma_i32_round_trip(self)
        ensures
            Self::spec_from_i32(self.spec_to_i32()) == Some(self),
    {
    }

    pub fn to_i32(self) -> (r: i32)
        ensures
            r == self.spec_to_i32(),
    {
        match self {
            BreakpointModeApplicability::Source => 0,
            BreakpointModeApplicability::Exception => 1,
            BreakpointModeApplicability::Data => 2,
            BreakpointModeApplicability::InstructionBreakpoint => 3,
            BreakpointModeApplicability::BreakpointModeUnknown => 4,
        }
    }

    pub fn from_i32(v: i32) -> (r: Option<Self>)
        ensures
            r == Self::spec_from_i32(v),
    {
        if v == 0 {
            Some(BreakpointModeApplicability::Source)
        } else if v == 1 {
            Some(BreakpointModeApplicability::Exception)
        } else if v == 2 {
            Some(BreakpointModeApplicability::Data)
        } else if v == 3 {
            Some(BreakpointModeApplicability::InstructionBreakpoint)
        } else if v == 4 {
            Some(BreakpointModeApplicability::BreakpointModeUnknown)
        } else {
            None
        }
    }
}


/// A checksum, on the wire.
#[derive(Clone, Debug, PartialEq)]
pub struct DapChecksum {
    pub algorithm: i32,
    pub checksum: String,
}

/// A source, on the wire.
#[derive(Debug, PartialEq)]
pub struct DapSource {
    pub name: Option<String>,
    pub path: Option<String>,
    pub source_reference: Option<i32>,
    pub presentation_hint: Option<i32>,
    pub origin: Option<String>,
    pub sources: Vec<DapSource>,
    pub adapter_data: Option<String>,
    pub checksums: Vec<DapChecksum>,
}

/// A scope, on the wire.
#[derive(Clone, Debug, PartialEq)]
pub struct DapScope {
    pub name: String,
    pub presentation_hint: Option<i32>,
    pub variables_reference: u64,
    pub named_variables: Option<u64>,
    pub indexed_variables: Option<u64>,
    pub expensive: bool,
    pub source: Option<DapSource>,
    pub line: Option<u64>,
    pub column: Option<u64>,
    pub end_line: Option<u64>,
    pub end_column: Option<u64>,
}

/// A variable, on the wire.
#[derive(Clone, Debug, PartialEq)]
pub struct DapVariable {
    pub name: String,
    pub value: String,
    pub type_: Option<String>,
    pub evaluate_name: Option<String>,
    pub variables_reference: u64,
    pub named_variables: Option<u64>,
    pub indexed_variables: Option<u64>,
    pub memory_reference: Option<String>,
}

/// The id of a module, on the wire.
#[derive(Clone, Debug, PartialEq)]
pub enum DapModuleIdKind {
    Number(i32),
    String(String),
}

/// The optional id of a module, on the wire.
#[derive(Clone, Debug, PartialEq)]
pub struct DapModuleId {
    pub id: Option<DapModuleIdKind>,
}

/// A stack frame, on the wire.
#[derive(Clone, Debug, PartialEq)]
pub struct DapStackFrame {
    pub id: u64,
    pub name: String,
    pub source: Option<DapSource>,
    pub line: u64,
    pub column: u64,
    pub end_line: Option<u64>,
    pub end_column: Option<u64>,
    pub can_restart: Option<bool>,
    pub instruction_pointer_reference: Option<String>,
    pub module_id: Option<DapModuleId>,
    pub presentation_hint: Option<i32>,
}

/// A module, on the wire.
#[derive(Clone, Debug, PartialEq)]
pub struct DapModule {
    pub id: Option<DapModuleId>,
    pub name: String,
    pub path: Option<String>,
    pub is_optimized: Option<bool>,
    pub is_user_code: Option<bool>,
    pub version: Option<String>,
    pub symbol_status: Option<String>,
    pub symbol_file_path: Option<String>,
    pub date_time_stamp: Option<String>,
    pub address_range: Option<String>,
}

/// An output event, on the wire.
#[derive(Clone, Debug, PartialEq)]
pub struct DapOutputEvent {
    pub category: Option<i32>,
    pub output: String,
    pub variables_reference: Option<u64>,
    pub source: Option<DapSource>,
    pub line: Option<u32>,
    pub column: Option<u32>,
    pub group: Option<i32>,
}

/// A completion item, on the wire.
#[derive(Clone, Debug, PartialEq)]
pub struct DapCompletionItem {
    pub label: String,
    pub text: Option<String>,
    pub detail: Option<String>,
    pub typ: Option<i32>,
    pub start: Option<u64>,
    pub length: Option<u64>,
    pub selection_start: Option<u64>,
    pub selection_length: Option<u64>,
    pub sort_text: Option<String>,
}

/// A thread, on the wire.
#[derive(Clone, Debug, PartialEq)]
pub struct DapThread {
    pub id: u64,
    pub name: String,
}

/// A segment of an exception path, on the wire.
#[derive(Clone, Debug, PartialEq)]
pub struct ExceptionPathSegment {
    pub negate: Option<bool>,
    pub names: Vec<String>,
}

/// Exception options, on the wire.
#[derive(Clone, Debug, PartialEq)]
pub struct ExceptionOptions {
    pub path: Vec<ExceptionPathSegment>,
    pub break_mode: i32,
}

/// Exception filter options, on the wire.
#[derive(Clone, Debug, PartialEq)]
pub struct ExceptionFilterOptions {
    pub filter_id: String,
    pub condition: Option<String>,
    pub mode: Option<String>,
}

/// A breakpoint reported by the adapter, on the wire.
#[derive(Clone, Debug, PartialEq)]
pub struct DapBreakpoint {
    pub id: Option<i64>,
    pub verified: bool,
    pub message: Option<String>,
    pub source: Option<DapSource>,
    pub line: Option<u32>,
    pub column: Option<u32>,
    pub end_line: Option<u32>,
    pub end_column: Option<u32>,
    pub instruction_reference: Option<String>,
    pub offset: Option<u32>,
    pub reason: Option<i32>,
}

/// A breakpoint mode, on the wire.
#[derive(Clone, Debug, PartialEq)]
pub struct BreakpointMode {
    pub mode: String,
    pub label: String,
    pub description: Option<String>,
    pub applies_to: Vec<i32>,
}

/// An exception filter, on the wire.
#[derive(Clone, Debug, PartialEq)]
pub struct ExceptionBreakpointsFilter {
    pub filter: String,
    pub label: String,
    pub description: Option<String>,
    pub default_value: Option<bool>,
    pub supports_condition: Option<bool>,
    pub condition_description: Option<String>,
}

/// The abstract value of a wire source: nested sources and checksums as
/// sequences.
pub struct DapSourceView {
    pub name: Option<String>,
    pub path: Option<String>,
    pub source_reference: Option<i32>,
    pub presentation_hint: Option<i32>,
    pub origin: Option<String>,
    pub sources: Seq<DapSourceView>,
    pub adapter_data: Option<String>,
    pub checksums: Seq<DapChecksum>,
}

/// The abstract value of a wire source.
pub open spec fn dap_source_view(s: DapSource) -> DapSourceView
    decreases s, 1int,
{
    DapSourceView {
        name: s.name,
        path: s.path,
        source_reference: s.source_reference,
        presentation_hint: s.presentation_hint,
        origin: s.origin,
        sources: dap_sources_view(s.sources@),
        adapter_data: s.adapter_data,
        checksums: s.checksums@,
    }
}

/// The abstract values of a sequence of wire sources, element by element.
pub open spec fn dap_sources_view(v: Seq<DapSource>) -> Seq<DapSourceView>
    decreases v, 0int,
{
    if v.len() == 0 {
        Seq::empty()
    } else {
        dap_sources_view(v.subrange(0, v.len() - 1)).push(dap_source_view(v.last()))
    }
}

/// `dap_sources_view` has the length of its argument and views each element.
pub proof fn lemma_dap_sources_view(v: Seq<DapSource>)
    ensures
        dap_sources_view(v).len() == v.len(),
        forall|i: int| 0 <= i < v.len() ==> #[trigger] dap_sources_view(v)[i] == dap_source_view(v[i]),
    decreases v.len(),
{
    if v.len() > 0 {
        let w = v.subrange(0, v.len() - 1);
        lemma_dap_sources_view(w);
        assert forall|i: int| 0 <= i < v.len() implies #[trigger] dap_sources_view(v)[i] == dap_source_view(v[i]) by {
            if i < v.len() - 1 {
                assert(w[i] == v[i]);
            }
        }
    }
}

/// Two sequences of wire sources with equal element views have equal views.
pub proof fn lemma_dap_sources_view_ext(a: Seq<DapSource>, b: Seq<DapSource>)
    requires
        a.len() == b.len(),
        forall|i: int| 0 <= i < a.len() ==> dap_source_view(#[trigger] a[i]) == dap_source_view(b[i]),
    ensures
        dap_sources_view(a) == dap_sources_view(b),
{
    lemma_dap_sources_view(a);
    lemma_dap_sources_view(b);
    assert(dap_sources_view(a) =~= dap_sources_view(b));
}

impl DapSource {
    /// A copy of this wire source, nested sources included.
    pub fn clone_source(&self) -> (r: DapSource)
        ensures
            r@ == self@,
        decreases self,
    {
        let v = &self.sources;
        let mut out: Vec<DapSource> = Vec::new();
        let mut i: usize = 0;
        while i < v.len()
            invariant
                v == &self.sources,
                i <= v.len(),
                out@.len() == i,
                forall|j: int| 0 <= j < i ==> dap_source_view(#[trigger] out@[j]) == dap_source_view(v@[j]),
            decreases v.len() - i,
        {
            proof {
                assert(decreases_to!(*self => self.sources));
                assert(decreases_to!(self.sources => self.sources@));
                assert(decreases_to!(self.sources@ => self.sources@[i as int]));
            }
            let c = v[i].clone_source();
            out.push(c);
            i += 1;
        }
        proof {
            lemma_dap_sources_view_ext(out@, v@);
        }
        let mut checksums: Vec<DapChecksum> = Vec::new();
        let mut k: usize = 0;
        while k < self.checksums.len()
            invariant
                k <= self.checksums.len(),
                checksums@ =~= self.checksums@.subrange(0, k as int),
            decreases self.checksums.len() - k,
        {
            let c = &self.checksums[k];
            checksums.push(DapChecksum { algorithm: c.algorithm, checksum: c.checksum.clone() });
            k += 1;
        }
        assert(checksums@ =~= self.checksums@);
        DapSource {
            name: crate::dap::clone_opt_string(&self.name),
            path: crate::dap::clone_opt_string(&self.path),
            source_reference: self.source_reference,
            presentation_hint: self.presentation_hint,
            origin: crate::dap::clone_opt_string(&self.origin),
            sources: out,
            adapter_data: crate::dap::clone_opt_string(&self.adapter_data),
            checksums,
        }
    }
}

impl Clone for DapSource {
    fn clone(&self) -> (r: Self)
        ensures
            r@ == self@,
    {
        self.clone_source()
    }
}

impl View for DapSource {
    type V = DapSourceView;

    open spec fn view(&self) -> DapSourceView {
        dap_source_view(*self)
    }
}

/// The abstract value of an optional wire source.
pub open spec fn opt_dap_source_view(s: Option<DapSource>) -> Option<DapSourceView> {
    match s {
        Some(s) => Some(s@),
        None => None,
    }
}

/// The abstract value of a wire scope.
pub struct DapScopeView {
    pub name: String,
    pub presentation_hint: Option<i32>,
    pub variables_reference: u64,
    pub named_variables: Option<u64>,
    pub indexed_variables: Option<u64>,
    pub expensive: bool,
    pub source: Option<DapSourceView>,
    pub line: Option<u64>,
    pub column: Option<u64>,
    pub end_line: Option<u64>,
    pub end_column: Option<u64>,
}

impl View for DapScope {
    type V = DapScopeView;

    open spec fn view(&self) -> DapScopeView {
        DapScopeView {
            name: self.name,
            presentation_hint: self.presentation_hint,
            variables_reference: self.variables_reference,
            named_variables: self.named_variables,
            indexed_variables: self.indexed_variables,
            expensive: self.expensive,
            source: opt_dap_source_view(self.source),
            line: self.line,
            column: self.column,
            end_line: self.end_line,
            end_column: self.end_column,
        }
    }
}

/// The abstract value of a wire stack frame.
pub struct DapStackFrameView {
    pub id: u64,
    pub name: String,
    pub source: Option<DapSourceView>,
    pub line: u64,
    pub column: u64,
    pub end_line: Option<u64>,
    pub end_column: Option<u64>,
    pub can_restart: Option<bool>,
    pub instruction_pointer_reference: Option<String>,
    pub module_id: Option<DapModuleId>,
    pub presentation_hint: Option<i32>,
}

impl View for DapStackFrame {
    type V = DapStackFrameView;

    open spec fn view(&self) -> DapStackFrameView {
        DapStackFrameView {
            id: self.id,
            name: self.name,
            source: opt_dap_source_view(self.source),
            line: self.line,
            column: self.column,
            end_line: self.end_line,
            end_column: self.end_column,
            can_restart: self.can_restart,
            instruction_pointer_reference: self.instruction_pointer_reference,
            module_id: self.module_id,
            presentation_hint: self.presentation_hint,
        }
    }
}

/// The abstract value of a wire output event.
pub struct DapOutputEventView {
    pub category: Option<i32>,
    pub output: String,
    pub variables_reference: Option<u64>,
    pub source: Option<DapSourceView>,
    pub line: Option<u32>,
    pub column: Option<u32>,
    pub group: Option<i32>,
}

impl View for DapOutputEvent {
    type V = DapOutputEventView;

    open spec fn view(&self) -> DapOutputEventView {
        DapOutputEventView {
            category: self.category,
            output: self.output,
            variables_reference: self.variables_reference,
            source: opt_dap_source_view(self.source),
            line: self.line,
            column: self.column,
            group: self.group,
        }
    }
}

/// The abstract value of a wire breakpoint.
pub struct DapBreakpointView {
    pub id: Option<i64>,
    pub verified: bool,
    pub message: Option<String>,
    pub source: Option<DapSourceView>,
    pub line: Option<u32>,
    pub column: Option<u32>,
    pub end_line: Option<u32>,
    pub end_column: Option<u32>,
    pub instruction_reference: Option<String>,
    pub offset: Option<u32>,
    pub reason: Option<i32>,
}

impl View for DapBreakpoint {
    type V = DapBreakpointView;

    open spec fn view(&self) -> DapBreakpointView {
        DapBreakpointView {
            id: self.id,
            verified: self.verified,
            message: self.message,
            source: opt_dap_source_view(self.source),
            line: self.line,
            column: self.column,
            end_line: self.end_line,
            end_column: self.end_column,
            instruction_reference: self.instruction_reference,
            offset: self.offset,
            reason: self.reason,
        }
    }
}

/// The abstract value of a wire exception path segment.
pub struct ExceptionPathSegmentView {
    pub negate: Option<bool>,
    pub names: Seq<String>,
}

impl View for ExceptionPathSegment {
    type V = ExceptionPathSegmentView;

    open spec fn view(&self) -> ExceptionPathSegmentView {
        ExceptionPathSegmentView { negate: self.negate, names: self.names@ }
    }
}

/// The abstract value of wire exception options.
pub struct ExceptionOptionsView {
    pub path: Seq<ExceptionPathSegmentView>,
    pub break_mode: i32,
}

impl View for ExceptionOptions {
    type V = ExceptionOptionsView;

    open spec fn view(&self) -> ExceptionOptionsView {
        ExceptionOptionsView {
            path: self.path@.map_values(|s: ExceptionPathSegment| s@),
            break_mode: self.break_mode,
        }
    }
}

/// The abstract value of a wire breakpoint mode.
pub struct BreakpointModeView {
    pub mode: String,
    pub label: String,
    pub description: Option<String>,
    pub applies_to: Seq<i32>,
}

impl View for BreakpointMode {
    type V = BreakpointModeView;

    open spec fn view(&self) -> BreakpointModeView {
        BreakpointModeView {
            mode: self.mode,
            label: self.label,
            description: self.description,
            applies_to: self.applies_to@,
        }
    }
}

/// The features a debug adapter supports, on the wire; lists are empty when missing.
#[derive(Clone, Debug, PartialEq, Default)]
pub struct Capabilities {
    pub supports_configuration_done_request: Option<bool>,
    pub supports_function_breakpoints: Option<bool>,
    pub supports_conditional_breakpoints: Option<bool>,
    pub supports_hit_conditional_breakpoints: Option<bool>,
    pub supports_evaluate_for_hovers: Option<bool>,
    pub exception_breakpoint_filters: Vec<ExceptionBreakpointsFilter>,
    pub supports_step_back: Option<bool>,
    pub supports_set_variable: Option<bool>,
    pub supports_restart_frame: Option<bool>,
    pub supports_goto_targets_request: Option<bool>,
    pub supports_step_in_targets_request: Option<bool>,
    pub supports_completions_request: Option<bool>,
    pub completion_trigger_characters: Vec<String>,
    pub supports_modules_request: Option<bool>,
    pub additional_module_columns: Vec<String>,
    pub supported_checksum_algorithms: Vec<String>,
    pub supports_restart_request: Option<bool>,
    pub supports_exception_options: Option<bool>,
    pub supports_value_formatting_options: Option<bool>,
    pub supports_exception_info_request: Option<bool>,
    pub support_terminate_debuggee: Option<bool>,
    pub support_suspend_debuggee: Option<bool>,
    pub supports_delayed_stack_trace_loading: Option<bool>,
    pub supports_loaded_sources_request: Option<bool>,
    pub supports_log_points: Option<bool>,
    pub supports_terminate_threads_request: Option<bool>,
    pub supports_set_expression: Option<bool>,
    pub supports_terminate_request: Option<bool>,
    pub supports_data_breakpoints: Option<bool>,
    pub supports_read_memory_request: Option<bool>,
    pub supports_write_memory_request: Option<bool>,
    pub supports_disassemble_request: Option<bool>,
    pub supports_cancel_request: Option<bool>,
    pub supports_breakpoint_locations_request: Option<bool>,
    pub supports_clipboard_context: Option<bool>,
    pub supports_stepping_granularity: Option<bool>,
    pub supports_instruction_breakpoints: Option<bool>,
    pub supports_exception_filter_options: Option<bool>,
    pub supports_single_thread_execution_requests: Option<bool>,
    pub supports_data_breakpoint_bytes: Option<bool>,
    pub breakpoint_modes: Vec<BreakpointMode>,
    pub supports_ansistyling: Option<bool>,
}

/// The abstract value of wire capabilities: lists as sequences, checksum
/// algorithm names as text.
pub struct CapabilitiesView {
    pub supports_configuration_done_request: Option<bool>,
    pub supports_function_breakpoints: Option<bool>,
    pub supports_conditional_breakpoints: Option<bool>,
    pub supports_hit_conditional_breakpoints: Option<bool>,
    pub supports_evaluate_for_hovers: Option<bool>,
    pub exception_breakpoint_filters: Seq<ExceptionBreakpointsFilter>,
    pub supports_step_back: Option<bool>,
    pub supports_set_variable: Option<bool>,
    pub supports_restart_frame: Option<bool>,
    pub supports_goto_targets_request: Option<bool>,
    pub supports_step_in_targets_request: Option<bool>,
    pub supports_completions_request: Option<bool>,
    pub completion_trigger_characters: Seq<String>,
    pub supports_modules_request: Option<bool>,
    pub additional_module_columns: Seq<Seq<char>>,
    pub supported_checksum_algorithms: Seq<Seq<char>>,
    pub supports_restart_request: Option<bool>,
    pub supports_exception_options: Option<bool>,
    pub supports_value_formatting_options: Option<bool>,
    pub supports_exception_info_request: Option<bool>,
    pub support_terminate_debuggee: Option<bool>,
    pub support_suspend_debuggee: Option<bool>,
    pub supports_delayed_stack_trace_loading: Option<bool>,
    pub supports_loaded_sources_request: Option<bool>,
    pub supports_log_points: Option<bool>,
    pub supports_terminate_threads_request: Option<bool>,
    pub supports_set_expression: Option<bool>,
    pub supports_terminate_request: Option<bool>,
    pub supports_data_breakpoints: Option<bool>,
    pub supports_read_memory_request: Option<bool>,
    pub supports_write_memory_request: Option<bool>,
    pub supports_disassemble_request: Option<bool>,
    pub supports_cancel_request: Option<bool>,
    pub supports_breakpoint_locations_request: Option<bool>,
    pub supports_clipboard_context: Option<bool>,
    pub supports_stepping_granularity: Option<bool>,
    pub supports_instruction_breakpoints: Option<bool>,
    pub supports_exception_filter_options: Option<bool>,
    pub supports_single_thread_execution_requests: Option<bool>,
    pub supports_data_breakpoint_bytes: Option<bool>,
    pub breakpoint_modes: Seq<BreakpointModeView>,
    pub supports_ansistyling: Option<bool>,
}

impl View for Capabilities {
    type V = CapabilitiesView;

    open spec fn view(&self) -> CapabilitiesView {
        CapabilitiesView {
            supports_configuration_done_request: self.supports_configuration_done_request,
            supports_function_breakpoints: self.supports_function_breakpoints,
            supports_conditional_breakpoints: self.supports_conditional_breakpoints,
            supports_hit_conditional_breakpoints: self.supports_hit_conditional_breakpoints,
            supports_evaluate_for_hovers: self.supports_evaluate_for_hovers,
            exception_breakpoint_filters: self.exception_breakpoint_filters@,
            supports_step_back: self.supports_step_back,
            supports_set_variable: self.supports_set_variable,
            supports_restart_frame: self.supports_restart_frame,
            supports_goto_targets_request: self.supports_goto_targets_request,
            supports_step_in_targets_request: self.supports_step_in_targets_request,
            supports_completions_request: self.supports_completions_request,
            completion_trigger_characters: self.completion_trigger_characters@,
            supports_modules_request: self.supports_modules_request,
            additional_module_columns: self.additional_module_columns@.map_values(|s: String| s@),
            supported_checksum_algorithms: self.supported_checksum_algorithms@.map_values(|s: String| s@),
            supports_restart_request: self.supports_restart_request,
            supports_exception_options: self.supports_exception_options,
            supports_value_formatting_options: self.supports_value_formatting_options,
            supports_exception_info_request: self.supports_exception_info_request,
            support_terminate_debuggee: self.support_terminate_debuggee,
            support_suspend_debuggee: self.support_suspend_debuggee,
            supports_delayed_stack_trace_loading: self.supports_delayed_stack_trace_loading,
            supports_loaded_sources_request: self.supports_loaded_sources_request,
            supports_log_points: self.supports_log_points,
            supports_terminate_threads_request: self.supports_terminate_threads_request,
            supports_set_expression: self.supports_set_expression,
            supports_terminate_request: self.supports_terminate_request,
            supports_data_breakpoints: self.supports_data_breakpoints,
            supports_read_memory_request: self.supports_read_memory_request,
            supports_write_memory_request: self.supports_write_memory_request,
            supports_disassemble_request: self.supports_disassemble_request,
            supports_cancel_request: self.supports_cancel_request,
            supports_breakpoint_locations_request: self.supports_breakpoint_locations_request,
            supports_clipboard_context: self.supports_clipboard_context,
            supports_stepping_granularity: self.supports_stepping_granularity,
            supports_instruction_breakpoints: self.supports_instruction_breakpoints,
            supports_exception_filter_options: self.supports_exception_filter_options,
            supports_single_thread_execution_requests: self.supports_single_thread_execution_requests,
            supports_data_breakpoint_bytes: self.supports_data_breakpoint_bytes,
            breakpoint_modes: self.breakpoint_modes@.map_values(|m: BreakpointMode| m@),
            supports_ansistyling: self.supports_ansistyling,
        }
    }
}

/// A step-over request of a collaborator, on the wire.
#[derive(Clone, Copy, Debug, PartialEq, Eq, Structural)]
pub struct DapNextRequest {
    pub project_id: u64,
    pub client_id: u64,
    pub thread_id: u64,
    pub single_thread: Option<bool>,
    pub granularity: Option<i32>,
}

/// A step-in request of a collaborator, on the wire.
#[derive(Clone, Debug, PartialEq, Eq, Structural)]
pub struct DapStepInRequest {
    pub project_id: u64,
    pub client_id: u64,
    pub thread_id: u64,
    pub single_thread: Option<bool>,
    pub granularity: Option<i32>,
    pub target_id: Option<u64>,
}

/// A step-out request of a collaborator, on the wire.
#[derive(Clone, Debug, PartialEq, Eq, Structural)]
pub struct DapStepOutRequest {
    pub project_id: u64,
    pub client_id: u64,
    pub thread_id: u64,
    pub single_thread: Option<bool>,
    pub granularity: Option<i32>,
}

/// A step-back request of a collaborator, on the wire.
#[derive(Clone, Debug, PartialEq, Eq, Structural)]
pub struct DapStepBackRequest {
    pub project_id: u64,
    pub client_id: u64,
    pub thread_id: u64,
    pub single_thread: Option<bool>,
    pub granularity: Option<i32>,
}

/// A continue request of a collaborator, on the wire.
#[derive(Clone, Debug, PartialEq, Eq, Structural)]
pub struct DapContinueRequest {
    pub project_id: u64,
    pub client_id: u64,
    pub thread_id: u64,
    pub single_thread: Option<bool>,
}

/// The answer to a continue request, on the wire.
#[derive(Clone, Debug, PartialEq, Eq, Structural)]
pub struct DapContinueResponse {
    pub client_id: u64,
    pub all_threads_continued: Option<bool>,
}

/// A pause request of a collaborator, on the wire.
#[derive(Clone, Debug, PartialEq, Eq, Structural)]
pub struct DapPauseRequest {
    pub project_id: u64,
    pub client_id: u64,
    pub thread_id: u64,
}

/// A disconnect request of a collaborator, on the wire.
#[derive(Clone, Debug, PartialEq, Eq, Structural)]
pub struct DapDisconnectRequest {
    pub project_id: u64,
    pub client_id: u64,
    pub restart: Option<bool>,
    pub terminate_debuggee: Option<bool>,
    pub suspend_debuggee: Option<bool>,
}

/// A request of a collaborator to terminate threads, on the wire.
#[derive(Clone, Debug, PartialEq)]
pub struct DapTerminateThreadsRequest {
    pub project_id: u64,
    pub client_id: u64,
    pub thread_ids: Vec<u64>,
}

/// A terminate request of a collaborator, on the wire.
#[derive(Clone, Debug, PartialEq, Eq, Structural)]
pub struct DapTerminateRequest {
    pub project_id: u64,
    pub client_id: u64,
    pub restart: Option<bool>,
}

/// A restart request of a collaborator, on the wire: its arguments as JSON bytes.
#[derive(Clone, Debug, PartialEq)]
pub struct DapRestartRequest {
    pub project_id: u64,
    pub client_id: u64,
    pub raw_args: Vec<u8>,
}

/// A request of a collaborator for the children of a variable, on the wire.
#[derive(Clone, Debug, PartialEq, Eq, Structural)]
pub struct VariablesRequest {
    pub project_id: u64,
    pub client_id: u64,
    pub variables_reference: u64,
    pub filter: Option<i32>,
    pub start: Option<u64>,
    pub count: Option<u64>,
    pub format: Option<u64>,
}

/// Variables sent in answer to a variables request.
#[derive(Clone, Debug, PartialEq)]
pub struct DapVariables {
    pub client_id: u64,
    pub variables: Vec<DapVariable>,
}

/// A request of a collaborator to set a variable's value, on the wire.
#[derive(Clone, Debug, PartialEq)]
pub struct DapSetVariableValueRequest {
    pub project_id: u64,
    pub client_id: u64,
    pub variables_reference: u64,
    pub value: String,
    pub name: String,
}

/// The answer to a set-variable request, on the wire.
#[derive(Clone, Debug, PartialEq)]
pub struct DapSetVariableValueResponse {
    pub client_id: u64,
    pub value: String,
    pub variable_type: Option<String>,
    pub variables_reference: Option<u64>,
    pub named_variables: Option<u64>,
    pub indexed_variables: Option<u64>,
    pub memory_reference: Option<String>,
}

/// A request of a collaborator to restart a stack frame, on the wire.
#[derive(Clone, Debug, PartialEq, Eq, Structural)]
pub struct DapRestartStackFrameRequest {
    pub project_id: u64,
    pub client_id: u64,
    pub stack_frame_id: u64,
}

/// A request of a collaborator for the loaded modules, on the wire.
#[derive(Clone, Debug, PartialEq, Eq, Structural)]
pub struct DapModulesRequest {
    pub project_id: u64,
    pub client_id: u64,
}

/// The loaded modules sent in answer to a modules request.
#[derive(Clone, Debug, PartialEq)]
pub struct DapModulesResponse {
    pub client_id: u64,
    pub modules: Vec<DapModule>,
}

/// A request of a collaborator for a thread's stack trace, on the wire.
#[derive(Clone, Debug, PartialEq, Eq, Structural)]
pub struct DapStackTraceRequest {
    pub project_id: u64,
    pub client_id: u64,
    pub thread_id: u64,
    pub start_frame: Option<u64>,
    pub stack_trace_levels: Option<u64>,
}

/// A request of a collaborator for a stack frame's scopes, on the wire.
#[derive(Clone, Debug, PartialEq, Eq, Structural)]
pub struct DapScopesRequest {
    pub project_id: u64,
    pub client_id: u64,
    pub stack_frame_id: u64,
}


/// A request of a collaborator for the loaded sources, on the wire.
#[derive(Clone, Debug, PartialEq, Eq, Structural)]
pub struct DapLoadedSourcesRequest {
    pub project_id: u64,
    pub client_id: u64,
}

/// The loaded sources sent in answer to a loaded-sources request.
#[derive(Clone, Debug)]
pub struct DapLoadedSourcesResponse {
    pub client_id: u64,
    pub sources: Vec<DapSource>,
}

/// The stack frames sent in answer to a stack-trace request.
#[derive(Debug)]
pub struct DapStackTraceResponse {
    pub frames: Vec<DapStackFrame>,
}

/// The scopes sent in answer to a scopes request.
#[derive(Debug)]
pub struct DapScopesResponse {
    pub scopes: Vec<DapScope>,
}

/// The answer to a request that carries nothing but its arrival.
#[derive(Clone, Copy, Debug, PartialEq, Eq, Structural)]
pub struct Ack {}

/// The stack frames of a thread, as the host shows them to collaborators.
#[derive(Debug)]
pub struct DebuggerStackFrameList {
    pub thread_id: u64,
    pub client_id: u64,
    pub current_stack_frame: u64,
    pub stack_frames: Vec<DapStackFrame>,
}

} // verus!
