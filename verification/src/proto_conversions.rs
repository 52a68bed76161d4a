//! Conversions between the debug adapter's values and their wire messages,
//! so that a collaborator sees the session the host sees.
use vstd::prelude::*;
use crate::dap;
use crate::proto;

verus! {

/// A value that has a wire form: `to_proto` gives the wire form and
/// `from_proto` reads a wire form back, on the wire forms `accepts_proto`
/// admits.
pub trait ProtoConversion: Sized {
    type ProtoType;
    type Output;

    /// The wire forms that `from_proto` can read.
    spec fn accepts_proto(payload: Self::ProtoType) -> bool;

    fn to_proto(&self) -> Self::ProtoType;

    fn from_proto(payload: Self::ProtoType) -> Self::Output
        requires
            Self::accepts_proto(payload),
    ;
}

/// The wire value of a `ScopePresentationHint`.
pub open spec fn scope_hint_to_proto(v: dap::ScopePresentationHint) -> proto::DapScopePresentationHint {
    match v {
        dap::ScopePresentationHint::Locals => proto::DapScopePresentationHint::Locals,
        dap::ScopePresentationHint::Arguments => proto::DapScopePresentationHint::Arguments,
        dap::ScopePresentationHint::Registers => proto::DapScopePresentationHint::Registers,
        dap::ScopePresentationHint::ReturnValue => proto::DapScopePresentationHint::ReturnValue,
        dap::ScopePresentationHint::Unknown => proto::DapScopePresentationHint::ScopeUnknown,
    }
}

/// The `ScopePresentationHint` a wire value stands for.
pub open spec fn scope_hint_from_proto(v: proto::DapScopePresentationHint) -> dap::ScopePresentationHint {
    match v {
        proto::DapScopePresentationHint::Locals => dap::ScopePresentationHint::Locals,
        proto::DapScopePresentationHint::Arguments => dap::ScopePresentationHint::Arguments,
        proto::DapScopePresentationHint::Registers => dap::ScopePresentationHint::Registers,
        proto::DapScopePresentationHint::ReturnValue => dap::ScopePresentationHint::ReturnValue,
        proto::DapScopePresentationHint::ScopeUnknown => dap::ScopePresentationHint::Unknown,
    }
}

/// Sending a `ScopePresentationHint` over the wire and reading it back gives it back, and the
/// other way round.
pub proof fn lemma_scope_hint_round_trip(v: dap::ScopePresentationHint, w: proto::DapScopePresentationHint)
    ensures
        scope_hint_from_proto(scope_hint_to_proto(v)) == v,
        scope_hint_to_proto(scope_hint_from_proto(w)) == w,
{
}

impl ProtoConversion for dap::ScopePresentationHint {
    type ProtoType = proto::DapScopePresentationHint;
    type Output = Self;

    open spec fn accepts_proto(payload: proto::DapScopePresentationHint) -> bool {
        true
    }

    fn to_proto(&self) -> (r: proto::DapScopePresentationHint)
        ensures
            r == scope_hint_to_proto(*self),
    {
        match self {
            dap::ScopePresentationHint::Locals => proto::DapScopePresentationHint::Locals,
            dap::ScopePresentationHint::Arguments => proto::DapScopePresentationHint::Arguments,
            dap::ScopePresentationHint::Registers => proto::DapScopePresentationHint::Registers,
            dap::ScopePresentationHint::ReturnValue => proto::DapScopePresentationHint::ReturnValue,
            dap::ScopePresentationHint::Unknown => proto::DapScopePresentationHint::ScopeUnknown,
        }
    }

    fn from_proto(payload: proto::DapScopePresentationHint) -> (r: Self)
        ensures
            r == scope_hint_from_proto(payload),
    {
        match payload {
            proto::DapScopePresentationHint::Locals => dap::ScopePresentationHint::Locals,
            proto::DapScopePresentationHint::Arguments => dap::ScopePresentationHint::Arguments,
            proto::DapScopePresentationHint::Registers => dap::ScopePresentationHint::Registers,
            proto::DapScopePresentationHint::ReturnValue => dap::ScopePresentationHint::ReturnValue,
            proto::DapScopePresentationHint::ScopeUnknown => dap::ScopePresentationHint::Unknown,
        }
    }
}

/// The wire value of a `SourcePresentationHint`.
pub open spec fn source_hint_to_proto(v: dap::SourcePresentationHint) -> proto::DapSourcePresentationHint {
    match v {
        dap::SourcePresentationHint::Normal => proto::DapSourcePresentationHint::SourceNormal,
        dap::SourcePresentationHint::Emphasize => proto::DapSourcePresentationHint::Emphasize,
        dap::SourcePresentationHint::Deemphasize => proto::DapSourcePresentationHint::Deemphasize,
        dap::SourcePresentationHint::Unknown => proto::DapSourcePresentationHint::SourceUnknown,
    }
}

/// The `SourcePresentationHint` a wire value stands for.
pub open spec fn source_hint_from_proto(v: proto::DapSourcePresentationHint) -> dap::SourcePresentationHint {
    match v {
        proto::DapSourcePresentationHint::SourceNormal => dap::SourcePresentationHint::Normal,
        proto::DapSourcePresentationHint::Emphasize => dap::SourcePresentationHint::Emphasize,
        proto::DapSourcePresentationHint::Deemphasize => dap::SourcePresentationHint::Deemphasize,
        proto::DapSourcePresentationHint::SourceUnknown => dap::SourcePresentationHint::Unknown,
    }
}

/// Sending a `SourcePresentationHint` over the wire and reading it back gives it back, and the
/// other way round.
pub proof fn lemma_source_hint_round_trip(v: dap::SourcePresentationHint, w: proto::DapSourcePresentationHint)
    ensures
        source_hint_from_proto(source_hint_to_proto(v)) == v,
        source_hint_to_proto(source_hint_from_proto(w)) == w,
{
}

impl ProtoConversion for dap::SourcePresentationHint {
    type ProtoType = proto::DapSourcePresentationHint;
    type Output = Self;

    open spec fn accepts_proto(payload: proto::DapSourcePresentationHint) -> bool {
        true
    }

    fn to_proto(&self) -> (r: proto::DapSourcePresentationHint)
        ensures
            r == source_hint_to_proto(*self),
    {
        match self {
            dap::SourcePresentationHint::Normal => proto::DapSourcePresentationHint::SourceNormal,
            dap::SourcePresentationHint::Emphasize => proto::DapSourcePresentationHint::Emphasize,
            dap::SourcePresentationHint::Deemphasize => proto::DapSourcePresentationHint::Deemphasize,
            dap::SourcePresentationHint::Unknown => proto::DapSourcePresentationHint::SourceUnknown,
        }
    }

    fn from_proto(payload: proto::DapSourcePresentationHint) -> (r: Self)
        ensures
            r == source_hint_from_proto(payload),
    {
        match payload {
            proto::DapSourcePresentationHint::SourceNormal => dap::SourcePresentationHint::Normal,
            proto::DapSourcePresentationHint::Emphasize => dap::SourcePresentationHint::Emphasize,
            proto::DapSourcePresentationHint::Deemphasize => dap::SourcePresentationHint::Deemphasize,
            proto::DapSourcePresentationHint::SourceUnknown => dap::SourcePresentationHint::Unknown,
        }
    }
}

/// The wire value of a `SteppingGranularity`.
pub open spec fn granularity_to_proto(v: dap::SteppingGranularity) -> proto::SteppingGranularity {
    match v {
        dap::SteppingGranularity::Statement => proto::SteppingGranularity::Statement,
        dap::SteppingGranularity::Line => proto::SteppingGranularity::Line,
        dap::SteppingGranularity::Instruction => proto::SteppingGranularity::Instruction,
    }
}

/// The `SteppingGranularity` a wire value stands for.
pub open spec fn granularity_from_proto(v: proto::SteppingGranularity) -> dap::SteppingGranularity {
    match v {
        proto::SteppingGranularity::Statement => dap::SteppingGranularity::Statement,
        proto::SteppingGranularity::Line => dap::SteppingGranularity::Line,
        proto::SteppingGranularity::Instruction => dap::SteppingGranularity::Instruction,
    }
}

/// Sending a `SteppingGranularity` over the wire and reading it back gives it back, and the
/// other way round.
pub proof fn lemma_granularity_round_trip(v: dap::SteppingGranularity, w: proto::SteppingGranularity)
    ensures
        granularity_from_proto(granularity_to_proto(v)) == v,
        granularity_to_proto(granularity_from_proto(w)) == w,
{
}

impl ProtoConversion for dap::SteppingGranularity {
    type ProtoType = proto::SteppingGranularity;
    type Output = Self;

    open spec fn accepts_proto(payload: proto::SteppingGranularity) -> bool {
        true
    }

    fn to_proto(&self) -> (r: proto::SteppingGranularity)
        ensures
            r == granularity_to_proto(*self),
    {
        match self {
            dap::SteppingGranularity::Statement => proto::SteppingGranularity::Statement,
            dap::SteppingGranularity::Line => proto::SteppingGranularity::Line,
            dap::SteppingGranularity::Instruction => proto::SteppingGranularity::Instruction,
        }
    }

    fn from_proto(payload: proto::SteppingGranularity) -> (r: Self)
        ensures
            r == granularity_from_proto(payload),
    {
        match payload {
            proto::SteppingGranularity::Statement => dap::SteppingGranularity::Statement,
            proto::SteppingGranularity::Line => dap::SteppingGranularity::Line,
            proto::SteppingGranularity::Instruction => dap::SteppingGranularity::Instruction,
        }
    }
}

/// The wire value of a `OutputEventCategory`.
pub open spec fn output_category_to_proto(v: dap::OutputEventCategory) -> proto::DapOutputCategory {
    match v {
        dap::OutputEventCategory::Console => proto::DapOutputCategory::ConsoleOutput,
        dap::OutputEventCategory::Important => proto::DapOutputCategory::Important,
        dap::OutputEventCategory::Stdout => proto::DapOutputCategory::Stdout,
        dap::OutputEventCategory::Stderr => proto::DapOutputCategory::Stderr,
        dap::OutputEventCategory::Unknown => proto::DapOutputCategory::Unknown,
        dap::OutputEventCategory::Telemetry => proto::DapOutputCategory::Telemetry,
    }
}

/// The `OutputEventCategory` a wire value stands for.
pub open spec fn output_category_from_proto(v: proto::DapOutputCategory) -> dap::OutputEventCategory {
    match v {
        proto::DapOutputCategory::ConsoleOutput => dap::OutputEventCategory::Console,
        proto::DapOutputCategory::Important => dap::OutputEventCategory::Important,
        proto::DapOutputCategory::Stdout => dap::OutputEventCategory::Stdout,
        proto::DapOutputCategory::Stderr => dap::OutputEventCategory::Stderr,
        proto::DapOutputCategory::Unknown => dap::OutputEventCategory::Unknown,
        proto::DapOutputCategory::Telemetry => dap::OutputEventCategory::Telemetry,
    }
}

/// Sending a `OutputEventCategory` over the wire and reading it back gives it back, and the
/// other way round.
pub proof fn lemma_output_category_round_trip(v: dap::OutputEventCategory, w: proto::DapOutputCategory)
    ensures
        output_category_from_proto(output_category_to_proto(v)) == v,
        output_category_to_proto(output_category_from_proto(w)) == w,
{
}

impl ProtoConversion for dap::OutputEventCategory {
    type ProtoType = proto::DapOutputCategory;
    type Output = Self;

    open spec fn accepts_proto(payload: proto::DapOutputCategory) -> bool {
        true
    }

    fn to_proto(&self) -> (r: proto::DapOutputCategory)
        ensures
            r == output_category_to_proto(*self),
    {
        match self {
            dap::OutputEventCategory::Console => proto::DapOutputCategory::ConsoleOutput,
            dap::OutputEventCategory::Important => proto::DapOutputCategory::Important,
            dap::OutputEventCategory::Stdout => proto::DapOutputCategory::Stdout,
            dap::OutputEventCategory::Stderr => proto::DapOutputCategory::Stderr,
            dap::OutputEventCategory::Unknown => proto::DapOutputCategory::Unknown,
            dap::OutputEventCategory::Telemetry => proto::DapOutputCategory::Telemetry,
        }
    }

    fn from_proto(payload: proto::DapOutputCategory) -> (r: Self)
        ensures
            r == output_category_from_proto(payload),
    {
        match payload {
            proto::DapOutputCategory::ConsoleOutput => dap::OutputEventCategory::Console,
            proto::DapOutputCategory::Important => dap::OutputEventCategory::Important,
            proto::DapOutputCategory::Stdout => dap::OutputEventCategory::Stdout,
            proto::DapOutputCategory::Stderr => dap::OutputEventCategory::Stderr,
            proto::DapOutputCategory::Unknown => dap::OutputEventCategory::Unknown,
            proto::DapOutputCategory::Telemetry => dap::OutputEventCategory::Telemetry,
        }
    }
}

/// The wire value of a `OutputEventGroup`.
pub open spec fn output_group_to_proto(v: dap::OutputEventGroup) -> proto::DapOutputEventGroup {
    match v {
        dap::OutputEventGroup::Start => proto::DapOutputEventGroup::Start,
        dap::OutputEventGroup::StartCollapsed => proto::DapOutputEventGroup::StartCollapsed,
        dap::OutputEventGroup::End => proto::DapOutputEventGroup::End,
    }
}

/// The `OutputEventGroup` a wire value stands for.
pub open spec fn output_group_from_proto(v: proto::DapOutputEventGroup) -> dap::OutputEventGroup {
    match v {
        proto::DapOutputEventGroup::Start => dap::OutputEventGroup::Start,
        proto::DapOutputEventGroup::StartCollapsed => dap::OutputEventGroup::StartCollapsed,
        proto::DapOutputEventGroup::End => dap::OutputEventGroup::End,
    }
}

/// Sending a `OutputEventGroup` over the wire and reading it back gives it back, and the
/// other way round.
pub proof fn lemma_output_group_round_trip(v: dap::OutputEventGroup, w: proto::DapOutputEventGroup)
    ensures
        output_group_from_proto(output_group_to_proto(v)) == v,
        output_group_to_proto(output_group_from_proto(w)) == w,
{
}

impl ProtoConversion for dap::OutputEventGroup {
    type ProtoType = proto::DapOutputEventGroup;
    type Output = Self;

    open spec fn accepts_proto(payload: proto::DapOutputEventGroup) -> bool {
        true
    }

    fn to_proto(&self) -> (r: proto::DapOutputEventGroup)
        ensures
            r == output_group_to_proto(*self),
    {
        match self {
            dap::OutputEventGroup::Start => proto::DapOutputEventGroup::Start,
            dap::OutputEventGroup::StartCollapsed => proto::DapOutputEventGroup::StartCollapsed,
            dap::OutputEventGroup::End => proto::DapOutputEventGroup::End,
        }
    }

    fn from_proto(payload: proto::DapOutputEventGroup) -> (r: Self)
        ensures
            r == output_group_from_proto(payload),
    {
        match payload {
            proto::DapOutputEventGroup::Start => dap::OutputEventGroup::Start,
            proto::DapOutputEventGroup::StartCollapsed => dap::OutputEventGroup::StartCollapsed,
            proto::DapOutputEventGroup::End => dap::OutputEventGroup::End,
        }
    }
}

/// The wire value of a `EvaluateArgumentsContext`.
pub open spec fn evaluate_context_to_proto(v: dap::EvaluateArgumentsContext) -> proto::DapEvaluateContext {
    match v {
        dap::EvaluateArgumentsContext::Variables => proto::DapEvaluateContext::EvaluateVariables,
        dap::EvaluateArgumentsContext::Watch => proto::DapEvaluateContext::Watch,
        dap::EvaluateArgumentsContext::Hover => proto::DapEvaluateContext::Hover,
        dap::EvaluateArgumentsContext::Repl => proto::DapEvaluateContext::Repl,
        dap::EvaluateArgumentsContext::Clipboard => proto::DapEvaluateContext::Clipboard,
        dap::EvaluateArgumentsContext::Unknown => proto::DapEvaluateContext::EvaluateUnknown,
    }
}

/// The `EvaluateArgumentsContext` a wire value stands for.
pub open spec fn evaluate_context_from_proto(v: proto::DapEvaluateContext) -> dap::EvaluateArgumentsContext {
    match v {
        proto::DapEvaluateContext::EvaluateVariables => dap::EvaluateArgumentsContext::Variables,
        proto::DapEvaluateContext::Watch => dap::EvaluateArgumentsContext::Watch,
        proto::DapEvaluateContext::Hover => dap::EvaluateArgumentsContext::Hover,
        proto::DapEvaluateContext::Repl => dap::EvaluateArgumentsContext::Repl,
        proto::DapEvaluateContext::Clipboard => dap::EvaluateArgumentsContext::Clipboard,
        proto::DapEvaluateContext::EvaluateUnknown => dap::EvaluateArgumentsContext::Unknown,
    }
}

/// Sending a `EvaluateArgumentsContext` over the wire and reading it back gives it back, and the
/// other way round.
pub proof fn lemma_evaluate_context_round_trip(v: dap::EvaluateArgumentsContext, w: proto::DapEvaluateContext)
    ensures
        evaluate_context_from_proto(evaluate_context_to_proto(v)) == v,
        evaluate_context_to_proto(evaluate_context_from_proto(w)) == w,
{
}

impl ProtoConversion for dap::EvaluateArgumentsContext {
    type ProtoType = proto::DapEvaluateContext;
    type Output = Self;

    open spec fn accepts_proto(payload: proto::DapEvaluateContext) -> bool {
        true
    }

    fn to_proto(&self) -> (r: proto::DapEvaluateContext)
        ensures
            r == evaluate_context_to_proto(*self),
    {
        match self {
            dap::EvaluateArgumentsContext::Variables => proto::DapEvaluateContext::EvaluateVariables,
            dap::EvaluateArgumentsContext::Watch => proto::DapEvaluateContext::Watch,
            dap::EvaluateArgumentsContext::Hover => proto::DapEvaluateContext::Hover,
            dap::EvaluateArgumentsContext::Repl => proto::DapEvaluateContext::Repl,
            dap::EvaluateArgumentsContext::Clipboard => proto::DapEvaluateContext::Clipboard,
            dap::EvaluateArgumentsContext::Unknown => proto::DapEvaluateContext::EvaluateUnknown,
        }
    }

    fn from_proto(payload: proto::DapEvaluateContext) -> (r: Self)
        ensures
            r == evaluate_context_from_proto(payload),
    {
        match payload {
            proto::DapEvaluateContext::EvaluateVariables => dap::EvaluateArgumentsContext::Variables,
            proto::DapEvaluateContext::Watch => dap::EvaluateArgumentsContext::Watch,
            proto::DapEvaluateContext::Hover => dap::EvaluateArgumentsContext::Hover,
            proto::DapEvaluateContext::Repl => dap::EvaluateArgumentsContext::Repl,
            proto::DapEvaluateContext::Clipboard => dap::EvaluateArgumentsContext::Clipboard,
            proto::DapEvaluateContext::EvaluateUnknown => dap::EvaluateArgumentsContext::Unknown,
        }
    }
}

/// The wire value of a `CompletionItemType`.
pub open spec fn completion_type_to_proto(v: dap::CompletionItemType) -> proto::DapCompletionItemType {
    match v {
        dap::CompletionItemType::Class => proto::DapCompletionItemType::Class,
        dap::CompletionItemType::Color => proto::DapCompletionItemType::Color,
        dap::CompletionItemType::Constructor => proto::DapCompletionItemType::Constructor,
        dap::CompletionItemType::Customcolor => proto::DapCompletionItemType::Customcolor,
        dap::CompletionItemType::Enum => proto::DapCompletionItemType::Enum,
        dap::CompletionItemType::Field => proto::DapCompletionItemType::Field,
        dap::CompletionItemType::File => proto::DapCompletionItemType::CompletionItemFile,
        dap::CompletionItemType::Function => proto::DapCompletionItemType::Function,
        dap::CompletionItemType::Interface => proto::DapCompletionItemType::Interface,
        dap::CompletionItemType::Keyword => proto::DapCompletionItemType::Keyword,
        dap::CompletionItemType::Method => proto::DapCompletionItemType::Method,
        dap::CompletionItemType::Module => proto::DapCompletionItemType::Module,
        dap::CompletionItemType::Property => proto::DapCompletionItemType::Property,
        dap::CompletionItemType::Reference => proto::DapCompletionItemType::Reference,
        dap::CompletionItemType::Snippet => proto::DapCompletionItemType::Snippet,
        dap::CompletionItemType::Text => proto::DapCompletionItemType::Text,
        dap::CompletionItemType::Unit => proto::DapCompletionItemType::Unit,
        dap::CompletionItemType::Value => proto::DapCompletionItemType::Value,
        dap::CompletionItemType::Variable => proto::DapCompletionItemType::Variable,
    }
}

/// The `CompletionItemType` a wire value stands for.
pub open spec fn completion_type_from_proto(v: proto::DapCompletionItemType) -> dap::CompletionItemType {
    match v {
        proto::DapCompletionItemType::Class => dap::CompletionItemType::Class,
        proto::DapCompletionItemType::Color => dap::CompletionItemType::Color,
        proto::DapCompletionItemType::Constructor => dap::CompletionItemType::Constructor,
        proto::DapCompletionItemType::Customcolor => dap::CompletionItemType::Customcolor,
        proto::DapCompletionItemType::Enum => dap::CompletionItemType::Enum,
        proto::DapCompletionItemType::Field => dap::CompletionItemType::Field,
        proto::DapCompletionItemType::CompletionItemFile => dap::CompletionItemType::File,
        proto::DapCompletionItemType::Function => dap::CompletionItemType::Function,
        proto::DapCompletionItemType::Interface => dap::CompletionItemType::Interface,
        proto::DapCompletionItemType::Keyword => dap::CompletionItemType::Keyword,
        proto::DapCompletionItemType::Method => dap::CompletionItemType::Method,
        proto::DapCompletionItemType::Module => dap::CompletionItemType::Module,
        proto::DapCompletionItemType::Property => dap::CompletionItemType::Property,
        proto::DapCompletionItemType::Reference => dap::CompletionItemType::Reference,
        proto::DapCompletionItemType::Snippet => dap::CompletionItemType::Snippet,
        proto::DapCompletionItemType::Text => dap::CompletionItemType::Text,
        proto::DapCompletionItemType::Unit => dap::CompletionItemType::Unit,
        proto::DapCompletionItemType::Value => dap::CompletionItemType::Value,
        proto::DapCompletionItemType::Variable => dap::CompletionItemType::Variable,
    }
}

/// Sending a `CompletionItemType` over the wire and reading it back gives it back, and the
/// other way round.
pub proof fn lemma_completion_type_round_trip(v: dap::CompletionItemType, w: proto::DapCompletionItemType)
    ensures
        completion_type_from_proto(completion_type_to_proto(v)) == v,
        completion_type_to_proto(completion_type_from_proto(w)) == w,
{
}

impl ProtoConversion for dap::CompletionItemType {
    type ProtoType = proto::DapCompletionItemType;
    type Output = Self;

    open spec fn accepts_proto(payload: proto::DapCompletionItemType) -> bool {
        true
    }

    fn to_proto(&self) -> (r: proto::DapCompletionItemType)
        ensures
            r == completion_type_to_proto(*self),
    {
        match self {
            dap::CompletionItemType::Class => proto::DapCompletionItemType::Class,
            dap::CompletionItemType::Color => proto::DapCompletionItemType::Color,
            dap::CompletionItemType::Constructor => proto::DapCompletionItemType::Constructor,
            dap::CompletionItemType::Customcolor => proto::DapCompletionItemType::Customcolor,
            dap::CompletionItemType::Enum => proto::DapCompletionItemType::Enum,
            dap::CompletionItemType::Field => proto::DapCompletionItemType::Field,
            dap::CompletionItemType::File => proto::DapCompletionItemType::CompletionItemFile,
            dap::CompletionItemType::Function => proto::DapCompletionItemType::Function,
            dap::CompletionItemType::Interface => proto::DapCompletionItemType::Interface,
            dap::CompletionItemType::Keyword => proto::DapCompletionItemType::Keyword,
            dap::CompletionItemType::Method => proto::DapCompletionItemType::Method,
            dap::CompletionItemType::Module => proto::DapCompletionItemType::Module,
            dap::CompletionItemType::Property => proto::DapCompletionItemType::Property,
            dap::CompletionItemType::Reference => proto::DapCompletionItemType::Reference,
            dap::CompletionItemType::Snippet => proto::DapCompletionItemType::Snippet,
            dap::CompletionItemType::Text => proto::DapCompletionItemType::Text,
            dap::CompletionItemType::Unit => proto::DapCompletionItemType::Unit,
            dap::CompletionItemType::Value => proto::DapCompletionItemType::Value,
            dap::CompletionItemType::Variable => proto::DapCompletionItemType::Variable,
        }
    }

    fn from_proto(payload: proto::DapCompletionItemType) -> (r: Self)
        ensures
            r == completion_type_from_proto(payload),
    {
        match payload {
            proto::DapCompletionItemType::Class => dap::CompletionItemType::Class,
            proto::DapCompletionItemType::Color => dap::CompletionItemType::Color,
            proto::DapCompletionItemType::Constructor => dap::CompletionItemType::Constructor,
            proto::DapCompletionItemType::Customcolor => dap::CompletionItemType::Customcolor,
            proto::DapCompletionItemType::Enum => dap::CompletionItemType::Enum,
            proto::DapCompletionItemType::Field => dap::CompletionItemType::Field,
            proto::DapCompletionItemType::CompletionItemFile => dap::CompletionItemType::File,
            proto::DapCompletionItemType::Function => dap::CompletionItemType::Function,
            proto::DapCompletionItemType::Interface => dap::CompletionItemType::Interface,
            proto::DapCompletionItemType::Keyword => dap::CompletionItemType::Keyword,
            proto::DapCompletionItemType::Method => dap::CompletionItemType::Method,
            proto::DapCompletionItemType::Module => dap::CompletionItemType::Module,
            proto::DapCompletionItemType::Property => dap::CompletionItemType::Property,
            proto::DapCompletionItemType::Reference => dap::CompletionItemType::Reference,
            proto::DapCompletionItemType::Snippet => dap::CompletionItemType::Snippet,
            proto::DapCompletionItemType::Text => dap::CompletionItemType::Text,
            proto::DapCompletionItemType::Unit => dap::CompletionItemType::Unit,
            proto::DapCompletionItemType::Value => dap::CompletionItemType::Value,
            proto::DapCompletionItemType::Variable => dap::CompletionItemType::Variable,
        }
    }
}

/// The wire value of a `ExceptionBreakMode`.
pub open spec fn break_mode_to_proto(v: dap::ExceptionBreakMode) -> proto::ExceptionBreakMode {
    match v {
        dap::ExceptionBreakMode::Never => proto::ExceptionBreakMode::Never,
        dap::ExceptionBreakMode::Always => proto::ExceptionBreakMode::Always,
        dap::ExceptionBreakMode::Unhandled => proto::ExceptionBreakMode::Unhandled,
        dap::ExceptionBreakMode::UserUnhandled => proto::ExceptionBreakMode::AlwaysUnhandled,
    }
}

/// The `ExceptionBreakMode` a wire value stands for.
pub open spec fn break_mode_from_proto(v: proto::ExceptionBreakMode) -> dap::ExceptionBreakMode {
    match v {
        proto::ExceptionBreakMode::Never => dap::ExceptionBreakMode::Never,
        proto::ExceptionBreakMode::Always => dap::ExceptionBreakMode::Always,
        proto::ExceptionBreakMode::Unhandled => dap::ExceptionBreakMode::Unhandled,
        proto::ExceptionBreakMode::AlwaysUnhandled => dap::ExceptionBreakMode::UserUnhandled,
    }
}

/// Sending a `ExceptionBreakMode` over the wire and reading it back gives it back, and the
/// other way round.
pub proof fn lemma_break_mode_round_trip(v: dap::ExceptionBreakMode, w: proto::ExceptionBreakMode)
    ensures
        break_mode_from_proto(break_mode_to_proto(v)) == v,
        break_mode_to_proto(break_mode_from_proto(w)) == w,
{
}

impl ProtoConversion for dap::ExceptionBreakMode {
    type ProtoType = proto::ExceptionBreakMode;
    type Output = Self;

    open spec fn accepts_proto(payload: proto::ExceptionBreakMode) -> bool {
        true
    }

    fn to_proto(&self) -> (r: proto::ExceptionBreakMode)
        ensures
            r == break_mode_to_proto(*self),
    {
        match self {
            dap::ExceptionBreakMode::Never => proto::ExceptionBreakMode::Never,
            dap::ExceptionBreakMode::Always => proto::ExceptionBreakMode::Always,
            dap::ExceptionBreakMode::Unhandled => proto::ExceptionBreakMode::Unhandled,
            dap::ExceptionBreakMode::UserUnhandled => proto::ExceptionBreakMode::AlwaysUnhandled,
        }
    }

    fn from_proto(payload: proto::ExceptionBreakMode) -> (r: Self)
        ensures
            r == break_mode_from_proto(payload),
    {
        match payload {
            proto::ExceptionBreakMode::Never => dap::ExceptionBreakMode::Never,
            proto::ExceptionBreakMode::Always => dap::ExceptionBreakMode::Always,
            proto::ExceptionBreakMode::Unhandled => dap::ExceptionBreakMode::Unhandled,
            proto::ExceptionBreakMode::AlwaysUnhandled => dap::ExceptionBreakMode::UserUnhandled,
        }
    }
}

/// The wire value of a `BreakpointReason`.
pub open spec fn breakpoint_reason_to_proto(v: dap::BreakpointReason) -> proto::DapBreakpointReason {
    match v {
        dap::BreakpointReason::Pending => proto::DapBreakpointReason::Pending,
        dap::BreakpointReason::Failed => proto::DapBreakpointReason::Failed,
    }
}

/// The `BreakpointReason` a wire value stands for.
pub open spec fn breakpoint_reason_from_proto(v: proto::DapBreakpointReason) -> dap::BreakpointReason {
    match v {
        proto::DapBreakpointReason::Pending => dap::BreakpointReason::Pending,
        proto::DapBreakpointReason::Failed => dap::BreakpointReason::Failed,
    }
}

/// Sending a `BreakpointReason` over the wire and reading it back gives it back, and the
/// other way round.
pub proof fn lemma_breakpoint_reason_round_trip(v: dap::BreakpointReason, w: proto::DapBreakpointReason)
    ensures
        breakpoint_reason_from_proto(breakpoint_reason_to_proto(v)) == v,
        breakpoint_reason_to_proto(breakpoint_reason_from_proto(w)) == w,
{
}

impl ProtoConversion for dap::BreakpointReason {
    type ProtoType = proto::DapBreakpointReason;
    type Output = Self;

    open spec fn accepts_proto(payload: proto::DapBreakpointReason) -> bool {
        true
    }

    fn to_proto(&self) -> (r: proto::DapBreakpointReason)
        ensures
            r == breakpoint_reason_to_proto(*self),
    {
        match self {
            dap::BreakpointReason::Pending => proto::DapBreakpointReason::Pending,
            dap::BreakpointReason::Failed => proto::DapBreakpointReason::Failed,
        }
    }

    fn from_proto(payload: proto::DapBreakpointReason) -> (r: Self)
        ensures
            r == breakpoint_reason_from_proto(payload),
    {
        match payload {
            proto::DapBreakpointReason::Pending => dap::BreakpointReason::Pending,
            proto::DapBreakpointReason::Failed => dap::BreakpointReason::Failed,
        }
    }
}

/// The wire value of a `BreakpointModeApplicability`.
pub open spec fn applicability_to_proto(v: dap::BreakpointModeApplicability) -> proto::BreakpointModeApplicability {
    match v {
        dap::BreakpointModeApplicability::Source => proto::BreakpointModeApplicability::Source,
        dap::BreakpointModeApplicability::Exception => proto::BreakpointModeApplicability::Exception,
        dap::BreakpointModeApplicability::Data => proto::BreakpointModeApplicability::Data,
        dap::BreakpointModeApplicability::Instruction => proto::BreakpointModeApplicability::InstructionBreakpoint,
        dap::BreakpointModeApplicability::Unknown => proto::BreakpointModeApplicability::BreakpointModeUnknown,
    }
}

/// The `BreakpointModeApplicability` a wire value stands for.
pub open spec fn applicability_from_proto(v: proto::BreakpointModeApplicability) -> dap::BreakpointModeApplicability {
    match v {
        proto::BreakpointModeApplicability::Source => dap::BreakpointModeApplicability::Source,
        proto::BreakpointModeApplicability::Exception => dap::BreakpointModeApplicability::Exception,
        proto::BreakpointModeApplicability::Data => dap::BreakpointModeApplicability::Data,
        proto::BreakpointModeApplicability::InstructionBreakpoint => dap::BreakpointModeApplicability::Instruction,
        proto::BreakpointModeApplicability::BreakpointModeUnknown => dap::BreakpointModeApplicability::Unknown,
    }
}

/// Sending a `BreakpointModeApplicability` over the wire and reading it back gives it back, and the
/// other way round.
pub proof fn lemma_applicability_round_trip(v: dap::BreakpointModeApplicability, w: proto::BreakpointModeApplicability)
    ensures
        applicability_from_proto(applicability_to_proto(v)) == v,
        applicability_to_proto(applicability_from_proto(w)) == w,
{
}

impl ProtoConversion for dap::BreakpointModeApplicability {
    type ProtoType = proto::BreakpointModeApplicability;
    type Output = Self;

    open spec fn accepts_proto(payload: proto::BreakpointModeApplicability) -> bool {
        true
    }

    fn to_proto(&self) -> (r: proto::BreakpointModeApplicability)
        ensures
            r == applicability_to_proto(*self),
    {
        match self {
            dap::BreakpointModeApplicability::Source => proto::BreakpointModeApplicability::Source,
            dap::BreakpointModeApplicability::Exception => proto::BreakpointModeApplicability::Exception,
            dap::BreakpointModeApplicability::Data => proto::BreakpointModeApplicability::Data,
            dap::BreakpointModeApplicability::Instruction => proto::BreakpointModeApplicability::InstructionBreakpoint,
            dap::BreakpointModeApplicability::Unknown => proto::BreakpointModeApplicability::BreakpointModeUnknown,
        }
    }

    fn from_proto(payload: proto::BreakpointModeApplicability) -> (r: Self)
        ensures
            r == applicability_from_proto(payload),
    {
        match payload {
            proto::BreakpointModeApplicability::Source => dap::BreakpointModeApplicability::Source,
            proto::BreakpointModeApplicability::Exception => dap::BreakpointModeApplicability::Exception,
            proto::BreakpointModeApplicability::Data => dap::BreakpointModeApplicability::Data,
            proto::BreakpointModeApplicability::InstructionBreakpoint => dap::BreakpointModeApplicability::Instruction,
            proto::BreakpointModeApplicability::BreakpointModeUnknown => dap::BreakpointModeApplicability::Unknown,
        }
    }
}


/// The wire value of a checksum algorithm.
pub open spec fn checksum_algorithm_to_proto(v: dap::ChecksumAlgorithm) -> proto::DapChecksumAlgorithm {
    match v {
        dap::ChecksumAlgorithm::Md5 => proto::DapChecksumAlgorithm::Md5,
        dap::ChecksumAlgorithm::Sha1 => proto::DapChecksumAlgorithm::Sha1,
        dap::ChecksumAlgorithm::Sha256 => proto::DapChecksumAlgorithm::Sha256,
        dap::ChecksumAlgorithm::Timestamp => proto::DapChecksumAlgorithm::Timestamp,
    }
}

/// The checksum algorithm a wire value other than the unset one stands for.
pub open spec fn checksum_algorithm_from_proto(v: proto::DapChecksumAlgorithm) -> dap::ChecksumAlgorithm
    recommends
        v != proto::DapChecksumAlgorithm::ChecksumAlgorithmUnspecified,
{
    match v {
        proto::DapChecksumAlgorithm::Md5 => dap::ChecksumAlgorithm::Md5,
        proto::DapChecksumAlgorithm::Sha1 => dap::ChecksumAlgorithm::Sha1,
        proto::DapChecksumAlgorithm::Sha256 => dap::ChecksumAlgorithm::Sha256,
        _ => dap::ChecksumAlgorithm::Timestamp,
    }
}

/// Sending a checksum algorithm over the wire and reading it back gives it back.
pub proof fn lemma_checksum_algorithm_round_trip(v: dap::ChecksumAlgorithm)
    ensures
        checksum_algorithm_to_proto(v) != proto::DapChecksumAlgorithm::ChecksumAlgorithmUnspecified,
        checksum_algorithm_from_proto(checksum_algorithm_to_proto(v)) == v,
{
}

impl ProtoConversion for dap::ChecksumAlgorithm {
    type ProtoType = proto::DapChecksumAlgorithm;
    type Output = Self;

    /// The unset value stands for no algorithm and cannot be read.
    open spec fn accepts_proto(payload: proto::DapChecksumAlgorithm) -> bool {
        payload != proto::DapChecksumAlgorithm::ChecksumAlgorithmUnspecified
    }

    fn to_proto(&self) -> (r: proto::DapChecksumAlgorithm)
        ensures
            r == checksum_algorithm_to_proto(*self),
    {
        match self {
            dap::ChecksumAlgorithm::Md5 => proto::DapChecksumAlgorithm::Md5,
            dap::ChecksumAlgorithm::Sha1 => proto::DapChecksumAlgorithm::Sha1,
            dap::ChecksumAlgorithm::Sha256 => proto::DapChecksumAlgorithm::Sha256,
            dap::ChecksumAlgorithm::Timestamp => proto::DapChecksumAlgorithm::Timestamp,
        }
    }

    fn from_proto(payload: proto::DapChecksumAlgorithm) -> (r: Self)
        ensures
            r == checksum_algorithm_from_proto(payload),
    {
        match payload {
            proto::DapChecksumAlgorithm::Md5 => dap::ChecksumAlgorithm::Md5,
            proto::DapChecksumAlgorithm::Sha1 => dap::ChecksumAlgorithm::Sha1,
            proto::DapChecksumAlgorithm::Sha256 => dap::ChecksumAlgorithm::Sha256,
            proto::DapChecksumAlgorithm::Timestamp => dap::ChecksumAlgorithm::Timestamp,
            proto::DapChecksumAlgorithm::ChecksumAlgorithmUnspecified => {
                proof {
                    assert(false);
                }
                dap::ChecksumAlgorithm::Timestamp
            },
        }
    }
}

/// The algorithm a wire checksum names, read as a wire enumeration would be:
/// an unknown number reads as the unset value.
pub open spec fn checksum_algorithm_field(algorithm: i32) -> proto::DapChecksumAlgorithm {
    match proto::DapChecksumAlgorithm::spec_from_i32(algorithm) {
        Some(a) => a,
        None => proto::DapChecksumAlgorithm::ChecksumAlgorithmUnspecified,
    }
}

/// Reads the algorithm field of a wire checksum.
pub fn read_checksum_algorithm(algorithm: i32) -> (r: proto::DapChecksumAlgorithm)
    ensures
        r == checksum_algorithm_field(algorithm),
{
    match proto::DapChecksumAlgorithm::from_i32(algorithm) {
        Some(a) => a,
        None => proto::DapChecksumAlgorithm::ChecksumAlgorithmUnspecified,
    }
}

/// The wire form of a checksum.
pub open spec fn checksum_to_proto(c: dap::Checksum) -> proto::DapChecksum {
    proto::DapChecksum {
        algorithm: checksum_algorithm_to_proto(c.algorithm).spec_to_i32(),
        checksum: c.checksum,
    }
}

/// Whether a wire checksum names an algorithm.
pub open spec fn checksum_accepted(p: proto::DapChecksum) -> bool {
    checksum_algorithm_field(p.algorithm) != proto::DapChecksumAlgorithm::ChecksumAlgorithmUnspecified
}

/// The checksum a wire checksum stands for.
pub open spec fn checksum_from_proto(p: proto::DapChecksum) -> dap::Checksum {
    dap::Checksum {
        algorithm: checksum_algorithm_from_proto(checksum_algorithm_field(p.algorithm)),
        checksum: p.checksum,
    }
}

impl ProtoConversion for dap::Checksum {
    type ProtoType = proto::DapChecksum;
    type Output = Self;

    open spec fn accepts_proto(payload: proto::DapChecksum) -> bool {
        checksum_accepted(payload)
    }

    fn to_proto(&self) -> (r: proto::DapChecksum)
        ensures
            r == checksum_to_proto(*self),
    {
        proto::DapChecksum { algorithm: self.algorithm.to_proto().to_i32(), checksum: self.checksum.clone() }
    }

    fn from_proto(payload: proto::DapChecksum) -> (r: Self)
        ensures
            r == checksum_from_proto(payload),
    {
        let algorithm = read_checksum_algorithm(payload.algorithm);
        dap::Checksum { algorithm: dap::ChecksumAlgorithm::from_proto(algorithm), checksum: payload.checksum }
    }
}

/// Sending a checksum over the wire and reading it back gives it back.
pub proof fn lemma_checksum_round_trip(c: dap::Checksum)
    ensures
        checksum_accepted(checksum_to_proto(c)),
        checksum_from_proto(checksum_to_proto(c)) == c,
{
    checksum_algorithm_to_proto(c.algorithm).lemma_i32_round_trip();
}


/// The wire number of an optional source presentation hint.
pub open spec fn opt_source_hint_to_proto(h: Option<dap::SourcePresentationHint>) -> Option<i32> {
    match h {
        Some(h) => Some(source_hint_to_proto(h).spec_to_i32()),
        None => None,
    }
}

/// The source presentation hint an optional wire number stands for; an
/// unknown number reads as no hint.
pub open spec fn opt_source_hint_from_proto(h: Option<i32>) -> Option<dap::SourcePresentationHint> {
    match h {
        Some(n) => match proto::DapSourcePresentationHint::spec_from_i32(n) {
            Some(h) => Some(source_hint_from_proto(h)),
            None => None,
        },
        None => None,
    }
}

fn opt_source_hint_to_proto_exec(h: Option<dap::SourcePresentationHint>) -> (r: Option<i32>)
    ensures
        r == opt_source_hint_to_proto(h),
{
    match h {
        Some(h) => Some(h.to_proto().to_i32()),
        None => None,
    }
}

fn opt_source_hint_from_proto_exec(h: Option<i32>) -> (r: Option<dap::SourcePresentationHint>)
    ensures
        r == opt_source_hint_from_proto(h),
{
    match h {
        Some(n) => match proto::DapSourcePresentationHint::from_i32(n) {
            Some(h) => Some(dap::SourcePresentationHint::from_proto(h)),
            None => None,
        },
        None => None,
    }
}

/// The wire form of a source: nested sources and checksums are sent as
/// lists (a missing list as an empty one) and adapter data is left out.
pub open spec fn source_to_proto(s: dap::SourceView) -> proto::DapSourceView
    decreases s, 1int,
{
    proto::DapSourceView {
        name: s.name,
        path: s.path,
        source_reference: s.source_reference,
        presentation_hint: opt_source_hint_to_proto(s.presentation_hint),
        origin: s.origin,
        sources: match s.sources {
            Some(v) => sources_to_proto(v),
            None => Seq::empty(),
        },
        adapter_data: None,
        checksums: match s.checksums {
            Some(c) => c.map_values(|c: dap::Checksum| checksum_to_proto(c)),
            None => Seq::empty(),
        },
    }
}

/// The wire forms of a sequence of sources, element by element.
pub open spec fn sources_to_proto(v: Seq<dap::SourceView>) -> Seq<proto::DapSourceView>
    decreases v, 0int,
{
    if v.len() == 0 {
        Seq::empty()
    } else {
        sources_to_proto(v.subrange(0, v.len() - 1)).push(source_to_proto(v.last()))
    }
}

/// `sources_to_proto` converts each element.
pub proof fn lemma_sources_to_proto(v: Seq<dap::SourceView>)
    ensures
        sources_to_proto(v).len() == v.len(),
        forall|i: int| 0 <= i < v.len() ==> #[trigger] sources_to_proto(v)[i] == source_to_proto(v[i]),
    decreases v.len(),
{
    if v.len() > 0 {
        let w = v.subrange(0, v.len() - 1);
        lemma_sources_to_proto(w);
        assert forall|i: int| 0 <= i < v.len() implies #[trigger] sources_to_proto(v)[i] == source_to_proto(v[i]) by {
            if i < v.len() - 1 {
                assert(w[i] == v[i]);
            }
        }
    }
}

/// The source a wire source stands for: nested sources and checksums are
/// always present, an unknown presentation hint reads as none, and adapter
/// data is not carried.
pub open spec fn source_from_proto(p: proto::DapSourceView) -> dap::SourceView
    decreases p, 1int,
{
    dap::SourceView {
        name: p.name,
        path: p.path,
        source_reference: p.source_reference,
        presentation_hint: opt_source_hint_from_proto(p.presentation_hint),
        origin: p.origin,
        sources: Some(sources_from_proto(p.sources)),
        adapter_data: None,
        checksums: Some(p.checksums.map_values(|c: proto::DapChecksum| checksum_from_proto(c))),
    }
}

/// The sources a sequence of wire sources stands for, element by element.
pub open spec fn sources_from_proto(v: Seq<proto::DapSourceView>) -> Seq<dap::SourceView>
    decreases v, 0int,
{
    if v.len() == 0 {
        Seq::empty()
    } else {
        sources_from_proto(v.subrange(0, v.len() - 1)).push(source_from_proto(v.last()))
    }
}

/// `sources_from_proto` converts each element.
pub proof fn lemma_sources_from_proto(v: Seq<proto::DapSourceView>)
    ensures
        sources_from_proto(v).len() == v.len(),
        forall|i: int| 0 <= i < v.len() ==> #[trigger] sources_from_proto(v)[i] == source_from_proto(v[i]),
    decreases v.len(),
{
    if v.len() > 0 {
        let w = v.subrange(0, v.len() - 1);
        lemma_sources_from_proto(w);
        assert forall|i: int| 0 <= i < v.len() implies #[trigger] sources_from_proto(v)[i] == source_from_proto(v[i]) by {
            if i < v.len() - 1 {
                assert(w[i] == v[i]);
            }
        }
    }
}

/// Whether every checksum of a wire source, nested sources included, names
/// an algorithm.
pub open spec fn source_accepted(p: proto::DapSourceView) -> bool
    decreases p, 1int,
{
    &&& forall|i: int| 0 <= i < p.checksums.len() ==> #[trigger] checksum_accepted(p.checksums[i])
    &&& sources_accepted(p.sources)
}

/// Whether every wire source of a sequence is accepted.
pub open spec fn sources_accepted(v: Seq<proto::DapSourceView>) -> bool
    decreases v, 0int,
{
    v.len() == 0 || (sources_accepted(v.subrange(0, v.len() - 1)) && source_accepted(v.last()))
}

/// `sources_accepted` holds exactly when each element is accepted.
pub proof fn lemma_sources_accepted(v: Seq<proto::DapSourceView>)
    ensures
        sources_accepted(v) <==> forall|i: int| 0 <= i < v.len() ==> #[trigger] source_accepted(v[i]),
    decreases v.len(),
{
    if v.len() > 0 {
        let w = v.subrange(0, v.len() - 1);
        lemma_sources_accepted(w);
        assert(v.last() == v[v.len() - 1]);
        if forall|i: int| 0 <= i < v.len() ==> #[trigger] source_accepted(v[i]) {
            assert forall|i: int| 0 <= i < w.len() implies #[trigger] source_accepted(w[i]) by {
                assert(w[i] == v[i]);
                assert(source_accepted(v[i]));
            }
            assert(source_accepted(v[v.len() - 1]));
        }
        if sources_accepted(v) {
            assert forall|i: int| 0 <= i < v.len() implies #[trigger] source_accepted(v[i]) by {
                if i < v.len() - 1 {
                    assert(w[i] == v[i]);
                    assert(source_accepted(w[i]));
                }
            }
        }
    }
}

fn source_to_proto_exec(s: &dap::Source) -> (r: proto::DapSource)
    ensures
        r@ == source_to_proto(s@),
    decreases s,
{
    let mut sources: Vec<proto::DapSource> = Vec::new();
    match &s.sources {
        Some(v) => {
            let mut i: usize = 0;
            while i < v.len()
                invariant
                    s.sources == Some(*v),
                    i <= v.len(),
                    sources@.len() == i,
                    forall|j: int| 0 <= j < i ==> (#[trigger] sources@[j])@ == source_to_proto(v@[j]@),
                decreases v.len() - i,
            {
                proof {
                    assert(decreases_to!(*s => s.sources));
                    assert(decreases_to!(s.sources => s.sources->0));
                    assert(decreases_to!(*v => v@));
                    assert(decreases_to!(v@ => v@[i as int]));
                }
                let c = source_to_proto_exec(&v[i]);
                sources.push(c);
                i += 1;
            }
            proof {
                dap::lemma_sources_view(v@);
                lemma_sources_to_proto(dap::sources_view(v@));
                proto::lemma_dap_sources_view(sources@);
                assert(proto::dap_sources_view(sources@) =~= sources_to_proto(dap::sources_view(v@)));
            }
        },
        None => {
            assert(proto::dap_sources_view(sources@) =~= Seq::empty());
        },
    }
    let mut checksums: Vec<proto::DapChecksum> = Vec::new();
    match &s.checksums {
        Some(c) => {
            let mut k: usize = 0;
            while k < c.len()
                invariant
                    k <= c.len(),
                    checksums@ =~= c@.subrange(0, k as int).map_values(|c: dap::Checksum| checksum_to_proto(c)),
                decreases c.len() - k,
            {
                checksums.push(c[k].to_proto());
                k += 1;
            }
            assert(c@.subrange(0, c@.len() as int) =~= c@);
        },
        None => {},
    }
    let r = proto::DapSource {
        name: dap::clone_opt_string(&s.name),
        path: dap::clone_opt_string(&s.path),
        source_reference: s.source_reference,
        presentation_hint: opt_source_hint_to_proto_exec(s.presentation_hint),
        origin: dap::clone_opt_string(&s.origin),
        sources,
        adapter_data: None,
        checksums,
    };
    assert(r@.checksums =~= source_to_proto(s@).checksums);
    r
}

fn source_from_proto_exec(p: &proto::DapSource) -> (r: dap::Source)
    requires
        source_accepted(p@),
    ensures
        r@ == source_from_proto(p@),
    decreases p,
{
    let ghost pv = p@;
    proof {
        proto::lemma_dap_sources_view(p.sources@);
        lemma_sources_accepted(pv.sources);
    }
    let nested = &p.sources;
    let mut sources: Vec<dap::Source> = Vec::new();
    let mut i: usize = 0;
    while i < nested.len()
        invariant
            nested == &p.sources,
            pv == p@,
            forall|j: int| 0 <= j < nested@.len() ==> #[trigger] source_accepted(pv.sources[j]),
            proto::dap_sources_view(nested@).len() == nested@.len(),
            forall|j: int| 0 <= j < nested@.len() ==> #[trigger] proto::dap_sources_view(nested@)[j] == proto::dap_source_view(nested@[j]),
            i <= nested.len(),
            sources@.len() == i,
            forall|j: int| 0 <= j < i ==> (#[trigger] sources@[j])@ == source_from_proto(nested@[j]@),
        decreases nested.len() - i,
    {
        proof {
            assert(decreases_to!(*p => p.sources));
            assert(decreases_to!(p.sources => p.sources@));
            assert(decreases_to!(p.sources@ => p.sources@[i as int]));
            assert(proto::dap_sources_view(nested@)[i as int] == nested@[i as int]@);
            assert(source_accepted(pv.sources[i as int]));
        }
        let c = source_from_proto_exec(&nested[i]);
        sources.push(c);
        i += 1;
    }
    proof {
        dap::lemma_sources_view(sources@);
        lemma_sources_from_proto(pv.sources);
        assert(dap::sources_view(sources@) =~= sources_from_proto(pv.sources));
    }
    let wire_checksums = &p.checksums;
    let mut checksums: Vec<dap::Checksum> = Vec::new();
    let mut k: usize = 0;
    while k < wire_checksums.len()
        invariant
            wire_checksums@ == pv.checksums,
            forall|j: int| 0 <= j < pv.checksums.len() ==> #[trigger] checksum_accepted(pv.checksums[j]),
            k <= wire_checksums.len(),
            checksums@ =~= wire_checksums@.subrange(0, k as int).map_values(|c: proto::DapChecksum| checksum_from_proto(c)),
        decreases wire_checksums.len() - k,
    {
        let c = &wire_checksums[k];
        assert(checksum_accepted(pv.checksums[k as int]));
        checksums.push(dap::Checksum::from_proto(proto::DapChecksum { algorithm: c.algorithm, checksum: c.checksum.clone() }));
        k += 1;
    }
    assert(wire_checksums@.subrange(0, wire_checksums@.len() as int) =~= wire_checksums@);
    let r = dap::Source {
        name: dap::clone_opt_string(&p.name),
        path: dap::clone_opt_string(&p.path),
        source_reference: p.source_reference,
        presentation_hint: opt_source_hint_from_proto_exec(p.presentation_hint),
        origin: dap::clone_opt_string(&p.origin),
        sources: Some(sources),
        adapter_data: None,
        checksums: Some(checksums),
    };
    assert(r@.checksums == source_from_proto(pv).checksums);
    r
}

impl ProtoConversion for dap::Source {
    type ProtoType = proto::DapSource;
    type Output = Self;

    open spec fn accepts_proto(payload: proto::DapSource) -> bool {
        source_accepted(payload@)
    }

    fn to_proto(&self) -> (r: proto::DapSource)
        ensures
            r@ == source_to_proto(self@),
    {
        source_to_proto_exec(self)
    }

    fn from_proto(payload: proto::DapSource) -> (r: Self)
        ensures
            r@ == source_from_proto(payload@),
    {
        source_from_proto_exec(&payload)
    }
}

/// Whether a source keeps everything when sent over the wire: it carries no
/// adapter data and has lists (not missing ones) of nested sources and
/// checksums, the nested sources alike.
pub open spec fn source_wire_faithful(s: dap::SourceView) -> bool
    decreases s, 1int,
{
    &&& s.adapter_data is None
    &&& s.checksums is Some
    &&& match s.sources {
        Some(v) => sources_wire_faithful(v),
        None => false,
    }
}

/// Whether every source of a sequence keeps everything over the wire.
pub open spec fn sources_wire_faithful(v: Seq<dap::SourceView>) -> bool
    decreases v, 0int,
{
    v.len() == 0 || (sources_wire_faithful(v.subrange(0, v.len() - 1)) && source_wire_faithful(v.last()))
}

/// Every wire source that a source converts to can be read back.
pub proof fn lemma_source_to_proto_accepted(s: dap::SourceView)
    ensures
        source_accepted(source_to_proto(s)),
    decreases s, 1int,
{
    let p = source_to_proto(s);
    match s.sources {
        Some(v) => {
            lemma_sources_to_proto_accepted(v);
        },
        None => {},
    }
    match s.checksums {
        Some(c) => {
            assert forall|i: int| 0 <= i < p.checksums.len() implies #[trigger] checksum_accepted(p.checksums[i]) by {
                lemma_checksum_round_trip(c[i]);
            }
        },
        None => {},
    }
}

proof fn lemma_sources_to_proto_accepted(v: Seq<dap::SourceView>)
    ensures
        sources_accepted(sources_to_proto(v)),
    decreases v, 0int,
{
    if v.len() > 0 {
        let w = v.subrange(0, v.len() - 1);
        lemma_sources_to_proto_accepted(w);
        lemma_source_to_proto_accepted(v.last());
        let t = sources_to_proto(v);
        assert(t.subrange(0, t.len() - 1) =~= sources_to_proto(w));
    }
}

/// Sending a source over the wire and reading it back gives it back, when it
/// keeps everything over the wire.
pub proof fn lemma_source_round_trip(s: dap::SourceView)
    requires
        source_wire_faithful(s),
    ensures
        source_from_proto(source_to_proto(s)) == s,
    decreases s, 1int,
{
    let v = s.sources->0;
    lemma_sources_round_trip(v);
    let c = s.checksums->0;
    let back = source_to_proto(s).checksums.map_values(|c: proto::DapChecksum| checksum_from_proto(c));
    assert forall|i: int| 0 <= i < c.len() implies #[trigger] back[i] == c[i] by {
        lemma_checksum_round_trip(c[i]);
    }
    assert(back =~= c);
    match s.presentation_hint {
        Some(h) => {
            lemma_source_hint_round_trip(h, source_hint_to_proto(h));
            source_hint_to_proto(h).lemma_i32_round_trip();
        },
        None => {},
    }
}

proof fn lemma_sources_round_trip(v: Seq<dap::SourceView>)
    requires
        sources_wire_faithful(v),
    ensures
        sources_from_proto(sources_to_proto(v)) == v,
    decreases v, 0int,
{
    if v.len() > 0 {
        let w = v.subrange(0, v.len() - 1);
        lemma_sources_round_trip(w);
        lemma_source_round_trip(v.last());
        let t = sources_to_proto(v);
        assert(t.subrange(0, t.len() - 1) =~= sources_to_proto(w));
        assert(sources_from_proto(t) =~= v);
    }
}

/// The wire form of an optional source.
pub open spec fn opt_source_to_proto(s: Option<dap::SourceView>) -> Option<proto::DapSourceView> {
    match s {
        Some(s) => Some(source_to_proto(s)),
        None => None,
    }
}

/// The optional source an optional wire source stands for.
pub open spec fn opt_source_from_proto(p: Option<proto::DapSourceView>) -> Option<dap::SourceView> {
    match p {
        Some(p) => Some(source_from_proto(p)),
        None => None,
    }
}

/// Whether an optional wire source can be read.
pub open spec fn opt_source_accepted(p: Option<proto::DapSourceView>) -> bool {
    match p {
        Some(p) => source_accepted(p),
        None => true,
    }
}

/// Whether an optional source keeps everything over the wire.
pub open spec fn opt_source_wire_faithful(s: Option<dap::SourceView>) -> bool {
    match s {
        Some(s) => source_wire_faithful(s),
        None => true,
    }
}

fn opt_source_to_proto_exec(s: &Option<dap::Source>) -> (r: Option<proto::DapSource>)
    ensures
        proto::opt_dap_source_view(r) == opt_source_to_proto(dap::opt_source_view(*s)),
{
    match s {
        Some(s) => Some(s.to_proto()),
        None => None,
    }
}

fn opt_source_from_proto_exec(p: Option<proto::DapSource>) -> (r: Option<dap::Source>)
    requires
        opt_source_accepted(proto::opt_dap_source_view(p)),
    ensures
        dap::opt_source_view(r) == opt_source_from_proto(proto::opt_dap_source_view(p)),
{
    match p {
        Some(p) => Some(dap::Source::from_proto(p)),
        None => None,
    }
}

/// Sending an optional source over the wire and reading it back gives it
/// back, when it keeps everything over the wire.
pub proof fn lemma_opt_source_round_trip(s: Option<dap::SourceView>)
    ensures
        opt_source_accepted(opt_source_to_proto(s)),
        opt_source_wire_faithful(s) ==> opt_source_from_proto(opt_source_to_proto(s)) == s,
{
    match s {
        Some(v) => {
            lemma_source_to_proto_accepted(v);
            if source_wire_faithful(v) {
                lemma_source_round_trip(v);
            }
        },
        None => {},
    }
}

/// The wire number of an optional scope presentation hint.
pub open spec fn opt_scope_hint_to_proto(h: Option<dap::ScopePresentationHint>) -> Option<i32> {
    match h {
        Some(h) => Some(scope_hint_to_proto(h).spec_to_i32()),
        None => None,
    }
}

/// The scope presentation hint an optional wire number stands for; an
/// unknown number reads as no hint.
pub open spec fn opt_scope_hint_from_proto(h: Option<i32>) -> Option<dap::ScopePresentationHint> {
    match h {
        Some(n) => match proto::DapScopePresentationHint::spec_from_i32(n) {
            Some(h) => Some(scope_hint_from_proto(h)),
            None => None,
        },
        None => None,
    }
}

/// The wire form of a scope.
pub open spec fn scope_to_proto(s: dap::ScopeView) -> proto::DapScopeView {
    proto::DapScopeView {
        name: s.name,
        presentation_hint: opt_scope_hint_to_proto(s.presentation_hint),
        variables_reference: s.variables_reference,
        named_variables: s.named_variables,
        indexed_variables: s.indexed_variables,
        expensive: s.expensive,
        source: opt_source_to_proto(s.source),
        line: s.line,
        column: s.column,
        end_line: s.end_line,
        end_column: s.end_column,
    }
}

/// The scope a wire scope stands for.
pub open spec fn scope_from_proto(p: proto::DapScopeView) -> dap::ScopeView {
    dap::ScopeView {
        name: p.name,
        presentation_hint: opt_scope_hint_from_proto(p.presentation_hint),
        variables_reference: p.variables_reference,
        named_variables: p.named_variables,
        indexed_variables: p.indexed_variables,
        expensive: p.expensive,
        source: opt_source_from_proto(p.source),
        line: p.line,
        column: p.column,
        end_line: p.end_line,
        end_column: p.end_column,
    }
}

impl ProtoConversion for dap::Scope {
    type ProtoType = proto::DapScope;
    type Output = Self;

    open spec fn accepts_proto(payload: proto::DapScope) -> bool {
        opt_source_accepted(payload@.source)
    }

    fn to_proto(&self) -> (r: proto::DapScope)
        ensures
            r@ == scope_to_proto(self@),
    {
        proto::DapScope {
            name: self.name.clone(),
            presentation_hint: match self.presentation_hint {
                Some(h) => Some(h.to_proto().to_i32()),
                None => None,
            },
            variables_reference: self.variables_reference,
            named_variables: self.named_variables,
            indexed_variables: self.indexed_variables,
            expensive: self.expensive,
            source: opt_source_to_proto_exec(&self.source),
            line: self.line,
            column: self.column,
            end_line: self.end_line,
            end_column: self.end_column,
        }
    }

    fn from_proto(payload: proto::DapScope) -> (r: Self)
        ensures
            r@ == scope_from_proto(payload@),
    {
        let presentation_hint = match payload.presentation_hint {
            Some(n) => match proto::DapScopePresentationHint::from_i32(n) {
                Some(h) => Some(dap::ScopePresentationHint::from_proto(h)),
                None => None,
            },
            None => None,
        };
        dap::Scope {
            name: payload.name,
            presentation_hint,
            variables_reference: payload.variables_reference,
            named_variables: payload.named_variables,
            indexed_variables: payload.indexed_variables,
            expensive: payload.expensive,
            source: opt_source_from_proto_exec(payload.source),
            line: payload.line,
            column: payload.column,
            end_line: payload.end_line,
            end_column: payload.end_column,
        }
    }
}

/// Sending a scope over the wire and reading it back gives it back, when its
/// source keeps everything over the wire.
pub proof fn lemma_scope_round_trip(s: dap::ScopeView)
    requires
        opt_source_wire_faithful(s.source),
    ensures
        opt_source_accepted(scope_to_proto(s).source),
        scope_from_proto(scope_to_proto(s)) == s,
{
    lemma_opt_source_round_trip(s.source);
    match s.presentation_hint {
        Some(h) => {
            lemma_scope_hint_round_trip(h, scope_hint_to_proto(h));
            scope_hint_to_proto(h).lemma_i32_round_trip();
        },
        None => {},
    }
}

/// The wire form of a variable: its presentation hint and location
/// references are not carried.
pub open spec fn variable_to_proto(v: dap::Variable) -> proto::DapVariable {
    proto::DapVariable {
        name: v.name,
        value: v.value,
        type_: v.type_,
        evaluate_name: v.evaluate_name,
        variables_reference: v.variables_reference,
        named_variables: v.named_variables,
        indexed_variables: v.indexed_variables,
        memory_reference: v.memory_reference,
    }
}

/// The variable a wire variable stands for, with no presentation hint and no
/// location references.
pub open spec fn variable_from_proto(p: proto::DapVariable) -> dap::Variable {
    dap::Variable {
        name: p.name,
        value: p.value,
        type_: p.type_,
        presentation_hint: None,
        evaluate_name: p.evaluate_name,
        variables_reference: p.variables_reference,
        named_variables: p.named_variables,
        indexed_variables: p.indexed_variables,
        memory_reference: p.memory_reference,
        declaration_location_reference: None,
        value_location_reference: None,
    }
}

impl ProtoConversion for dap::Variable {
    type ProtoType = proto::DapVariable;
    type Output = Self;

    open spec fn accepts_proto(payload: proto::DapVariable) -> bool {
        true
    }

    fn to_proto(&self) -> (r: proto::DapVariable)
        ensures
            r == variable_to_proto(*self),
    {
        proto::DapVariable {
            name: self.name.clone(),
            value: self.value.clone(),
            type_: dap::clone_opt_string(&self.type_),
            evaluate_name: dap::clone_opt_string(&self.evaluate_name),
            variables_reference: self.variables_reference,
            named_variables: self.named_variables,
            indexed_variables: self.indexed_variables,
            memory_reference: dap::clone_opt_string(&self.memory_reference),
        }
    }

    fn from_proto(payload: proto::DapVariable) -> (r: Self)
        ensures
            r == variable_from_proto(payload),
    {
        dap::Variable {
            name: payload.name,
            value: payload.value,
            type_: payload.type_,
            presentation_hint: None,
            evaluate_name: payload.evaluate_name,
            variables_reference: payload.variables_reference,
            named_variables: payload.named_variables,
            indexed_variables: payload.indexed_variables,
            memory_reference: payload.memory_reference,
            declaration_location_reference: None,
            value_location_reference: None,
        }
    }
}

/// Sending a variable over the wire and reading it back gives it back, when
/// it has no presentation hint and no location references.
pub proof fn lemma_variable_round_trip(v: dap::Variable)
    requires
        v.presentation_hint is None,
        v.declaration_location_reference is None,
        v.value_location_reference is None,
    ensures
        variable_from_proto(variable_to_proto(v)) == v,
{
}

/// The wire form of a stack frame: its module id and presentation hint are
/// not carried.
pub open spec fn stack_frame_to_proto(f: dap::StackFrameView) -> proto::DapStackFrameView {
    proto::DapStackFrameView {
        id: f.id,
        name: f.name,
        source: opt_source_to_proto(f.source),
        line: f.line,
        column: f.column,
        end_line: f.end_line,
        end_column: f.end_column,
        can_restart: f.can_restart,
        instruction_pointer_reference: f.instruction_pointer_reference,
        module_id: None,
        presentation_hint: None,
    }
}

/// The stack frame a wire stack frame stands for, with no module id and no
/// presentation hint.
pub open spec fn stack_frame_from_proto(p: proto::DapStackFrameView) -> dap::StackFrameView {
    dap::StackFrameView {
        id: p.id,
        name: p.name,
        source: opt_source_from_proto(p.source),
        line: p.line,
        column: p.column,
        end_line: p.end_line,
        end_column: p.end_column,
        can_restart: p.can_restart,
        instruction_pointer_reference: p.instruction_pointer_reference,
        module_id: None,
        presentation_hint: None,
    }
}

impl ProtoConversion for dap::StackFrame {
    type ProtoType = proto::DapStackFrame;
    type Output = Self;

    open spec fn accepts_proto(payload: proto::DapStackFrame) -> bool {
        opt_source_accepted(payload@.source)
    }

    fn to_proto(&self) -> (r: proto::DapStackFrame)
        ensures
            r@ == stack_frame_to_proto(self@),
    {
        proto::DapStackFrame {
            id: self.id,
            name: self.name.clone(),
            source: opt_source_to_proto_exec(&self.source),
            line: self.line,
            column: self.column,
            end_line: self.end_line,
            end_column: self.end_column,
            can_restart: self.can_restart,
            instruction_pointer_reference: dap::clone_opt_string(&self.instruction_pointer_reference),
            module_id: None,
            presentation_hint: None,
        }
    }

    fn from_proto(payload: proto::DapStackFrame) -> (r: Self)
        ensures
            r@ == stack_frame_from_proto(payload@),
    {
        dap::StackFrame {
            id: payload.id,
            name: payload.name,
            source: opt_source_from_proto_exec(payload.source),
            line: payload.line,
            column: payload.column,
            end_line: payload.end_line,
            end_column: payload.end_column,
            can_restart: payload.can_restart,
            instruction_pointer_reference: payload.instruction_pointer_reference,
            module_id: None,
            presentation_hint: None,
        }
    }
}

/// Sending a stack frame over the wire and reading it back gives it back,
/// when it has no module id or presentation hint and its source keeps
/// everything over the wire.
pub proof fn lemma_stack_frame_round_trip(f: dap::StackFrameView)
    requires
        f.module_id is None,
        f.presentation_hint is None,
        opt_source_wire_faithful(f.source),
    ensures
        opt_source_accepted(stack_frame_to_proto(f).source),
        stack_frame_from_proto(stack_frame_to_proto(f)) == f,
{
    lemma_opt_source_round_trip(f.source);
}

/// Why a wire message could not be read.
#[derive(Clone, Copy, Debug, PartialEq, Eq, Structural)]
pub enum ProtoConversionError {
    /// A wire module carries no id.
    MissingModuleId,
    /// A wire module id carries no value.
    MissingModuleIdValue,
}

/// The wire form of a module id.
pub open spec fn module_id_to_proto(id: dap::ModuleId) -> proto::DapModuleIdKind {
    match id {
        dap::ModuleId::Number(n) => proto::DapModuleIdKind::Number(n),
        dap::ModuleId::String(s) => proto::DapModuleIdKind::String(s),
    }
}

/// The module id a wire module id stands for.
pub open spec fn module_id_from_proto(id: proto::DapModuleIdKind) -> dap::ModuleId {
    match id {
        proto::DapModuleIdKind::Number(n) => dap::ModuleId::Number(n),
        proto::DapModuleIdKind::String(s) => dap::ModuleId::String(s),
    }
}

/// The wire form of a module.
pub open spec fn module_to_proto(m: dap::Module) -> proto::DapModule {
    proto::DapModule {
        id: Some(proto::DapModuleId { id: Some(module_id_to_proto(m.id)) }),
        name: m.name,
        path: m.path,
        is_optimized: m.is_optimized,
        is_user_code: m.is_user_code,
        version: m.version,
        symbol_status: m.symbol_status,
        symbol_file_path: m.symbol_file_path,
        date_time_stamp: m.date_time_stamp,
        address_range: m.address_range,
    }
}

/// What reading a wire module gives: the module, or the reason it has no id.
pub open spec fn module_from_proto(p: proto::DapModule) -> Result<dap::Module, ProtoConversionError> {
    match p.id {
        None => Err(ProtoConversionError::MissingModuleId),
        Some(id) => match id.id {
            None => Err(ProtoConversionError::MissingModuleIdValue),
            Some(kind) => Ok(
                dap::Module {
                    id: module_id_from_proto(kind),
                    name: p.name,
                    path: p.path,
                    is_optimized: p.is_optimized,
                    is_user_code: p.is_user_code,
                    version: p.version,
                    symbol_status: p.symbol_status,
                    symbol_file_path: p.symbol_file_path,
                    date_time_stamp: p.date_time_stamp,
                    address_range: p.address_range,
                },
            ),
        },
    }
}

impl ProtoConversion for dap::Module {
    type ProtoType = proto::DapModule;
    type Output = Result<dap::Module, ProtoConversionError>;

    open spec fn accepts_proto(payload: proto::DapModule) -> bool {
        true
    }

    fn to_proto(&self) -> (r: proto::DapModule)
        ensures
            r == module_to_proto(*self),
    {
        let id = match &self.id {
            dap::ModuleId::Number(n) => proto::DapModuleIdKind::Number(*n),
            dap::ModuleId::String(s) => proto::DapModuleIdKind::String(s.clone()),
        };
        proto::DapModule {
            id: Some(proto::DapModuleId { id: Some(id) }),
            name: self.name.clone(),
            path: dap::clone_opt_string(&self.path),
            is_optimized: self.is_optimized,
            is_user_code: self.is_user_code,
            version: dap::clone_opt_string(&self.version),
            symbol_status: dap::clone_opt_string(&self.symbol_status),
            symbol_file_path: dap::clone_opt_string(&self.symbol_file_path),
            date_time_stamp: dap::clone_opt_string(&self.date_time_stamp),
            address_range: dap::clone_opt_string(&self.address_range),
        }
    }

    fn from_proto(payload: proto::DapModule) -> (r: Result<dap::Module, ProtoConversionError>)
        ensures
            r == module_from_proto(payload),
    {
        let id = match payload.id {
            None => {
                return Err(ProtoConversionError::MissingModuleId);
            },
            Some(id) => id,
        };
        let kind = match id.id {
            None => {
                return Err(ProtoConversionError::MissingModuleIdValue);
            },
            Some(kind) => kind,
        };
        let id = match kind {
            proto::DapModuleIdKind::Number(n) => dap::ModuleId::Number(n),
            proto::DapModuleIdKind::String(s) => dap::ModuleId::String(s),
        };
        Ok(
            dap::Module {
                id,
                name: payload.name,
                path: payload.path,
                is_optimized: payload.is_optimized,
                is_user_code: payload.is_user_code,
                version: payload.version,
                symbol_status: payload.symbol_status,
                symbol_file_path: payload.symbol_file_path,
                date_time_stamp: payload.date_time_stamp,
                address_range: payload.address_range,
            },
        )
    }
}

/// Sending a module over the wire and reading it back gives it back.
pub proof fn lemma_module_round_trip(m: dap::Module)
    ensures
        module_from_proto(module_to_proto(m)) == Ok::<dap::Module, ProtoConversionError>(m),
{
}

/// An optional `u64` narrowed to 32 bits, as the wire carries it: a value of
/// 2^32 or more keeps only its low 32 bits.
pub open spec fn narrow_opt(v: Option<u64>) -> Option<u32> {
    match v {
        Some(x) => Some(x as u32),
        None => None,
    }
}

/// An optional wire `u32` widened back to 64 bits.
pub open spec fn widen_opt(v: Option<u32>) -> Option<u64> {
    match v {
        Some(x) => Some(x as u64),
        None => None,
    }
}

/// Whether an optional `u64` fits in 32 bits.
pub open spec fn fits_u32(v: Option<u64>) -> bool {
    match v {
        Some(x) => x <= u32::MAX,
        None => true,
    }
}

fn narrow_opt_exec(v: Option<u64>) -> (r: Option<u32>)
    ensures
        r == narrow_opt(v),
{
    match v {
        Some(x) => Some(x as u32),
        None => None,
    }
}

fn widen_opt_exec(v: Option<u32>) -> (r: Option<u64>)
    ensures
        r == widen_opt(v),
{
    match v {
        Some(x) => Some(x as u64),
        None => None,
    }
}

/// Widening a narrowed value gives it back when it fits in 32 bits.
pub proof fn lemma_narrow_widen(v: Option<u64>)
    requires
        fits_u32(v),
    ensures
        widen_opt(narrow_opt(v)) == v,
{
}

/// The wire form of an output event: its data and location reference are
/// not carried, and its line and column travel as 32-bit numbers.
pub open spec fn output_event_to_proto(e: dap::OutputEventView) -> proto::DapOutputEventView {
    proto::DapOutputEventView {
        category: match e.category {
            Some(c) => Some(output_category_to_proto(c).spec_to_i32()),
            None => None,
        },
        output: e.output,
        variables_reference: e.variables_reference,
        source: opt_source_to_proto(e.source),
        line: narrow_opt(e.line),
        column: narrow_opt(e.column),
        group: match e.group {
            Some(g) => Some(output_group_to_proto(g).spec_to_i32()),
            None => None,
        },
    }
}

/// The output event a wire output event stands for; unknown category or
/// group numbers read as none.
pub open spec fn output_event_from_proto(p: proto::DapOutputEventView) -> dap::OutputEventView {
    dap::OutputEventView {
        category: match p.category {
            Some(n) => match proto::DapOutputCategory::spec_from_i32(n) {
                Some(c) => Some(output_category_from_proto(c)),
                None => None,
            },
            None => None,
        },
        output: p.output,
        group: match p.group {
            Some(n) => match proto::DapOutputEventGroup::spec_from_i32(n) {
                Some(g) => Some(output_group_from_proto(g)),
                None => None,
            },
            None => None,
        },
        variables_reference: p.variables_reference,
        source: opt_source_from_proto(p.source),
        line: widen_opt(p.line),
        column: widen_opt(p.column),
        data: None,
        location_reference: None,
    }
}

impl ProtoConversion for dap::OutputEvent {
    type ProtoType = proto::DapOutputEvent;
    type Output = Self;

    open spec fn accepts_proto(payload: proto::DapOutputEvent) -> bool {
        opt_source_accepted(payload@.source)
    }

    fn to_proto(&self) -> (r: proto::DapOutputEvent)
        ensures
            r@ == output_event_to_proto(self@),
    {
        proto::DapOutputEvent {
            category: match self.category {
                Some(c) => Some(c.to_proto().to_i32()),
                None => None,
            },
            output: self.output.clone(),
            variables_reference: self.variables_reference,
            source: opt_source_to_proto_exec(&self.source),
            line: narrow_opt_exec(self.line),
            column: narrow_opt_exec(self.column),
            group: match self.group {
                Some(g) => Some(g.to_proto().to_i32()),
                None => None,
            },
        }
    }

    fn from_proto(payload: proto::DapOutputEvent) -> (r: Self)
        ensures
            r@ == output_event_from_proto(payload@),
    {
        let category = match payload.category {
            Some(n) => match proto::DapOutputCategory::from_i32(n) {
                Some(c) => Some(dap::OutputEventCategory::from_proto(c)),
                None => None,
            },
            None => None,
        };
        let group = match payload.group {
            Some(n) => match proto::DapOutputEventGroup::from_i32(n) {
                Some(g) => Some(dap::OutputEventGroup::from_proto(g)),
                None => None,
            },
            None => None,
        };
        dap::OutputEvent {
            category,
            output: payload.output,
            group,
            variables_reference: payload.variables_reference,
            source: opt_source_from_proto_exec(payload.source),
            line: widen_opt_exec(payload.line),
            column: widen_opt_exec(payload.column),
            data: None,
            location_reference: None,
        }
    }
}

/// Sending an output event over the wire and reading it back gives it back,
/// when it has no data or location reference, its line and column fit in 32
/// bits and its source keeps everything over the wire.
pub proof fn lemma_output_event_round_trip(e: dap::OutputEventView)
    requires
        e.data is None,
        e.location_reference is None,
        fits_u32(e.line),
        fits_u32(e.column),
        opt_source_wire_faithful(e.source),
    ensures
        opt_source_accepted(output_event_to_proto(e).source),
        output_event_from_proto(output_event_to_proto(e)) == e,
{
    lemma_opt_source_round_trip(e.source);
    match e.category {
        Some(c) => {
            lemma_output_category_round_trip(c, output_category_to_proto(c));
            output_category_to_proto(c).lemma_i32_round_trip();
        },
        None => {},
    }
    match e.group {
        Some(g) => {
            lemma_output_group_round_trip(g, output_group_to_proto(g));
            output_group_to_proto(g).lemma_i32_round_trip();
        },
        None => {},
    }
}

/// The completion kind a wire item names, read as a wire enumeration with a
/// default is read: a missing or unknown number reads as the first kind.
pub open spec fn completion_type_field(typ: Option<i32>) -> proto::DapCompletionItemType {
    let n = match typ {
        Some(n) => n,
        None => 0i32,
    };
    match proto::DapCompletionItemType::spec_from_i32(n) {
        Some(t) => t,
        None => proto::DapCompletionItemType::Method,
    }
}

/// The wire form of a completion item.
pub open spec fn completion_item_to_proto(c: dap::CompletionItem) -> proto::DapCompletionItem {
    proto::DapCompletionItem {
        label: c.label,
        text: c.text,
        detail: c.detail,
        typ: match c.type_ {
            Some(t) => Some(completion_type_to_proto(t).spec_to_i32()),
            None => None,
        },
        start: c.start,
        length: c.length,
        selection_start: c.selection_start,
        selection_length: c.selection_length,
        sort_text: c.sort_text,
    }
}

/// The completion item a wire item stands for; it always has a kind.
pub open spec fn completion_item_from_proto(p: proto::DapCompletionItem) -> dap::CompletionItem {
    dap::CompletionItem {
        label: p.label,
        text: p.text,
        sort_text: p.sort_text,
        detail: p.detail,
        type_: Some(completion_type_from_proto(completion_type_field(p.typ))),
        start: p.start,
        length: p.length,
        selection_start: p.selection_start,
        selection_length: p.selection_length,
    }
}

impl ProtoConversion for dap::CompletionItem {
    type ProtoType = proto::DapCompletionItem;
    type Output = Self;

    open spec fn accepts_proto(payload: proto::DapCompletionItem) -> bool {
        true
    }

    fn to_proto(&self) -> (r: proto::DapCompletionItem)
        ensures
            r == completion_item_to_proto(*self),
    {
        proto::DapCompletionItem {
            label: self.label.clone(),
            text: dap::clone_opt_string(&self.text),
            detail: dap::clone_opt_string(&self.detail),
            typ: match self.type_ {
                Some(t) => Some(t.to_proto().to_i32()),
                None => None,
            },
            start: self.start,
            length: self.length,
            selection_start: self.selection_start,
            selection_length: self.selection_length,
            sort_text: dap::clone_opt_string(&self.sort_text),
        }
    }

    fn from_proto(payload: proto::DapCompletionItem) -> (r: Self)
        ensures
            r == completion_item_from_proto(payload),
    {
        let n = match payload.typ {
            Some(n) => n,
            None => 0i32,
        };
        let typ = match proto::DapCompletionItemType::from_i32(n) {
            Some(t) => t,
            None => proto::DapCompletionItemType::Method,
        };
        dap::CompletionItem {
            label: payload.label,
            text: payload.text,
            sort_text: payload.sort_text,
            detail: payload.detail,
            type_: Some(dap::CompletionItemType::from_proto(typ)),
            start: payload.start,
            length: payload.length,
            selection_start: payload.selection_start,
            selection_length: payload.selection_length,
        }
    }
}

/// Sending a completion item that has a kind over the wire and reading it
/// back gives it back.
pub proof fn lemma_completion_item_round_trip(c: dap::CompletionItem)
    requires
        c.type_ is Some,
    ensures
        completion_item_from_proto(completion_item_to_proto(c)) == c,
{
    let t = c.type_->0;
    lemma_completion_type_round_trip(t, completion_type_to_proto(t));
    completion_type_to_proto(t).lemma_i32_round_trip();
}

impl ProtoConversion for dap::Thread {
    type ProtoType = proto::DapThread;
    type Output = Self;

    open spec fn accepts_proto(payload: proto::DapThread) -> bool {
        true
    }

    fn to_proto(&self) -> (r: proto::DapThread)
        ensures
            r.id == self.id,
            r.name == self.name,
    {
        proto::DapThread { id: self.id, name: self.name.clone() }
    }

    fn from_proto(payload: proto::DapThread) -> (r: Self)
        ensures
            r.id == payload.id,
            r.name == payload.name,
    {
        dap::Thread { id: payload.id, name: payload.name }
    }
}

/// A copy of a vector of strings.
pub fn clone_strings(v: &Vec<String>) -> (r: Vec<String>)
    ensures
        r@ == v@,
{
    let mut out: Vec<String> = Vec::new();
    let mut i: usize = 0;
    while i < v.len()
        invariant
            i <= v.len(),
            out@ =~= v@.subrange(0, i as int),
        decreases v.len() - i,
    {
        out.push(v[i].clone());
        i += 1;
    }
    assert(out@ =~= v@);
    out
}

impl ProtoConversion for dap::ExceptionPathSegment {
    type ProtoType = proto::ExceptionPathSegment;
    type Output = Self;

    open spec fn accepts_proto(payload: proto::ExceptionPathSegment) -> bool {
        true
    }

    fn to_proto(&self) -> (r: proto::ExceptionPathSegment)
        ensures
            r@.negate == self@.negate,
            r@.names == self@.names,
    {
        proto::ExceptionPathSegment { negate: self.negate, names: clone_strings(&self.names) }
    }

    fn from_proto(payload: proto::ExceptionPathSegment) -> (r: Self)
        ensures
            r@.negate == payload@.negate,
            r@.names == payload@.names,
    {
        dap::ExceptionPathSegment { negate: payload.negate, names: payload.names }
    }
}

/// The wire form of exception options: a missing path is sent as an empty one.
pub open spec fn exception_options_to_proto(o: dap::ExceptionOptionsView) -> proto::ExceptionOptionsView {
    proto::ExceptionOptionsView {
        path: match o.path {
            Some(p) => p.map_values(
                |s: dap::ExceptionPathSegmentView| proto::ExceptionPathSegmentView { negate: s.negate, names: s.names },
            ),
            None => Seq::empty(),
        },
        break_mode: break_mode_to_proto(o.break_mode).spec_to_i32(),
    }
}

/// The break mode a wire number stands for; an unknown number reads as never.
pub open spec fn break_mode_field(n: i32) -> dap::ExceptionBreakMode {
    if n == 0 {
        dap::ExceptionBreakMode::Never
    } else if n == 1 {
        dap::ExceptionBreakMode::Always
    } else if n == 2 {
        dap::ExceptionBreakMode::Unhandled
    } else if n == 3 {
        dap::ExceptionBreakMode::UserUnhandled
    } else {
        dap::ExceptionBreakMode::Never
    }
}

/// The exception options wire options stand for: an empty path reads as none.
pub open spec fn exception_options_from_proto(p: proto::ExceptionOptionsView) -> dap::ExceptionOptionsView {
    dap::ExceptionOptionsView {
        path: if p.path.len() == 0 {
            None
        } else {
            Some(
                p.path.map_values(
                    |s: proto::ExceptionPathSegmentView| dap::ExceptionPathSegmentView { negate: s.negate, names: s.names },
                ),
            )
        },
        break_mode: break_mode_field(p.break_mode),
    }
}

impl ProtoConversion for dap::ExceptionOptions {
    type ProtoType = proto::ExceptionOptions;
    type Output = Self;

    open spec fn accepts_proto(payload: proto::ExceptionOptions) -> bool {
        true
    }

    fn to_proto(&self) -> (r: proto::ExceptionOptions)
        ensures
            r@ == exception_options_to_proto(self@),
    {
        let mut path: Vec<proto::ExceptionPathSegment> = Vec::new();
        match &self.path {
            Some(p) => {
                let mut i: usize = 0;
                while i < p.len()
                    invariant
                        i <= p.len(),
                        path@.len() == i,
                        forall|j: int| 0 <= j < i ==> (#[trigger] path@[j])@ == (proto::ExceptionPathSegmentView {
                            negate: p@[j]@.negate,
                            names: p@[j]@.names,
                        }),
                    decreases p.len() - i,
                {
                    path.push(p[i].to_proto());
                    i += 1;
                }
            },
            None => {},
        }
        let r = proto::ExceptionOptions { path, break_mode: self.break_mode.to_proto().to_i32() };
        assert(r@.path =~= exception_options_to_proto(self@).path);
        r
    }

    fn from_proto(payload: proto::ExceptionOptions) -> (r: Self)
        ensures
            r@ == exception_options_from_proto(payload@),
    {
        let ghost pv = payload@;
        let wire = payload.path;
        let path = if wire.len() == 0 {
            None
        } else {
            let mut out: Vec<dap::ExceptionPathSegment> = Vec::new();
            let mut i: usize = 0;
            while i < wire.len()
                invariant
                    i <= wire.len(),
                    pv.path == wire@.map_values(|s: proto::ExceptionPathSegment| s@),
                    out@.len() == i,
                    forall|j: int| 0 <= j < i ==> (#[trigger] out@[j])@ == (dap::ExceptionPathSegmentView {
                        negate: wire@[j]@.negate,
                        names: wire@[j]@.names,
                    }),
                decreases wire.len() - i,
            {
                let seg = &wire[i];
                out.push(dap::ExceptionPathSegment { negate: seg.negate, names: clone_strings(&seg.names) });
                i += 1;
            }
            assert(out@.map_values(|s: dap::ExceptionPathSegment| s@) =~= pv.path.map_values(
                |s: proto::ExceptionPathSegmentView| dap::ExceptionPathSegmentView { negate: s.negate, names: s.names },
            ));
            Some(out)
        };
        let n = payload.break_mode;
        let break_mode = if n == 0 {
            dap::ExceptionBreakMode::Never
        } else if n == 1 {
            dap::ExceptionBreakMode::Always
        } else if n == 2 {
            dap::ExceptionBreakMode::Unhandled
        } else if n == 3 {
            dap::ExceptionBreakMode::UserUnhandled
        } else {
            dap::ExceptionBreakMode::Never
        };
        dap::ExceptionOptions { path, break_mode }
    }
}

/// Sending exception options over the wire and reading them back gives them
/// back, when their path is missing or not empty.
pub proof fn lemma_exception_options_round_trip(o: dap::ExceptionOptionsView)
    requires
        match o.path {
            Some(p) => p.len() > 0,
            None => true,
        },
    ensures
        exception_options_from_proto(exception_options_to_proto(o)) == o,
{
    match o.path {
        Some(p) => {
            let back = exception_options_from_proto(exception_options_to_proto(o)).path->0;
            assert(back =~= p);
        },
        None => {},
    }
}

impl ProtoConversion for dap::ExceptionFilterOptions {
    type ProtoType = proto::ExceptionFilterOptions;
    type Output = Self;

    open spec fn accepts_proto(payload: proto::ExceptionFilterOptions) -> bool {
        true
    }

    fn to_proto(&self) -> (r: proto::ExceptionFilterOptions)
        ensures
            r.filter_id == self.filter_id,
            r.condition == self.condition,
            r.mode == self.mode,
    {
        proto::ExceptionFilterOptions {
            filter_id: self.filter_id.clone(),
            condition: dap::clone_opt_string(&self.condition),
            mode: dap::clone_opt_string(&self.mode),
        }
    }

    fn from_proto(payload: proto::ExceptionFilterOptions) -> (r: Self)
        ensures
            r.filter_id == payload.filter_id,
            r.condition == payload.condition,
            r.mode == payload.mode,
    {
        dap::ExceptionFilterOptions { filter_id: payload.filter_id, condition: payload.condition, mode: payload.mode }
    }
}

/// The wire form of a breakpoint: its id travels as the signed number with
/// the same bits, and its positions and offset as 32-bit numbers.
pub open spec fn breakpoint_to_proto(b: dap::BreakpointView) -> proto::DapBreakpointView {
    proto::DapBreakpointView {
        id: match b.id {
            Some(id) => Some(id as i64),
            None => None,
        },
        verified: b.verified,
        message: b.message,
        source: opt_source_to_proto(b.source),
        line: narrow_opt(b.line),
        column: narrow_opt(b.column),
        end_line: narrow_opt(b.end_line),
        end_column: narrow_opt(b.end_column),
        instruction_reference: b.instruction_reference,
        offset: narrow_opt(b.offset),
        reason: match b.reason {
            Some(r) => Some(breakpoint_reason_to_proto(r).spec_to_i32()),
            None => None,
        },
    }
}

/// The breakpoint a wire breakpoint stands for; an unknown reason reads as none.
pub open spec fn breakpoint_from_proto(p: proto::DapBreakpointView) -> dap::BreakpointView {
    dap::BreakpointView {
        id: match p.id {
            Some(id) => Some(id as u64),
            None => None,
        },
        verified: p.verified,
        message: p.message,
        source: opt_source_from_proto(p.source),
        line: widen_opt(p.line),
        column: widen_opt(p.column),
        end_line: widen_opt(p.end_line),
        end_column: widen_opt(p.end_column),
        instruction_reference: p.instruction_reference,
        offset: widen_opt(p.offset),
        reason: match p.reason {
            Some(n) => if n == 0 {
                Some(dap::BreakpointReason::Pending)
            } else if n == 1 {
                Some(dap::BreakpointReason::Failed)
            } else {
                None
            },
            None => None,
        },
    }
}

impl ProtoConversion for dap::Breakpoint {
    type ProtoType = proto::DapBreakpoint;
    type Output = Self;

    open spec fn accepts_proto(payload: proto::DapBreakpoint) -> bool {
        opt_source_accepted(payload@.source)
    }

    fn to_proto(&self) -> (r: proto::DapBreakpoint)
        ensures
            r@ == breakpoint_to_proto(self@),
    {
        proto::DapBreakpoint {
            id: match self.id {
                Some(id) => Some(id as i64),
                None => None,
            },
            verified: self.verified,
            message: dap::clone_opt_string(&self.message),
            source: opt_source_to_proto_exec(&self.source),
            line: narrow_opt_exec(self.line),
            column: narrow_opt_exec(self.column),
            end_line: narrow_opt_exec(self.end_line),
            end_column: narrow_opt_exec(self.end_column),
            instruction_reference: dap::clone_opt_string(&self.instruction_reference),
            offset: narrow_opt_exec(self.offset),
            reason: match self.reason {
                Some(r) => Some(r.to_proto().to_i32()),
                None => None,
            },
        }
    }

    fn from_proto(payload: proto::DapBreakpoint) -> (r: Self)
        ensures
            r@ == breakpoint_from_proto(payload@),
    {
        let reason = match payload.reason {
            Some(n) => if n == 0 {
                Some(dap::BreakpointReason::Pending)
            } else if n == 1 {
                Some(dap::BreakpointReason::Failed)
            } else {
                None
            },
            None => None,
        };
        dap::Breakpoint {
            id: match payload.id {
                Some(id) => Some(id as u64),
                None => None,
            },
            verified: payload.verified,
            message: payload.message,
            source: opt_source_from_proto_exec(payload.source),
            line: widen_opt_exec(payload.line),
            column: widen_opt_exec(payload.column),
            end_line: widen_opt_exec(payload.end_line),
            end_column: widen_opt_exec(payload.end_column),
            instruction_reference: payload.instruction_reference,
            offset: widen_opt_exec(payload.offset),
            reason,
        }
    }
}

/// Sending a breakpoint over the wire and reading it back gives it back, when
/// its positions and offset fit in 32 bits and its source keeps everything
/// over the wire.
pub proof fn lemma_breakpoint_round_trip(b: dap::BreakpointView)
    requires
        fits_u32(b.line),
        fits_u32(b.column),
        fits_u32(b.end_line),
        fits_u32(b.end_column),
        fits_u32(b.offset),
        opt_source_wire_faithful(b.source),
    ensures
        opt_source_accepted(breakpoint_to_proto(b).source),
        breakpoint_from_proto(breakpoint_to_proto(b)) == b,
{
    lemma_opt_source_round_trip(b.source);
    match b.id {
        Some(id) => {
            assert((id as i64) as u64 == id) by (bit_vector);
        },
        None => {},
    }
}

/// The wire form of a breakpoint mode.
pub open spec fn breakpoint_mode_to_proto(m: dap::BreakpointModeView) -> proto::BreakpointModeView {
    proto::BreakpointModeView {
        mode: m.mode,
        label: m.label,
        description: m.description,
        applies_to: m.applies_to.map_values(|a: dap::BreakpointModeApplicability| applicability_to_proto(a).spec_to_i32()),
    }
}

/// The applicabilities a sequence of wire numbers stands for: unknown numbers
/// are dropped.
pub open spec fn applicabilities_from_proto(v: Seq<i32>) -> Seq<dap::BreakpointModeApplicability>
    decreases v.len(),
{
    if v.len() == 0 {
        Seq::empty()
    } else {
        let rest = applicabilities_from_proto(v.subrange(0, v.len() - 1));
        match proto::BreakpointModeApplicability::spec_from_i32(v.last()) {
            Some(a) => rest.push(applicability_from_proto(a)),
            None => rest,
        }
    }
}

/// The breakpoint mode a wire mode stands for.
pub open spec fn breakpoint_mode_from_proto(p: proto::BreakpointModeView) -> dap::BreakpointModeView {
    dap::BreakpointModeView {
        mode: p.mode,
        label: p.label,
        description: p.description,
        applies_to: applicabilities_from_proto(p.applies_to),
    }
}

impl ProtoConversion for dap::BreakpointMode {
    type ProtoType = proto::BreakpointMode;
    type Output = Self;

    open spec fn accepts_proto(payload: proto::BreakpointMode) -> bool {
        true
    }

    fn to_proto(&self) -> (r: proto::BreakpointMode)
        ensures
            r@ == breakpoint_mode_to_proto(self@),
    {
        let mut applies_to: Vec<i32> = Vec::new();
        let mut i: usize = 0;
        while i < self.applies_to.len()
            invariant
                i <= self.applies_to.len(),
                applies_to@ =~= self.applies_to@.subrange(0, i as int).map_values(
                    |a: dap::BreakpointModeApplicability| applicability_to_proto(a).spec_to_i32(),
                ),
            decreases self.applies_to.len() - i,
        {
            applies_to.push(self.applies_to[i].to_proto().to_i32());
            i += 1;
        }
        assert(self.applies_to@.subrange(0, self.applies_to@.len() as int) =~= self.applies_to@);
        proto::BreakpointMode {
            mode: self.mode.clone(),
            label: self.label.clone(),
            description: dap::clone_opt_string(&self.description),
            applies_to,
        }
    }

    fn from_proto(payload: proto::BreakpointMode) -> (r: Self)
        ensures
            r@ == breakpoint_mode_from_proto(payload@),
    {
        let mut applies_to: Vec<dap::BreakpointModeApplicability> = Vec::new();
        let mut i: usize = 0;
        while i < payload.applies_to.len()
            invariant
                i <= payload.applies_to.len(),
                applies_to@ == applicabilities_from_proto(payload.applies_to@.subrange(0, i as int)),
            decreases payload.applies_to.len() - i,
        {
            let ghost before = payload.applies_to@.subrange(0, i as int);
            match proto::BreakpointModeApplicability::from_i32(payload.applies_to[i]) {
                Some(a) => applies_to.push(dap::BreakpointModeApplicability::from_proto(a)),
                None => {},
            }
            i += 1;
            proof {
                let after = payload.applies_to@.subrange(0, i as int);
                assert(after.subrange(0, after.len() - 1) =~= before);
            }
        }
        assert(payload.applies_to@.subrange(0, payload.applies_to@.len() as int) =~= payload.applies_to@);
        dap::BreakpointMode {
            mode: payload.mode,
            label: payload.label,
            description: payload.description,
            applies_to,
        }
    }
}

proof fn lemma_applicabilities_round_trip(v: Seq<dap::BreakpointModeApplicability>)
    ensures
        applicabilities_from_proto(
            v.map_values(|a: dap::BreakpointModeApplicability| applicability_to_proto(a).spec_to_i32()),
        ) == v,
    decreases v.len(),
{
    if v.len() > 0 {
        let w = v.subrange(0, v.len() - 1);
        lemma_applicabilities_round_trip(w);
        let m = v.map_values(|a: dap::BreakpointModeApplicability| applicability_to_proto(a).spec_to_i32());
        assert(m.subrange(0, m.len() - 1) =~= w.map_values(
            |a: dap::BreakpointModeApplicability| applicability_to_proto(a).spec_to_i32(),
        ));
        let a = v.last();
        lemma_applicability_round_trip(a, applicability_to_proto(a));
        applicability_to_proto(a).lemma_i32_round_trip();
        assert(applicabilities_from_proto(m) =~= v);
    }
}

/// Sending a breakpoint mode over the wire and reading it back gives it back.
pub proof fn lemma_breakpoint_mode_round_trip(m: dap::BreakpointModeView)
    ensures
        breakpoint_mode_from_proto(breakpoint_mode_to_proto(m)) == m,
{
    lemma_applicabilities_round_trip(m.applies_to);
}

/// The wire form of an exception filter.
pub open spec fn exception_filter_to_proto(f: dap::ExceptionBreakpointsFilter) -> proto::ExceptionBreakpointsFilter {
    proto::ExceptionBreakpointsFilter {
        filter: f.filter,
        label: f.label,
        description: f.description,
        default_value: f.default,
        supports_condition: f.supports_condition,
        condition_description: f.condition_description,
    }
}

/// The exception filter a wire filter stands for.
pub open spec fn exception_filter_from_proto(p: proto::ExceptionBreakpointsFilter) -> dap::ExceptionBreakpointsFilter {
    dap::ExceptionBreakpointsFilter {
        filter: p.filter,
        label: p.label,
        description: p.description,
        default: p.default_value,
        supports_condition: p.supports_condition,
        condition_description: p.condition_description,
    }
}

impl ProtoConversion for dap::ExceptionBreakpointsFilter {
    type ProtoType = proto::ExceptionBreakpointsFilter;
    type Output = Self;

    open spec fn accepts_proto(payload: proto::ExceptionBreakpointsFilter) -> bool {
        true
    }

    fn to_proto(&self) -> (r: proto::ExceptionBreakpointsFilter)
        ensures
            r == exception_filter_to_proto(*self),
    {
        proto::ExceptionBreakpointsFilter {
            filter: self.filter.clone(),
            label: self.label.clone(),
            description: dap::clone_opt_string(&self.description),
            default_value: self.default,
            supports_condition: self.supports_condition,
            condition_description: dap::clone_opt_string(&self.condition_description),
        }
    }

    fn from_proto(payload: proto::ExceptionBreakpointsFilter) -> (r: Self)
        ensures
            r == exception_filter_from_proto(payload),
    {
        dap::ExceptionBreakpointsFilter {
            filter: payload.filter,
            label: payload.label,
            description: payload.description,
            default: payload.default_value,
            supports_condition: payload.supports_condition,
            condition_description: payload.condition_description,
        }
    }
}

/// The name a checksum algorithm is sent under.
pub open spec fn checksum_algorithm_name(a: dap::ChecksumAlgorithm) -> Seq<char> {
    match a {
        dap::ChecksumAlgorithm::Md5 => "Md5"@,
        dap::ChecksumAlgorithm::Sha1 => "Sha1"@,
        dap::ChecksumAlgorithm::Sha256 => "Sha256"@,
        dap::ChecksumAlgorithm::Timestamp => "Timestamp"@,
    }
}

/// The checksum algorithm a name stands for, if any.
pub open spec fn checksum_algorithm_from_name(s: Seq<char>) -> Option<dap::ChecksumAlgorithm> {
    if s == "Md5"@ {
        Some(dap::ChecksumAlgorithm::Md5)
    } else if s == "Sha1"@ {
        Some(dap::ChecksumAlgorithm::Sha1)
    } else if s == "Sha256"@ {
        Some(dap::ChecksumAlgorithm::Sha256)
    } else if s == "Timestamp"@ {
        Some(dap::ChecksumAlgorithm::Timestamp)
    } else {
        None
    }
}

/// The checksum algorithms a list of names stands for: unknown names are dropped.
pub open spec fn checksum_algorithms_from_names(v: Seq<Seq<char>>) -> Seq<dap::ChecksumAlgorithm>
    decreases v.len(),
{
    if v.len() == 0 {
        Seq::empty()
    } else {
        let rest = checksum_algorithms_from_names(v.subrange(0, v.len() - 1));
        match checksum_algorithm_from_name(v.last()) {
            Some(a) => rest.push(a),
            None => rest,
        }
    }
}

/// A module column known only by its attribute name.
pub open spec fn column_named(name: Seq<char>) -> dap::ColumnDescriptorView {
    dap::ColumnDescriptorView { attribute_name: name, label: Seq::empty(), format: None, type_: None, width: None }
}

fn checksum_algorithm_name_exec(a: dap::ChecksumAlgorithm) -> (r: String)
    ensures
        r@ == checksum_algorithm_name(a),
{
    match a {
        dap::ChecksumAlgorithm::Md5 => "Md5".to_owned(),
        dap::ChecksumAlgorithm::Sha1 => "Sha1".to_owned(),
        dap::ChecksumAlgorithm::Sha256 => "Sha256".to_owned(),
        dap::ChecksumAlgorithm::Timestamp => "Timestamp".to_owned(),
    }
}

fn checksum_algorithm_from_name_exec(s: &String) -> (r: Option<dap::ChecksumAlgorithm>)
    ensures
        r == checksum_algorithm_from_name(s@),
{
    if *s == "Md5".to_owned() {
        Some(dap::ChecksumAlgorithm::Md5)
    } else if *s == "Sha1".to_owned() {
        Some(dap::ChecksumAlgorithm::Sha1)
    } else if *s == "Sha256".to_owned() {
        Some(dap::ChecksumAlgorithm::Sha256)
    } else if *s == "Timestamp".to_owned() {
        Some(dap::ChecksumAlgorithm::Timestamp)
    } else {
        None
    }
}

fn exception_breakpoint_filters_to_proto(v: &Option<Vec<dap::ExceptionBreakpointsFilter>>) -> (r: Vec<
    proto::ExceptionBreakpointsFilter,
>)
    ensures
        r@ == match *v {
            Some(v) => v@.map_values(|f: dap::ExceptionBreakpointsFilter| exception_filter_to_proto(f)),
            None => Seq::empty(),
        },
{
    let mut out: Vec<proto::ExceptionBreakpointsFilter> = Vec::new();
    match v {
        Some(v) => {
            let mut i: usize = 0;
            while i < v.len()
                invariant
                    i <= v.len(),
                    out@ =~= v@.subrange(0, i as int).map_values(
                        |f: dap::ExceptionBreakpointsFilter| exception_filter_to_proto(f),
                    ),
                decreases v.len() - i,
            {
                out.push(v[i].to_proto());
                i += 1;
            }
            assert(v@.subrange(0, v@.len() as int) =~= v@);
        },
        None => {
            assert(out@ =~= Seq::empty());
        },
    }
    out
}

fn exception_breakpoint_filters_from_proto(v: Vec<proto::ExceptionBreakpointsFilter>) -> (r: Option<
    Vec<dap::ExceptionBreakpointsFilter>,
>)
    ensures
        match r {
            Some(r) => v@.len() > 0 && r@ == v@.map_values(
                |f: proto::ExceptionBreakpointsFilter| exception_filter_from_proto(f),
            ),
            None => v@.len() == 0,
        },
{
    if v.len() == 0 {
        return None;
    }
    let mut out: Vec<dap::ExceptionBreakpointsFilter> = Vec::new();
    let mut i: usize = 0;
    while i < v.len()
        invariant
            i <= v.len(),
            out@ =~= v@.subrange(0, i as int).map_values(
                |f: proto::ExceptionBreakpointsFilter| exception_filter_from_proto(f),
            ),
        decreases v.len() - i,
    {
        let f = &v[i];
        out.push(
            dap::ExceptionBreakpointsFilter::from_proto(
                proto::ExceptionBreakpointsFilter {
                    filter: f.filter.clone(),
                    label: f.label.clone(),
                    description: dap::clone_opt_string(&f.description),
                    default_value: f.default_value,
                    supports_condition: f.supports_condition,
                    condition_description: dap::clone_opt_string(&f.condition_description),
                },
            ),
        );
        i += 1;
    }
    assert(v@.subrange(0, v@.len() as int) =~= v@);
    Some(out)
}

fn completion_trigger_characters_to_proto(v: &Option<Vec<String>>) -> (r: Vec<String>)
    ensures
        r@ == match *v {
            Some(v) => v@,
            None => Seq::empty(),
        },
{
    match v {
        Some(v) => clone_strings(v),
        None => Vec::new(),
    }
}

fn completion_trigger_characters_from_proto(v: Vec<String>) -> (r: Option<Vec<String>>)
    ensures
        match r {
            Some(r) => v@.len() > 0 && r@ == v@,
            None => v@.len() == 0,
        },
{
    if v.len() == 0 {
        None
    } else {
        Some(v)
    }
}

fn additional_module_columns_to_proto(v: &Option<Vec<dap::ColumnDescriptor>>) -> (r: Vec<String>)
    ensures
        r@.map_values(|s: String| s@) == match *v {
            Some(v) => v@.map_values(|c: dap::ColumnDescriptor| c@).map_values(
                |col: dap::ColumnDescriptorView| col.attribute_name,
            ),
            None => Seq::empty(),
        },
{
    let mut out: Vec<String> = Vec::new();
    match v {
        Some(v) => {
            let mut i: usize = 0;
            while i < v.len()
                invariant
                    i <= v.len(),
                    out@.len() == i,
                    forall|j: int| 0 <= j < i ==> (#[trigger] out@[j])@ == v@[j].attribute_name@,
                decreases v.len() - i,
            {
                out.push(v[i].attribute_name.clone());
                i += 1;
            }
            assert(out@.map_values(|s: String| s@) =~= v@.map_values(|c: dap::ColumnDescriptor| c@).map_values(
                |col: dap::ColumnDescriptorView| col.attribute_name,
            ));
        },
        None => {
            assert(out@.map_values(|s: String| s@) =~= Seq::empty());
        },
    }
    out
}

fn additional_module_columns_from_proto(v: Vec<String>) -> (r: Option<Vec<dap::ColumnDescriptor>>)
    ensures
        match r {
            Some(r) => v@.len() > 0 && r@.map_values(|c: dap::ColumnDescriptor| c@) == v@.map_values(
                |s: String| s@,
            ).map_values(|name: Seq<char>| column_named(name)),
            None => v@.len() == 0,
        },
{
    if v.len() == 0 {
        return None;
    }
    let mut out: Vec<dap::ColumnDescriptor> = Vec::new();
    let mut i: usize = 0;
    while i < v.len()
        invariant
            i <= v.len(),
            out@.len() == i,
            forall|j: int| 0 <= j < i ==> (#[trigger] out@[j])@ == column_named(v@[j]@),
        decreases v.len() - i,
    {
        out.push(
            dap::ColumnDescriptor {
                attribute_name: v[i].clone(),
                label: String::new(),
                format: None,
                type_: None,
                width: None,
            },
        );
        i += 1;
    }
    assert(out@.map_values(|c: dap::ColumnDescriptor| c@) =~= v@.map_values(|s: String| s@).map_values(
        |name: Seq<char>| column_named(name),
    ));
    Some(out)
}

fn supported_checksum_algorithms_to_proto(v: &Option<Vec<dap::ChecksumAlgorithm>>) -> (r: Vec<String>)
    ensures
        r@.map_values(|s: String| s@) == match *v {
            Some(v) => v@.map_values(|a: dap::ChecksumAlgorithm| checksum_algorithm_name(a)),
            None => Seq::empty(),
        },
{
    let mut out: Vec<String> = Vec::new();
    match v {
        Some(v) => {
            let mut i: usize = 0;
            while i < v.len()
                invariant
                    i <= v.len(),
                    out@.len() == i,
                    forall|j: int| 0 <= j < i ==> (#[trigger] out@[j])@ == checksum_algorithm_name(v@[j]),
                decreases v.len() - i,
            {
                out.push(checksum_algorithm_name_exec(v[i]));
                i += 1;
            }
            assert(out@.map_values(|s: String| s@) =~= v@.map_values(
                |a: dap::ChecksumAlgorithm| checksum_algorithm_name(a),
            ));
        },
        None => {
            assert(out@.map_values(|s: String| s@) =~= Seq::empty());
        },
    }
    out
}

fn supported_checksum_algorithms_from_proto(v: Vec<String>) -> (r: Option<Vec<dap::ChecksumAlgorithm>>)
    ensures
        match r {
            Some(r) => v@.len() > 0 && r@ == checksum_algorithms_from_names(v@.map_values(|s: String| s@)),
            None => v@.len() == 0,
        },
{
    if v.len() == 0 {
        return None;
    }
    let ghost names = v@.map_values(|s: String| s@);
    let mut out: Vec<dap::ChecksumAlgorithm> = Vec::new();
    let mut i: usize = 0;
    while i < v.len()
        invariant
            i <= v.len(),
            names == v@.map_values(|s: String| s@),
            out@ == checksum_algorithms_from_names(names.subrange(0, i as int)),
        decreases v.len() - i,
    {
        let ghost before = names.subrange(0, i as int);
        match checksum_algorithm_from_name_exec(&v[i]) {
            Some(a) => out.push(a),
            None => {},
        }
        i += 1;
        proof {
            let after = names.subrange(0, i as int);
            assert(after.subrange(0, after.len() - 1) =~= before);
        }
    }
    assert(names.subrange(0, names.len() as int) =~= names);
    Some(out)
}

fn breakpoint_modes_to_proto(v: &Option<Vec<dap::BreakpointMode>>) -> (r: Vec<proto::BreakpointMode>)
    ensures
        r@.map_values(|m: proto::BreakpointMode| m@) == match *v {
            Some(v) => v@.map_values(|m: dap::BreakpointMode| m@).map_values(
                |m: dap::BreakpointModeView| breakpoint_mode_to_proto(m),
            ),
            None => Seq::empty(),
        },
{
    let mut out: Vec<proto::BreakpointMode> = Vec::new();
    match v {
        Some(v) => {
            let mut i: usize = 0;
            while i < v.len()
                invariant
                    i <= v.len(),
                    out@.len() == i,
                    forall|j: int| 0 <= j < i ==> (#[trigger] out@[j])@ == breakpoint_mode_to_proto(v@[j]@),
                decreases v.len() - i,
            {
                out.push(v[i].to_proto());
                i += 1;
            }
            assert(out@.map_values(|m: proto::BreakpointMode| m@) =~= v@.map_values(
                |m: dap::BreakpointMode| m@,
            ).map_values(|m: dap::BreakpointModeView| breakpoint_mode_to_proto(m)));
        },
        None => {
            assert(out@.map_values(|m: proto::BreakpointMode| m@) =~= Seq::empty());
        },
    }
    out
}

fn breakpoint_modes_from_proto(v: Vec<proto::BreakpointMode>) -> (r: Option<Vec<dap::BreakpointMode>>)
    ensures
        match r {
            Some(r) => v@.len() > 0 && r@.map_values(|m: dap::BreakpointMode| m@) == v@.map_values(
                |m: proto::BreakpointMode| m@,
            ).map_values(|m: proto::BreakpointModeView| breakpoint_mode_from_proto(m)),
            None => v@.len() == 0,
        },
{
    if v.len() == 0 {
        return None;
    }
    let mut out: Vec<dap::BreakpointMode> = Vec::new();
    let mut i: usize = 0;
    while i < v.len()
        invariant
            i <= v.len(),
            out@.len() == i,
            forall|j: int| 0 <= j < i ==> (#[trigger] out@[j])@ == breakpoint_mode_from_proto(v@[j]@),
        decreases v.len() - i,
    {
        let m = &v[i];
        let copy = proto::BreakpointMode {
            mode: m.mode.clone(),
            label: m.label.clone(),
            description: dap::clone_opt_string(&m.description),
            applies_to: m.applies_to.clone(),
        };
        assert(copy@ == m@);
        out.push(dap::BreakpointMode::from_proto(copy));
        i += 1;
    }
    assert(out@.map_values(|m: dap::BreakpointMode| m@) =~= v@.map_values(|m: proto::BreakpointMode| m@).map_values(
        |m: proto::BreakpointModeView| breakpoint_mode_from_proto(m),
    ));
    Some(out)
}

/// The wire form of capabilities: missing lists are sent empty, module
/// columns by their attribute names and checksum algorithms by their names.
pub open spec fn capabilities_to_proto(c: dap::CapabilitiesView) -> proto::CapabilitiesView {
    proto::CapabilitiesView {
        supports_configuration_done_request: c.supports_configuration_done_request,
        supports_function_breakpoints: c.supports_function_breakpoints,
        supports_conditional_breakpoints: c.supports_conditional_breakpoints,
        supports_hit_conditional_breakpoints: c.supports_hit_conditional_breakpoints,
        supports_evaluate_for_hovers: c.supports_evaluate_for_hovers,
        exception_breakpoint_filters: match c.exception_breakpoint_filters {
            Some(v) => v.map_values(|f: dap::ExceptionBreakpointsFilter| exception_filter_to_proto(f)),
            None => Seq::empty(),
        },
        supports_step_back: c.supports_step_back,
        supports_set_variable: c.supports_set_variable,
        supports_restart_frame: c.supports_restart_frame,
        supports_goto_targets_request: c.supports_goto_targets_request,
        supports_step_in_targets_request: c.supports_step_in_targets_request,
        supports_completions_request: c.supports_completions_request,
        completion_trigger_characters: match c.completion_trigger_characters {
            Some(v) => v,
            None => Seq::empty(),
        },
        supports_modules_request: c.supports_modules_request,
        additional_module_columns: match c.additional_module_columns {
            Some(v) => v.map_values(|col: dap::ColumnDescriptorView| col.attribute_name),
            None => Seq::empty(),
        },
        supported_checksum_algorithms: match c.supported_checksum_algorithms {
            Some(v) => v.map_values(|a: dap::ChecksumAlgorithm| checksum_algorithm_name(a)),
            None => Seq::empty(),
        },
        supports_restart_request: c.supports_restart_request,
        supports_exception_options: c.supports_exception_options,
        supports_value_formatting_options: c.supports_value_formatting_options,
        supports_exception_info_request: c.supports_exception_info_request,
        support_terminate_debuggee: c.support_terminate_debuggee,
        support_suspend_debuggee: c.support_suspend_debuggee,
        supports_delayed_stack_trace_loading: c.supports_delayed_stack_trace_loading,
        supports_loaded_sources_request: c.supports_loaded_sources_request,
        supports_log_points: c.supports_log_points,
        supports_terminate_threads_request: c.supports_terminate_threads_request,
        supports_set_expression: c.supports_set_expression,
        supports_terminate_request: c.supports_terminate_request,
        supports_data_breakpoints: c.supports_data_breakpoints,
        supports_read_memory_request: c.supports_read_memory_request,
        supports_write_memory_request: c.supports_write_memory_request,
        supports_disassemble_request: c.supports_disassemble_request,
        supports_cancel_request: c.supports_cancel_request,
        supports_breakpoint_locations_request: c.supports_breakpoint_locations_request,
        supports_clipboard_context: c.supports_clipboard_context,
        supports_stepping_granularity: c.supports_stepping_granularity,
        supports_instruction_breakpoints: c.supports_instruction_breakpoints,
        supports_exception_filter_options: c.supports_exception_filter_options,
        supports_single_thread_execution_requests: c.supports_single_thread_execution_requests,
        supports_data_breakpoint_bytes: c.supports_data_breakpoint_bytes,
        breakpoint_modes: match c.breakpoint_modes {
            Some(v) => v.map_values(|m: dap::BreakpointModeView| breakpoint_mode_to_proto(m)),
            None => Seq::empty(),
        },
        supports_ansistyling: c.supports_ansistyling,
    }
}

/// The capabilities wire capabilities stand for: empty lists read as missing,
/// module columns get only their attribute names, and unknown checksum
/// algorithm names are dropped.
pub open spec fn capabilities_from_proto(p: proto::CapabilitiesView) -> dap::CapabilitiesView {
    dap::CapabilitiesView {
        supports_configuration_done_request: p.supports_configuration_done_request,
        supports_function_breakpoints: p.supports_function_breakpoints,
        supports_conditional_breakpoints: p.supports_conditional_breakpoints,
        supports_hit_conditional_breakpoints: p.supports_hit_conditional_breakpoints,
        supports_evaluate_for_hovers: p.supports_evaluate_for_hovers,
        exception_breakpoint_filters: if p.exception_breakpoint_filters.len() == 0 {
            None
        } else {
            Some(p.exception_breakpoint_filters.map_values(|f: proto::ExceptionBreakpointsFilter| exception_filter_from_proto(f)))
        },
        supports_step_back: p.supports_step_back,
        supports_set_variable: p.supports_set_variable,
        supports_restart_frame: p.supports_restart_frame,
        supports_goto_targets_request: p.supports_goto_targets_request,
        supports_step_in_targets_request: p.supports_step_in_targets_request,
        supports_completions_request: p.supports_completions_request,
        completion_trigger_characters: if p.completion_trigger_characters.len() == 0 {
            None
        } else {
            Some(p.completion_trigger_characters)
        },
        supports_modules_request: p.supports_modules_request,
        additional_module_columns: if p.additional_module_columns.len() == 0 {
            None
        } else {
            Some(p.additional_module_columns.map_values(|name: Seq<char>| column_named(name)))
        },
        supported_checksum_algorithms: if p.supported_checksum_algorithms.len() == 0 {
            None
        } else {
            Some(checksum_algorithms_from_names(p.supported_checksum_algorithms))
        },
        supports_restart_request: p.supports_restart_request,
        supports_exception_options: p.supports_exception_options,
        supports_value_formatting_options: p.supports_value_formatting_options,
        supports_exception_info_request: p.supports_exception_info_request,
        support_terminate_debuggee: p.support_terminate_debuggee,
        support_suspend_debuggee: p.support_suspend_debuggee,
        supports_delayed_stack_trace_loading: p.supports_delayed_stack_trace_loading,
        supports_loaded_sources_request: p.supports_loaded_sources_request,
        supports_log_points: p.supports_log_points,
        supports_terminate_threads_request: p.supports_terminate_threads_request,
        supports_set_expression: p.supports_set_expression,
        supports_terminate_request: p.supports_terminate_request,
        supports_data_breakpoints: p.supports_data_breakpoints,
        supports_read_memory_request: p.supports_read_memory_request,
        supports_write_memory_request: p.supports_write_memory_request,
        supports_disassemble_request: p.supports_disassemble_request,
        supports_cancel_request: p.supports_cancel_request,
        supports_breakpoint_locations_request: p.supports_breakpoint_locations_request,
        supports_clipboard_context: p.supports_clipboard_context,
        supports_stepping_granularity: p.supports_stepping_granularity,
        supports_instruction_breakpoints: p.supports_instruction_breakpoints,
        supports_exception_filter_options: p.supports_exception_filter_options,
        supports_single_thread_execution_requests: p.supports_single_thread_execution_requests,
        supports_data_breakpoint_bytes: p.supports_data_breakpoint_bytes,
        breakpoint_modes: if p.breakpoint_modes.len() == 0 {
            None
        } else {
            Some(p.breakpoint_modes.map_values(|m: proto::BreakpointModeView| breakpoint_mode_from_proto(m)))
        },
        supports_ansistyling: p.supports_ansistyling,
    }
}

impl ProtoConversion for dap::Capabilities {
    type ProtoType = proto::Capabilities;
    type Output = Self;

    open spec fn accepts_proto(payload: proto::Capabilities) -> bool {
        true
    }

    fn to_proto(&self) -> (r: proto::Capabilities)
        ensures
            r@ == capabilities_to_proto(self@),
    {
        let r = proto::Capabilities {
            supports_configuration_done_request: self.supports_configuration_done_request,
            supports_function_breakpoints: self.supports_function_breakpoints,
            supports_conditional_breakpoints: self.supports_conditional_breakpoints,
            supports_hit_conditional_breakpoints: self.supports_hit_conditional_breakpoints,
            supports_evaluate_for_hovers: self.supports_evaluate_for_hovers,
            exception_breakpoint_filters: exception_breakpoint_filters_to_proto(&self.exception_breakpoint_filters),
            supports_step_back: self.supports_step_back,
            supports_set_variable: self.supports_set_variable,
            supports_restart_frame: self.supports_restart_frame,
            supports_goto_targets_request: self.supports_goto_targets_request,
            supports_step_in_targets_request: self.supports_step_in_targets_request,
            supports_completions_request: self.supports_completions_request,
            completion_trigger_characters: completion_trigger_characters_to_proto(&self.completion_trigger_characters),
            supports_modules_request: self.supports_modules_request,
            additional_module_columns: additional_module_columns_to_proto(&self.additional_module_columns),
            supported_checksum_algorithms: supported_checksum_algorithms_to_proto(&self.supported_checksum_algorithms),
            supports_restart_request: self.supports_restart_request,
            supports_exception_options: self.supports_exception_options,
            supports_value_formatting_options: self.supports_value_formatting_options,
            supports_exception_info_request: self.supports_exception_info_request,
            support_terminate_debuggee: self.support_terminate_debuggee,
            support_suspend_debuggee: self.support_suspend_debuggee,
            supports_delayed_stack_trace_loading: self.supports_delayed_stack_trace_loading,
            supports_loaded_sources_request: self.supports_loaded_sources_request,
            supports_log_points: self.supports_log_points,
            supports_terminate_threads_request: self.supports_terminate_threads_request,
            supports_set_expression: self.supports_set_expression,
            supports_terminate_request: self.supports_terminate_request,
            supports_data_breakpoints: self.supports_data_breakpoints,
            supports_read_memory_request: self.supports_read_memory_request,
            supports_write_memory_request: self.supports_write_memory_request,
            supports_disassemble_request: self.supports_disassemble_request,
            supports_cancel_request: self.supports_cancel_request,
            supports_breakpoint_locations_request: self.supports_breakpoint_locations_request,
            supports_clipboard_context: self.supports_clipboard_context,
            supports_stepping_granularity: self.supports_stepping_granularity,
            supports_instruction_breakpoints: self.supports_instruction_breakpoints,
            supports_exception_filter_options: self.supports_exception_filter_options,
            supports_single_thread_execution_requests: self.supports_single_thread_execution_requests,
            supports_data_breakpoint_bytes: self.supports_data_breakpoint_bytes,
            breakpoint_modes: breakpoint_modes_to_proto(&self.breakpoint_modes),
            supports_ansistyling: self.supports_ansistyling,
        };
        assert(r@ == capabilities_to_proto(self@));
        r
    }

    fn from_proto(payload: proto::Capabilities) -> (r: Self)
        ensures
            r@ == capabilities_from_proto(payload@),
    {
        let ghost pv = payload@;
        let r = dap::Capabilities {
            supports_configuration_done_request: payload.supports_configuration_done_request,
            supports_function_breakpoints: payload.supports_function_breakpoints,
            supports_conditional_breakpoints: payload.supports_conditional_breakpoints,
            supports_hit_conditional_breakpoints: payload.supports_hit_conditional_breakpoints,
            supports_evaluate_for_hovers: payload.supports_evaluate_for_hovers,
            exception_breakpoint_filters: exception_breakpoint_filters_from_proto(payload.exception_breakpoint_filters),
            supports_step_back: payload.supports_step_back,
            supports_set_variable: payload.supports_set_variable,
            supports_restart_frame: payload.supports_restart_frame,
            supports_goto_targets_request: payload.supports_goto_targets_request,
            supports_step_in_targets_request: payload.supports_step_in_targets_request,
            supports_completions_request: payload.supports_completions_request,
            completion_trigger_characters: completion_trigger_characters_from_proto(payload.completion_trigger_characters),
            supports_modules_request: payload.supports_modules_request,
            additional_module_columns: additional_module_columns_from_proto(payload.additional_module_columns),
            supported_checksum_algorithms: supported_checksum_algorithms_from_proto(payload.supported_checksum_algorithms),
            supports_restart_request: payload.supports_restart_request,
            supports_exception_options: payload.supports_exception_options,
            supports_value_formatting_options: payload.supports_value_formatting_options,
            supports_exception_info_request: payload.supports_exception_info_request,
            support_terminate_debuggee: payload.support_terminate_debuggee,
            support_suspend_debuggee: payload.support_suspend_debuggee,
            supports_delayed_stack_trace_loading: payload.supports_delayed_stack_trace_loading,
            supports_loaded_sources_request: payload.supports_loaded_sources_request,
            supports_log_points: payload.supports_log_points,
            supports_terminate_threads_request: payload.supports_terminate_threads_request,
            supports_set_expression: payload.supports_set_expression,
            supports_terminate_request: payload.supports_terminate_request,
            supports_data_breakpoints: payload.supports_data_breakpoints,
            supports_read_memory_request: payload.supports_read_memory_request,
            supports_write_memory_request: payload.supports_write_memory_request,
            supports_disassemble_request: payload.supports_disassemble_request,
            supports_cancel_request: payload.supports_cancel_request,
            supports_breakpoint_locations_request: payload.supports_breakpoint_locations_request,
            supports_clipboard_context: payload.supports_clipboard_context,
            supports_stepping_granularity: payload.supports_stepping_granularity,
            supports_instruction_breakpoints: payload.supports_instruction_breakpoints,
            supports_exception_filter_options: payload.supports_exception_filter_options,
            supports_single_thread_execution_requests: payload.supports_single_thread_execution_requests,
            supports_data_breakpoint_bytes: payload.supports_data_breakpoint_bytes,
            breakpoint_modes: breakpoint_modes_from_proto(payload.breakpoint_modes),
            supports_ansistyling: payload.supports_ansistyling,
        };
        assert(r@ == capabilities_from_proto(pv));
        r
    }
}

/// Whether an optional list is missing or not empty.
pub open spec fn missing_or_nonempty<T>(v: Option<Seq<T>>) -> bool {
    match v {
        Some(v) => v.len() > 0,
        None => true,
    }
}

/// Whether capabilities keep everything when sent over the wire: no list is
/// present but empty, and module columns carry nothing but their attribute
/// names.
pub open spec fn capabilities_wire_faithful(c: dap::CapabilitiesView) -> bool {
    &&& missing_or_nonempty(c.exception_breakpoint_filters)
    &&& missing_or_nonempty(c.completion_trigger_characters)
    &&& missing_or_nonempty(c.additional_module_columns)
    &&& missing_or_nonempty(c.supported_checksum_algorithms)
    &&& missing_or_nonempty(c.breakpoint_modes)
    &&& match c.additional_module_columns {
        Some(cols) => forall|i: int| 0 <= i < cols.len() ==> #[trigger] cols[i] == column_named(cols[i].attribute_name),
        None => true,
    }
}

proof fn lemma_checksum_algorithm_names_round_trip(v: Seq<dap::ChecksumAlgorithm>)
    ensures
        checksum_algorithms_from_names(v.map_values(|a: dap::ChecksumAlgorithm| checksum_algorithm_name(a))) == v,
    decreases v.len(),
{
    reveal_strlit("Md5");
    reveal_strlit("Sha1");
    reveal_strlit("Sha256");
    reveal_strlit("Timestamp");
    if v.len() > 0 {
        let w = v.subrange(0, v.len() - 1);
        lemma_checksum_algorithm_names_round_trip(w);
        let m = v.map_values(|a: dap::ChecksumAlgorithm| checksum_algorithm_name(a));
        assert(m.subrange(0, m.len() - 1) =~= w.map_values(|a: dap::ChecksumAlgorithm| checksum_algorithm_name(a)));
        let a = v.last();
        assert(checksum_algorithm_from_name(checksum_algorithm_name(a)) == Some(a)) by {
            reveal_strlit("Md5");
            reveal_strlit("Sha1");
            reveal_strlit("Sha256");
            reveal_strlit("Timestamp");
            assert("Md5"@.len() == 3 && "Sha1"@.len() == 4 && "Sha256"@.len() == 6 && "Timestamp"@.len() == 9);
        }
        assert(checksum_algorithms_from_names(m) =~= v);
    }
}

/// Sending capabilities over the wire and reading them back gives them back,
/// when they keep everything over the wire.
pub proof fn lemma_capabilities_round_trip(c: dap::CapabilitiesView)
    requires
        capabilities_wire_faithful(c),
    ensures
        capabilities_from_proto(capabilities_to_proto(c)) == c,
{
    let back = capabilities_from_proto(capabilities_to_proto(c));
    match c.exception_breakpoint_filters {
        Some(v) => {
            assert(back.exception_breakpoint_filters->0 =~= v);
        },
        None => {},
    }
    match c.additional_module_columns {
        Some(v) => {
            assert(back.additional_module_columns->0 =~= v);
        },
        None => {},
    }
    match c.supported_checksum_algorithms {
        Some(v) => {
            lemma_checksum_algorithm_names_round_trip(v);
        },
        None => {},
    }
    match c.breakpoint_modes {
        Some(v) => {
            assert forall|i: int| 0 <= i < v.len() implies #[trigger] back.breakpoint_modes->0[i] == v[i] by {
                lemma_breakpoint_mode_round_trip(v[i]);
            }
            assert(back.breakpoint_modes->0 =~= v);
        },
        None => {},
    }
}

} // verus!
