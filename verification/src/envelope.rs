//! Envelopes: how a message travels between peers, with its id, the id of
//! the message it answers and the peer it first came from. Each kind of
//! message has a name and a priority, goes into an envelope as its own kind
//! of payload, and is taken out of an envelope of that kind only.
use vstd::prelude::*;
use crate::peer::PeerId;
use crate::proto::{
    Ack,
    DapContinueRequest,
    DapContinueResponse,
    DapDisconnectRequest,
    DapLoadedSourcesRequest,
    DapLoadedSourcesResponse,
    DapModulesRequest,
    DapModulesResponse,
    DapNextRequest,
    DapPauseRequest,
    DapRestartRequest,
    DapRestartStackFrameRequest,
    DapScopesRequest,
    DapScopesResponse,
    DapSetVariableValueRequest,
    DapSetVariableValueResponse,
    DapStackTraceRequest,
    DapStackTraceResponse,
    DapStepBackRequest,
    DapStepInRequest,
    DapStepOutRequest,
    DapTerminateRequest,
    DapTerminateThreadsRequest,
    DapVariables,
    VariablesRequest,
};

verus! {

/// How urgently a message is handled: background messages may wait behind
/// foreground ones.
#[derive(Clone, Copy, Debug, PartialEq, Eq, Structural)]
pub enum MessagePriority {
    Foreground,
    Background,
}

/// What an envelope carries: one message, of one of the kinds below.
#[derive(Debug)]
pub enum Payload {
    Ack(Ack),
    DapNextRequest(DapNextRequest),
    DapStepInRequest(DapStepInRequest),
    DapStepOutRequest(DapStepOutRequest),
    DapStepBackRequest(DapStepBackRequest),
    DapContinueRequest(DapContinueRequest),
    DapContinueResponse(DapContinueResponse),
    DapPauseRequest(DapPauseRequest),
    DapDisconnectRequest(DapDisconnectRequest),
    DapTerminateThreadsRequest(DapTerminateThreadsRequest),
    DapTerminateRequest(DapTerminateRequest),
    DapRestartRequest(DapRestartRequest),
    DapRestartStackFrameRequest(DapRestartStackFrameRequest),
    VariablesRequest(VariablesRequest),
    DapVariables(DapVariables),
    DapSetVariableValueRequest(DapSetVariableValueRequest),
    DapSetVariableValueResponse(DapSetVariableValueResponse),
    DapModulesRequest(DapModulesRequest),
    DapModulesResponse(DapModulesResponse),
    DapStackTraceRequest(DapStackTraceRequest),
    DapStackTraceResponse(DapStackTraceResponse),
    DapScopesRequest(DapScopesRequest),
    DapScopesResponse(DapScopesResponse),
    DapLoadedSourcesRequest(DapLoadedSourcesRequest),
    DapLoadedSourcesResponse(DapLoadedSourcesResponse),
}

/// A message on its way between peers.
#[derive(Debug)]
pub struct Envelope {
    pub id: u32,
    pub responding_to: Option<u32>,
    pub original_sender_id: Option<PeerId>,
    pub payload: Option<Payload>,
}

/// The message of kind `M` that an envelope carries, if it carries one.
pub open spec fn envelope_message<M: EnvelopedMessage>(envelope: Envelope) -> Option<M> {
    match envelope.payload {
        Some(p) => M::of_payload(p),
        None => None,
    }
}

/// A kind of message that travels in envelopes.
pub trait EnvelopedMessage: Sized {
    /// The payload that carries this message.
    spec fn as_payload(self) -> Payload;

    /// The message of this kind that a payload carries, if any.
    spec fn of_payload(payload: Payload) -> Option<Self>;

    /// The name of this kind of message.
    spec fn message_name() -> Seq<char>;

    /// The priority of this kind of message.
    spec fn message_priority() -> MessagePriority;

    /// A payload made of a message carries that message.
    proof fn lemma_payload_round_trip(msg: Self)
        ensures
            Self::of_payload(msg.as_payload()) == Some(msg),
    ;

    fn name() -> (r: &'static str)
        ensures
            r@ == Self::message_name(),
    ;

    fn priority() -> (r: MessagePriority)
        ensures
            r == Self::message_priority(),
    ;

    fn into_envelope(self, id: u32, responding_to: Option<u32>, original_sender_id: Option<PeerId>) -> (r:
        Envelope)
        ensures
            r == (Envelope { id, responding_to, original_sender_id, payload: Some(self.as_payload()) }),
    ;

    fn from_envelope(envelope: Envelope) -> (r: Option<Self>)
        ensures
            r == (match envelope.payload {
                Some(p) => Self::of_payload(p),
                None => None,
            }),
    ;
}

/// A message put into an envelope is taken out of it again, whatever the
/// envelope's id, the message it answers and the peer it came from.
pub proof fn lemma_envelope_round_trip<M: EnvelopedMessage>(
    msg: M,
    id: u32,
    responding_to: Option<u32>,
    original_sender_id: Option<PeerId>,
)
    ensures
        envelope_message::<M>(Envelope { id, responding_to, original_sender_id, payload: Some(msg.as_payload()) })
            == Some(msg),
{
    M::lemma_payload_round_trip(msg);
}

/// A message about a shared project: it names the project it is about.
pub trait EntityMessage: EnvelopedMessage {
    /// The id of the project the message is about.
    spec fn entity_id(&self) -> u64;

    fn remote_entity_id(&self) -> (r: u64)
        ensures
            r == self.entity_id(),
    ;
}

/// A request, answered by a message of kind `Response`.
pub trait RequestMessage: EnvelopedMessage {
    type Response: EnvelopedMessage;
}

/// A message that was received, with the peer that sent it, the peer it first
/// came from and its id.
#[derive(Debug)]
pub struct TypedEnvelope<T> {
    pub sender_id: PeerId,
    pub original_sender_id: Option<PeerId>,
    pub message_id: u32,
    pub payload: T,
}

/// What can be asked of a received message whatever its kind.
pub trait AnyTypedEnvelope {
    fn payload_type_name(&self) -> &'static str;

    fn is_background(&self) -> bool;

    fn original_sender_id(&self) -> Option<PeerId>;

    fn sender_id(&self) -> PeerId;

    fn message_id(&self) -> u32;
}

impl<T: EnvelopedMessage> AnyTypedEnvelope for TypedEnvelope<T> {
    fn payload_type_name(&self) -> (r: &'static str)
        ensures
            r@ == T::message_name(),
    {
        T::name()
    }

    fn is_background(&self) -> (r: bool)
        ensures
            r == (T::message_priority() == MessagePriority::Background),
    {
        match T::priority() {
            MessagePriority::Background => true,
            MessagePriority::Foreground => false,
        }
    }

    fn original_sender_id(&self) -> (r: Option<PeerId>)
        ensures
            r == self.original_sender_id,
    {
        self.original_sender_id
    }

    fn sender_id(&self) -> (r: PeerId)
        ensures
            r == self.sender_id,
    {
        self.sender_id
    }

    fn message_id(&self) -> (r: u32)
        ensures
            r == self.message_id,
    {
        self.message_id
    }
}

impl EnvelopedMessage for Ack {
    open spec fn as_payload(self) -> Payload {
        Payload::Ack(self)
    }

    open spec fn of_payload(payload: Payload) -> Option<Self> {
        match payload {
            Payload::Ack(msg) => Some(msg),
            _ => None,
        }
    }

    open spec fn message_name() -> Seq<char> {
        "Ack"@
    }

    open spec fn message_priority() -> MessagePriority {
        MessagePriority::Foreground
    }

    proof fn lemma_payload_round_trip(msg: Self) {
    }

    fn name() -> (r: &'static str) {
        "Ack"
    }

    fn priority() -> (r: MessagePriority) {
        MessagePriority::Foreground
    }

    fn into_envelope(self, id: u32, responding_to: Option<u32>, original_sender_id: Option<PeerId>) -> (r:
        Envelope) {
        Envelope { id, responding_to, original_sender_id, payload: Some(Payload::Ack(self)) }
    }

    fn from_envelope(envelope: Envelope) -> (r: Option<Self>) {
        match envelope.payload {
            Some(Payload::Ack(msg)) => Some(msg),
            _ => None,
        }
    }
}

impl EnvelopedMessage for DapNextRequest {
    open spec fn as_payload(self) -> Payload {
        Payload::DapNextRequest(self)
    }

    open spec fn of_payload(payload: Payload) -> Option<Self> {
        match payload {
            Payload::DapNextRequest(msg) => Some(msg),
            _ => None,
        }
    }

    open spec fn message_name() -> Seq<char> {
        "DapNextRequest"@
    }

    open spec fn message_priority() -> MessagePriority {
        MessagePriority::Background
    }

    proof fn lemma_payload_round_trip(msg: Self) {
    }

    fn name() -> (r: &'static str) {
        "DapNextRequest"
    }

    fn priority() -> (r: MessagePriority) {
        MessagePriority::Background
    }

    fn into_envelope(self, id: u32, responding_to: Option<u32>, original_sender_id: Option<PeerId>) -> (r:
        Envelope) {
        Envelope { id, responding_to, original_sender_id, payload: Some(Payload::DapNextRequest(self)) }
    }

    fn from_envelope(envelope: Envelope) -> (r: Option<Self>) {
        match envelope.payload {
            Some(Payload::DapNextRequest(msg)) => Some(msg),
            _ => None,
        }
    }
}

impl EnvelopedMessage for DapStepInRequest {
    open spec fn as_payload(self) -> Payload {
        Payload::DapStepInRequest(self)
    }

    open spec fn of_payload(payload: Payload) -> Option<Self> {
        match payload {
            Payload::DapStepInRequest(msg) => Some(msg),
            _ => None,
        }
    }

    open spec fn message_name() -> Seq<char> {
        "DapStepInRequest"@
    }

    open spec fn message_priority() -> MessagePriority {
        MessagePriority::Background
    }

    proof fn lemma_payload_round_trip(msg: Self) {
    }

    fn name() -> (r: &'static str) {
        "DapStepInRequest"
    }

    fn priority() -> (r: MessagePriority) {
        MessagePriority::Background
    }

    fn into_envelope(self, id: u32, responding_to: Option<u32>, original_sender_id: Option<PeerId>) -> (r:
        Envelope) {
        Envelope { id, responding_to, original_sender_id, payload: Some(Payload::DapStepInRequest(self)) }
    }

    fn from_envelope(envelope: Envelope) -> (r: Option<Self>) {
        match envelope.payload {
            Some(Payload::DapStepInRequest(msg)) => Some(msg),
            _ => None,
        }
    }
}

impl EnvelopedMessage for DapStepOutRequest {
    open spec fn as_payload(self) -> Payload {
        Payload::DapStepOutRequest(self)
    }

    open spec fn of_payload(payload: Payload) -> Option<Self> {
        match payload {
            Payload::DapStepOutRequest(msg) => Some(msg),
            _ => None,
        }
    }

    open spec fn message_name() -> Seq<char> {
        "DapStepOutRequest"@
    }

    open spec fn message_priority() -> MessagePriority {
        MessagePriority::Background
    }

    proof fn lemma_payload_round_trip(msg: Self) {
    }

    fn name() -> (r: &'static str) {
        "DapStepOutRequest"
    }

    fn priority() -> (r: MessagePriority) {
        MessagePriority::Background
    }

    fn into_envelope(self, id: u32, responding_to: Option<u32>, original_sender_id: Option<PeerId>) -> (r:
        Envelope) {
        Envelope { id, responding_to, original_sender_id, payload: Some(Payload::DapStepOutRequest(self)) }
    }

    fn from_envelope(envelope: Envelope) -> (r: Option<Self>) {
        match envelope.payload {
            Some(Payload::DapStepOutRequest(msg)) => Some(msg),
            _ => None,
        }
    }
}

impl EnvelopedMessage for DapStepBackRequest {
    open spec fn as_payload(self) -> Payload {
        Payload::DapStepBackRequest(self)
    }

    open spec fn of_payload(payload: Payload) -> Option<Self> {
        match payload {
            Payload::DapStepBackRequest(msg) => Some(msg),
            _ => None,
        }
    }

    open spec fn message_name() -> Seq<char> {
        "DapStepBackRequest"@
    }

    open spec fn message_priority() -> MessagePriority {
        MessagePriority::Background
    }

    proof fn lemma_payload_round_trip(msg: Self) {
    }

    fn name() -> (r: &'static str) {
        "DapStepBackRequest"
    }

    fn priority() -> (r: MessagePriority) {
        MessagePriority::Background
    }

    fn into_envelope(self, id: u32, responding_to: Option<u32>, original_sender_id: Option<PeerId>) -> (r:
        Envelope) {
        Envelope { id, responding_to, original_sender_id, payload: Some(Payload::DapStepBackRequest(self)) }
    }

    fn from_envelope(envelope: Envelope) -> (r: Option<Self>) {
        match envelope.payload {
            Some(Payload::DapStepBackRequest(msg)) => Some(msg),
            _ => None,
        }
    }
}

impl EnvelopedMessage for DapContinueRequest {
    open spec fn as_payload(self) -> Payload {
        Payload::DapContinueRequest(self)
    }

    open spec fn of_payload(payload: Payload) -> Option<Self> {
        match payload {
            Payload::DapContinueRequest(msg) => Some(msg),
            _ => None,
        }
    }

    open spec fn message_name() -> Seq<char> {
        "DapContinueRequest"@
    }

    open spec fn message_priority() -> MessagePriority {
        MessagePriority::Background
    }

    proof fn lemma_payload_round_trip(msg: Self) {
    }

    fn name() -> (r: &'static str) {
        "DapContinueRequest"
    }

    fn priority() -> (r: MessagePriority) {
        MessagePriority::Background
    }

    fn into_envelope(self, id: u32, responding_to: Option<u32>, original_sender_id: Option<PeerId>) -> (r:
        Envelope) {
        Envelope { id, responding_to, original_sender_id, payload: Some(Payload::DapContinueRequest(self)) }
    }

    fn from_envelope(envelope: Envelope) -> (r: Option<Self>) {
        match envelope.payload {
            Some(Payload::DapContinueRequest(msg)) => Some(msg),
            _ => None,
        }
    }
}

impl EnvelopedMessage for DapContinueResponse {
    open spec fn as_payload(self) -> Payload {
        Payload::DapContinueResponse(self)
    }

    open spec fn of_payload(payload: Payload) -> Option<Self> {
        match payload {
            Payload::DapContinueResponse(msg) => Some(msg),
            _ => None,
        }
    }

    open spec fn message_name() -> Seq<char> {
        "DapContinueResponse"@
    }

    open spec fn message_priority() -> MessagePriority {
        MessagePriority::Background
    }

    proof fn lemma_payload_round_trip(msg: Self) {
    }

    fn name() -> (r: &'static str) {
        "DapContinueResponse"
    }

    fn priority() -> (r: MessagePriority) {
        MessagePriority::Background
    }

    fn into_envelope(self, id: u32, responding_to: Option<u32>, original_sender_id: Option<PeerId>) -> (r:
        Envelope) {
        Envelope { id, responding_to, original_sender_id, payload: Some(Payload::DapContinueResponse(self)) }
    }

    fn from_envelope(envelope: Envelope) -> (r: Option<Self>) {
        match envelope.payload {
            Some(Payload::DapContinueResponse(msg)) => Some(msg),
            _ => None,
        }
    }
}

impl EnvelopedMessage for DapPauseRequest {
    open spec fn as_payload(self) -> Payload {
        Payload::DapPauseRequest(self)
    }

    open spec fn of_payload(payload: Payload) -> Option<Self> {
        match payload {
            Payload::DapPauseRequest(msg) => Some(msg),
            _ => None,
        }
    }

    open spec fn message_name() -> Seq<char> {
        "DapPauseRequest"@
    }

    open spec fn message_priority() -> MessagePriority {
        MessagePriority::Background
    }

    proof fn lemma_payload_round_trip(msg: Self) {
    }

    fn name() -> (r: &'static str) {
        "DapPauseRequest"
    }

    fn priority() -> (r: MessagePriority) {
        MessagePriority::Background
    }

    fn into_envelope(self, id: u32, responding_to: Option<u32>, original_sender_id: Option<PeerId>) -> (r:
        Envelope) {
        Envelope { id, responding_to, original_sender_id, payload: Some(Payload::DapPauseRequest(self)) }
    }

    fn from_envelope(envelope: Envelope) -> (r: Option<Self>) {
        match envelope.payload {
            Some(Payload::DapPauseRequest(msg)) => Some(msg),
            _ => None,
        }
    }
}

impl EnvelopedMessage for DapDisconnectRequest {
    open spec fn as_payload(self) -> Payload {
        Payload::DapDisconnectRequest(self)
    }

    open spec fn of_payload(payload: Payload) -> Option<Self> {
        match payload {
            Payload::DapDisconnectRequest(msg) => Some(msg),
            _ => None,
        }
    }

    open spec fn message_name() -> Seq<char> {
        "DapDisconnectRequest"@
    }

    open spec fn message_priority() -> MessagePriority {
        MessagePriority::Background
    }

    proof fn lemma_payload_round_trip(msg: Self) {
    }

    fn name() -> (r: &'static str) {
        "DapDisconnectRequest"
    }

    fn priority() -> (r: MessagePriority) {
        MessagePriority::Background
    }

    fn into_envelope(self, id: u32, responding_to: Option<u32>, original_sender_id: Option<PeerId>) -> (r:
        Envelope) {
        Envelope { id, responding_to, original_sender_id, payload: Some(Payload::DapDisconnectRequest(self)) }
    }

    fn from_envelope(envelope: Envelope) -> (r: Option<Self>) {
        match envelope.payload {
            Some(Payload::DapDisconnectRequest(msg)) => Some(msg),
            _ => None,
        }
    }
}

impl EnvelopedMessage for DapTerminateThreadsRequest {
    open spec fn as_payload(self) -> Payload {
        Payload::DapTerminateThreadsRequest(self)
    }

    open spec fn of_payload(payload: Payload) -> Option<Self> {
        match payload {
            Payload::DapTerminateThreadsRequest(msg) => Some(msg),
            _ => None,
        }
    }

    open spec fn message_name() -> Seq<char> {
        "DapTerminateThreadsRequest"@
    }

    open spec fn message_priority() -> MessagePriority {
        MessagePriority::Background
    }

    proof fn lemma_payload_round_trip(msg: Self) {
    }

    fn name() -> (r: &'static str) {
        "DapTerminateThreadsRequest"
    }

    fn priority() -> (r: MessagePriority) {
        MessagePriority::Background
    }

    fn into_envelope(self, id: u32, responding_to: Option<u32>, original_sender_id: Option<PeerId>) -> (r:
        Envelope) {
        Envelope { id, responding_to, original_sender_id, payload: Some(Payload::DapTerminateThreadsRequest(self)) }
    }

    fn from_envelope(envelope: Envelope) -> (r: Option<Self>) {
        match envelope.payload {
            Some(Payload::DapTerminateThreadsRequest(msg)) => Some(msg),
            _ => None,
        }
    }
}

impl EnvelopedMessage for DapTerminateRequest {
    open spec fn as_payload(self) -> Payload {
        Payload::DapTerminateRequest(self)
    }

    open spec fn of_payload(payload: Payload) -> Option<Self> {
        match payload {
            Payload::DapTerminateRequest(msg) => Some(msg),
            _ => None,
        }
    }

    open spec fn message_name() -> Seq<char> {
        "DapTerminateRequest"@
    }

    open spec fn message_priority() -> MessagePriority {
        MessagePriority::Background
    }

    proof fn lemma_payload_round_trip(msg: Self) {
    }

    fn name() -> (r: &'static str) {
        "DapTerminateRequest"
    }

    fn priority() -> (r: MessagePriority) {
        MessagePriority::Background
    }

    fn into_envelope(self, id: u32, responding_to: Option<u32>, original_sender_id: Option<PeerId>) -> (r:
        Envelope) {
        Envelope { id, responding_to, original_sender_id, payload: Some(Payload::DapTerminateRequest(self)) }
    }

    fn from_envelope(envelope: Envelope) -> (r: Option<Self>) {
        match envelope.payload {
            Some(Payload::DapTerminateRequest(msg)) => Some(msg),
            _ => None,
        }
    }
}

impl EnvelopedMessage for DapRestartRequest {
    open spec fn as_payload(self) -> Payload {
        Payload::DapRestartRequest(self)
    }

    open spec fn of_payload(payload: Payload) -> Option<Self> {
        match payload {
            Payload::DapRestartRequest(msg) => Some(msg),
            _ => None,
        }
    }

    open spec fn message_name() -> Seq<char> {
        "DapRestartRequest"@
    }

    open spec fn message_priority() -> MessagePriority {
        MessagePriority::Background
    }

    proof fn lemma_payload_round_trip(msg: Self) {
    }

    fn name() -> (r: &'static str) {
        "DapRestartRequest"
    }

    fn priority() -> (r: MessagePriority) {
        MessagePriority::Background
    }

    fn into_envelope(self, id: u32, responding_to: Option<u32>, original_sender_id: Option<PeerId>) -> (r:
        Envelope) {
        Envelope { id, responding_to, original_sender_id, payload: Some(Payload::DapRestartRequest(self)) }
    }

    fn from_envelope(envelope: Envelope) -> (r: Option<Self>) {
        match envelope.payload {
            Some(Payload::DapRestartRequest(msg)) => Some(msg),
            _ => None,
        }
    }
}

impl EnvelopedMessage for DapRestartStackFrameRequest {
    open spec fn as_payload(self) -> Payload {
        Payload::DapRestartStackFrameRequest(self)
    }

    open spec fn of_payload(payload: Payload) -> Option<Self> {
        match payload {
            Payload::DapRestartStackFrameRequest(msg) => Some(msg),
            _ => None,
        }
    }

    open spec fn message_name() -> Seq<char> {
        "DapRestartStackFrameRequest"@
    }

    open spec fn message_priority() -> MessagePriority {
        MessagePriority::Background
    }

    proof fn lemma_payload_round_trip(msg: Self) {
    }

    fn name() -> (r: &'static str) {
        "DapRestartStackFrameRequest"
    }

    fn priority() -> (r: MessagePriority) {
        MessagePriority::Background
    }

    fn into_envelope(self, id: u32, responding_to: Option<u32>, original_sender_id: Option<PeerId>) -> (r:
        Envelope) {
        Envelope { id, responding_to, original_sender_id, payload: Some(Payload::DapRestartStackFrameRequest(self)) }
    }

    fn from_envelope(envelope: Envelope) -> (r: Option<Self>) {
        match envelope.payload {
            Some(Payload::DapRestartStackFrameRequest(msg)) => Some(msg),
            _ => None,
        }
    }
}

impl EnvelopedMessage for VariablesRequest {
    open spec fn as_payload(self) -> Payload {
        Payload::VariablesRequest(self)
    }

    open spec fn of_payload(payload: Payload) -> Option<Self> {
        match payload {
            Payload::VariablesRequest(msg) => Some(msg),
            _ => None,
        }
    }

    open spec fn message_name() -> Seq<char> {
        "VariablesRequest"@
    }

    open spec fn message_priority() -> MessagePriority {
        MessagePriority::Background
    }

    proof fn lemma_payload_round_trip(msg: Self) {
    }

    fn name() -> (r: &'static str) {
        "VariablesRequest"
    }

    fn priority() -> (r: MessagePriority) {
        MessagePriority::Background
    }

    fn into_envelope(self, id: u32, responding_to: Option<u32>, original_sender_id: Option<PeerId>) -> (r:
        Envelope) {
        Envelope { id, responding_to, original_sender_id, payload: Some(Payload::VariablesRequest(self)) }
    }

    fn from_envelope(envelope: Envelope) -> (r: Option<Self>) {
        match envelope.payload {
            Some(Payload::VariablesRequest(msg)) => Some(msg),
            _ => None,
        }
    }
}

impl EnvelopedMessage for DapVariables {
    open spec fn as_payload(self) -> Payload {
        Payload::DapVariables(self)
    }

    open spec fn of_payload(payload: Payload) -> Option<Self> {
        match payload {
            Payload::DapVariables(msg) => Some(msg),
            _ => None,
        }
    }

    open spec fn message_name() -> Seq<char> {
        "DapVariables"@
    }

    open spec fn message_priority() -> MessagePriority {
        MessagePriority::Background
    }

    proof fn lemma_payload_round_trip(msg: Self) {
    }

    fn name() -> (r: &'static str) {
        "DapVariables"
    }

    fn priority() -> (r: MessagePriority) {
        MessagePriority::Background
    }

    fn into_envelope(self, id: u32, responding_to: Option<u32>, original_sender_id: Option<PeerId>) -> (r:
        Envelope) {
        Envelope { id, responding_to, original_sender_id, payload: Some(Payload::DapVariables(self)) }
    }

    fn from_envelope(envelope: Envelope) -> (r: Option<Self>) {
        match envelope.payload {
            Some(Payload::DapVariables(msg)) => Some(msg),
            _ => None,
        }
    }
}

impl EnvelopedMessage for DapSetVariableValueRequest {
    open spec fn as_payload(self) -> Payload {
        Payload::DapSetVariableValueRequest(self)
    }

    open spec fn of_payload(payload: Payload) -> Option<Self> {
        match payload {
            Payload::DapSetVariableValueRequest(msg) => Some(msg),
            _ => None,
        }
    }

    open spec fn message_name() -> Seq<char> {
        "DapSetVariableValueRequest"@
    }

    open spec fn message_priority() -> MessagePriority {
        MessagePriority::Background
    }

    proof fn lemma_payload_round_trip(msg: Self) {
    }

    fn name() -> (r: &'static str) {
        "DapSetVariableValueRequest"
    }

    fn priority() -> (r: MessagePriority) {
        MessagePriority::Background
    }

    fn into_envelope(self, id: u32, responding_to: Option<u32>, original_sender_id: Option<PeerId>) -> (r:
        Envelope) {
        Envelope { id, responding_to, original_sender_id, payload: Some(Payload::DapSetVariableValueRequest(self)) }
    }

    fn from_envelope(envelope: Envelope) -> (r: Option<Self>) {
        match envelope.payload {
            Some(Payload::DapSetVariableValueRequest(msg)) => Some(msg),
            _ => None,
        }
    }
}

impl EnvelopedMessage for DapSetVariableValueResponse {
    open spec fn as_payload(self) -> Payload {
        Payload::DapSetVariableValueResponse(self)
    }

    open spec fn of_payload(payload: Payload) -> Option<Self> {
        match payload {
            Payload::DapSetVariableValueResponse(msg) => Some(msg),
            _ => None,
        }
    }

    open spec fn message_name() -> Seq<char> {
        "DapSetVariableValueResponse"@
    }

    open spec fn message_priority() -> MessagePriority {
        MessagePriority::Background
    }

    proof fn lemma_payload_round_trip(msg: Self) {
    }

    fn name() -> (r: &'static str) {
        "DapSetVariableValueResponse"
    }

    fn priority() -> (r: MessagePriority) {
        MessagePriority::Background
    }

    fn into_envelope(self, id: u32, responding_to: Option<u32>, original_sender_id: Option<PeerId>) -> (r:
        Envelope) {
        Envelope { id, responding_to, original_sender_id, payload: Some(Payload::DapSetVariableValueResponse(self)) }
    }

    fn from_envelope(envelope: Envelope) -> (r: Option<Self>) {
        match envelope.payload {
            Some(Payload::DapSetVariableValueResponse(msg)) => Some(msg),
            _ => None,
        }
    }
}

impl EnvelopedMessage for DapModulesRequest {
    open spec fn as_payload(self) -> Payload {
        Payload::DapModulesRequest(self)
    }

    open spec fn of_payload(payload: Payload) -> Option<Self> {
        match payload {
            Payload::DapModulesRequest(msg) => Some(msg),
            _ => None,
        }
    }

    open spec fn message_name() -> Seq<char> {
        "DapModulesRequest"@
    }

    open spec fn message_priority() -> MessagePriority {
        MessagePriority::Background
    }

    proof fn lemma_payload_round_trip(msg: Self) {
    }

    fn name() -> (r: &'static str) {
        "DapModulesRequest"
    }

    fn priority() -> (r: MessagePriority) {
        MessagePriority::Background
    }

    fn into_envelope(self, id: u32, responding_to: Option<u32>, original_sender_id: Option<PeerId>) -> (r:
        Envelope) {
        Envelope { id, responding_to, original_sender_id, payload: Some(Payload::DapModulesRequest(self)) }
    }

    fn from_envelope(envelope: Envelope) -> (r: Option<Self>) {
        match envelope.payload {
            Some(Payload::DapModulesRequest(msg)) => Some(msg),
            _ => None,
        }
    }
}

impl EnvelopedMessage for DapModulesResponse {
    open spec fn as_payload(self) -> Payload {
        Payload::DapModulesResponse(self)
    }

    open spec fn of_payload(payload: Payload) -> Option<Self> {
        match payload {
            Payload::DapModulesResponse(msg) => Some(msg),
            _ => None,
        }
    }

    open spec fn message_name() -> Seq<char> {
        "DapModulesResponse"@
    }

    open spec fn message_priority() -> MessagePriority {
        MessagePriority::Background
    }

    proof fn lemma_payload_round_trip(msg: Self) {
    }

    fn name() -> (r: &'static str) {
        "DapModulesResponse"
    }

    fn priority() -> (r: MessagePriority) {
        MessagePriority::Background
    }

    fn into_envelope(self, id: u32, responding_to: Option<u32>, original_sender_id: Option<PeerId>) -> (r:
        Envelope) {
        Envelope { id, responding_to, original_sender_id, payload: Some(Payload::DapModulesResponse(self)) }
    }

    fn from_envelope(envelope: Envelope) -> (r: Option<Self>) {
        match envelope.payload {
            Some(Payload::DapModulesResponse(msg)) => Some(msg),
            _ => None,
        }
    }
}

impl EnvelopedMessage for DapStackTraceRequest {
    open spec fn as_payload(self) -> Payload {
        Payload::DapStackTraceRequest(self)
    }

    open spec fn of_payload(payload: Payload) -> Option<Self> {
        match payload {
            Payload::DapStackTraceRequest(msg) => Some(msg),
            _ => None,
        }
    }

    open spec fn message_name() -> Seq<char> {
        "DapStackTraceRequest"@
    }

    open spec fn message_priority() -> MessagePriority {
        MessagePriority::Background
    }

    proof fn lemma_payload_round_trip(msg: Self) {
    }

    fn name() -> (r: &'static str) {
        "DapStackTraceRequest"
    }

    fn priority() -> (r: MessagePriority) {
        MessagePriority::Background
    }

    fn into_envelope(self, id: u32, responding_to: Option<u32>, original_sender_id: Option<PeerId>) -> (r:
        Envelope) {
        Envelope { id, responding_to, original_sender_id, payload: Some(Payload::DapStackTraceRequest(self)) }
    }

    fn from_envelope(envelope: Envelope) -> (r: Option<Self>) {
        match envelope.payload {
            Some(Payload::DapStackTraceRequest(msg)) => Some(msg),
            _ => None,
        }
    }
}

impl EnvelopedMessage for DapStackTraceResponse {
    open spec fn as_payload(self) -> Payload {
        Payload::DapStackTraceResponse(self)
    }

    open spec fn of_payload(payload: Payload) -> Option<Self> {
        match payload {
            Payload::DapStackTraceResponse(msg) => Some(msg),
            _ => None,
        }
    }

    open spec fn message_name() -> Seq<char> {
        "DapStackTraceResponse"@
    }

    open spec fn message_priority() -> MessagePriority {
        MessagePriority::Background
    }

    proof fn lemma_payload_round_trip(msg: Self) {
    }

    fn name() -> (r: &'static str) {
        "DapStackTraceResponse"
    }

    fn priority() -> (r: MessagePriority) {
        MessagePriority::Background
    }

    fn into_envelope(self, id: u32, responding_to: Option<u32>, original_sender_id: Option<PeerId>) -> (r:
        Envelope) {
        Envelope { id, responding_to, original_sender_id, payload: Some(Payload::DapStackTraceResponse(self)) }
    }

    fn from_envelope(envelope: Envelope) -> (r: Option<Self>) {
        match envelope.payload {
            Some(Payload::DapStackTraceResponse(msg)) => Some(msg),
            _ => None,
        }
    }
}

impl EnvelopedMessage for DapScopesRequest {
    open spec fn as_payload(self) -> Payload {
        Payload::DapScopesRequest(self)
    }

    open spec fn of_payload(payload: Payload) -> Option<Self> {
        match payload {
            Payload::DapScopesRequest(msg) => Some(msg),
            _ => None,
        }
    }

    open spec fn message_name() -> Seq<char> {
        "DapScopesRequest"@
    }

    open spec fn message_priority() -> MessagePriority {
        MessagePriority::Background
    }

    proof fn lemma_payload_round_trip(msg: Self) {
    }

    fn name() -> (r: &'static str) {
        "DapScopesRequest"
    }

    fn priority() -> (r: MessagePriority) {
        MessagePriority::Background
    }

    fn into_envelope(self, id: u32, responding_to: Option<u32>, original_sender_id: Option<PeerId>) -> (r:
        Envelope) {
        Envelope { id, responding_to, original_sender_id, payload: Some(Payload::DapScopesRequest(self)) }
    }

    fn from_envelope(envelope: Envelope) -> (r: Option<Self>) {
        match envelope.payload {
            Some(Payload::DapScopesRequest(msg)) => Some(msg),
            _ => None,
        }
    }
}

impl EnvelopedMessage for DapScopesResponse {
    open spec fn as_payload(self) -> Payload {
        Payload::DapScopesResponse(self)
    }

    open spec fn of_payload(payload: Payload) -> Option<Self> {
        match payload {
            Payload::DapScopesResponse(msg) => Some(msg),
            _ => None,
        }
    }

    open spec fn message_name() -> Seq<char> {
        "DapScopesResponse"@
    }

    open spec fn message_priority() -> MessagePriority {
        MessagePriority::Background
    }

    proof fn lemma_payload_round_trip(msg: Self) {
    }

    fn name() -> (r: &'static str) {
        "DapScopesResponse"
    }

    fn priority() -> (r: MessagePriority) {
        MessagePriority::Background
    }

    fn into_envelope(self, id: u32, responding_to: Option<u32>, original_sender_id: Option<PeerId>) -> (r:
        Envelope) {
        Envelope { id, responding_to, original_sender_id, payload: Some(Payload::DapScopesResponse(self)) }
    }

    fn from_envelope(envelope: Envelope) -> (r: Option<Self>) {
        match envelope.payload {
            Some(Payload::DapScopesResponse(msg)) => Some(msg),
            _ => None,
        }
    }
}

impl EnvelopedMessage for DapLoadedSourcesRequest {
    open spec fn as_payload(self) -> Payload {
        Payload::DapLoadedSourcesRequest(self)
    }

    open spec fn of_payload(payload: Payload) -> Option<Self> {
        match payload {
            Payload::DapLoadedSourcesRequest(msg) => Some(msg),
            _ => None,
        }
    }

    open spec fn message_name() -> Seq<char> {
        "DapLoadedSourcesRequest"@
    }

    open spec fn message_priority() -> MessagePriority {
        MessagePriority::Background
    }

    proof fn lemma_payload_round_trip(msg: Self) {
    }

    fn name() -> (r: &'static str) {
        "DapLoadedSourcesRequest"
    }

    fn priority() -> (r: MessagePriority) {
        MessagePriority::Background
    }

    fn into_envelope(self, id: u32, responding_to: Option<u32>, original_sender_id: Option<PeerId>) -> (r:
        Envelope) {
        Envelope { id, responding_to, original_sender_id, payload: Some(Payload::DapLoadedSourcesRequest(self)) }
    }

    fn from_envelope(envelope: Envelope) -> (r: Option<Self>) {
        match envelope.payload {
            Some(Payload::DapLoadedSourcesRequest(msg)) => Some(msg),
            _ => None,
        }
    }
}

impl EnvelopedMessage for DapLoadedSourcesResponse {
    open spec fn as_payload(self) -> Payload {
        Payload::DapLoadedSourcesResponse(self)
    }

    open spec fn of_payload(payload: Payload) -> Option<Self> {
        match payload {
            Payload::DapLoadedSourcesResponse(msg) => Some(msg),
            _ => None,
        }
    }

    open spec fn message_name() -> Seq<char> {
        "DapLoadedSourcesResponse"@
    }

    open spec fn message_priority() -> MessagePriority {
        MessagePriority::Background
    }

    proof fn lemma_payload_round_trip(msg: Self) {
    }

    fn name() -> (r: &'static str) {
        "DapLoadedSourcesResponse"
    }

    fn priority() -> (r: MessagePriority) {
        MessagePriority::Background
    }

    fn into_envelope(self, id: u32, responding_to: Option<u32>, original_sender_id: Option<PeerId>) -> (r:
        Envelope) {
        Envelope { id, responding_to, original_sender_id, payload: Some(Payload::DapLoadedSourcesResponse(self)) }
    }

    fn from_envelope(envelope: Envelope) -> (r: Option<Self>) {
        match envelope.payload {
            Some(Payload::DapLoadedSourcesResponse(msg)) => Some(msg),
            _ => None,
        }
    }
}

impl EntityMessage for DapNextRequest {
    open spec fn entity_id(&self) -> u64 {
        self.project_id
    }

    fn remote_entity_id(&self) -> (r: u64) {
        self.project_id
    }
}

impl EntityMessage for DapStepInRequest {
    open spec fn entity_id(&self) -> u64 {
        self.project_id
    }

    fn remote_entity_id(&self) -> (r: u64) {
        self.project_id
    }
}

impl EntityMessage for DapStepOutRequest {
    open spec fn entity_id(&self) -> u64 {
        self.project_id
    }

    fn remote_entity_id(&self) -> (r: u64) {
        self.project_id
    }
}

impl EntityMessage for DapStepBackRequest {
    open spec fn entity_id(&self) -> u64 {
        self.project_id
    }

    fn remote_entity_id(&self) -> (r: u64) {
        self.project_id
    }
}

impl EntityMessage for DapContinueRequest {
    open spec fn entity_id(&self) -> u64 {
        self.project_id
    }

    fn remote_entity_id(&self) -> (r: u64) {
        self.project_id
    }
}

impl EntityMessage for DapPauseRequest {
    open spec fn entity_id(&self) -> u64 {
        self.project_id
    }

    fn remote_entity_id(&self) -> (r: u64) {
        self.project_id
    }
}

impl EntityMessage for DapDisconnectRequest {
    open spec fn entity_id(&self) -> u64 {
        self.project_id
    }

    fn remote_entity_id(&self) -> (r: u64) {
        self.project_id
    }
}

impl EntityMessage for DapTerminateThreadsRequest {
    open spec fn entity_id(&self) -> u64 {
        self.project_id
    }

    fn remote_entity_id(&self) -> (r: u64) {
        self.project_id
    }
}

impl EntityMessage for DapRestartRequest {
    open spec fn entity_id(&self) -> u64 {
        self.project_id
    }

    fn remote_entity_id(&self) -> (r: u64) {
        self.project_id
    }
}

impl EntityMessage for DapRestartStackFrameRequest {
    open spec fn entity_id(&self) -> u64 {
        self.project_id
    }

    fn remote_entity_id(&self) -> (r: u64) {
        self.project_id
    }
}

impl EntityMessage for VariablesRequest {
    open spec fn entity_id(&self) -> u64 {
        self.project_id
    }

    fn remote_entity_id(&self) -> (r: u64) {
        self.project_id
    }
}

impl EntityMessage for DapStackTraceRequest {
    open spec fn entity_id(&self) -> u64 {
        self.project_id
    }

    fn remote_entity_id(&self) -> (r: u64) {
        self.project_id
    }
}

impl EntityMessage for DapScopesRequest {
    open spec fn entity_id(&self) -> u64 {
        self.project_id
    }

    fn remote_entity_id(&self) -> (r: u64) {
        self.project_id
    }
}

impl EntityMessage for DapSetVariableValueRequest {
    open spec fn entity_id(&self) -> u64 {
        self.project_id
    }

    fn remote_entity_id(&self) -> (r: u64) {
        self.project_id
    }
}

impl EntityMessage for DapTerminateRequest {
    open spec fn entity_id(&self) -> u64 {
        self.project_id
    }

    fn remote_entity_id(&self) -> (r: u64) {
        self.project_id
    }
}

impl RequestMessage for DapNextRequest {
    type Response = Ack;
}

impl RequestMessage for DapStepInRequest {
    type Response = Ack;
}

impl RequestMessage for DapStepOutRequest {
    type Response = Ack;
}

impl RequestMessage for DapStepBackRequest {
    type Response = Ack;
}

impl RequestMessage for DapContinueRequest {
    type Response = DapContinueResponse;
}

impl RequestMessage for DapModulesRequest {
    type Response = DapModulesResponse;
}

impl RequestMessage for DapLoadedSourcesRequest {
    type Response = DapLoadedSourcesResponse;
}

impl RequestMessage for DapPauseRequest {
    type Response = Ack;
}

impl RequestMessage for DapDisconnectRequest {
    type Response = Ack;
}

impl RequestMessage for DapTerminateThreadsRequest {
    type Response = Ack;
}

impl RequestMessage for DapRestartRequest {
    type Response = Ack;
}

impl RequestMessage for DapRestartStackFrameRequest {
    type Response = Ack;
}

impl RequestMessage for VariablesRequest {
    type Response = DapVariables;
}

impl RequestMessage for DapStackTraceRequest {
    type Response = DapStackTraceResponse;
}

impl RequestMessage for DapScopesRequest {
    type Response = DapScopesResponse;
}

impl RequestMessage for DapSetVariableValueRequest {
    type Response = DapSetVariableValueResponse;
}

impl RequestMessage for DapTerminateRequest {
    type Response = Ack;
}

} // verus!
