//! The relay transport: its configuration, the request it hands to the relay
//! canister, and how the relay's answer becomes a response or an error.
use crate::evm_rpc::{RejectionCode, RequestResult, RpcError, RpcService};
use vstd::prelude::*;

verus! {

/// Cycles attached to each relay call unless the caller sets another amount.
pub const DEFAULT_CALL_CYCLES: u128 = 60_000_000_000;

/// Largest response, in bytes, that the relay is asked to accept by default.
pub const DEFAULT_CALL_MAX_RESPONSE_SIZE: u64 = 10_000;

/// Outside type: a batch or single JSON-RPC request, as built by the client.
#[verifier::external_type_specification]
#[verifier::external_body]
pub struct ExRequestPacket(alloy_json_rpc::RequestPacket);

/// Outside type: a batch or single JSON-RPC response.
#[verifier::external_type_specification]
#[verifier::external_body]
#[verifier::reject_recursive_types(P)]
#[verifier::reject_recursive_types(E)]
pub struct ExResponsePacket<P, E>(alloy_json_rpc::ResponsePacket<P, E>);

/// Outside type: JSON text held unparsed.
#[verifier::external_type_specification]
#[verifier::external_body]
pub struct ExRawValue(serde_json::value::RawValue);

/// Whether a text is a well-formed JSON-RPC response packet.
pub uninterp spec fn response_parses(text: Seq<char>) -> bool;

/// The JSON text of a request packet.
pub uninterp spec fn serialized_request(packet: alloy_json_rpc::RequestPacket) -> Seq<char>;

/// Relies on `RequestPacket::serialize`: the packet as JSON text. A single
/// request hands back the text it holds, and a batch is written into memory,
/// so it does not fail.
#[verifier::external_body]
fn serialize_request(packet: alloy_json_rpc::RequestPacket) -> (r: Result<String, String>)
    ensures
        r is Ok,
        r->Ok_0@ == serialized_request(packet),
{
    match packet.serialize() {
        Ok(serialized) => Ok(serialized.to_string()),
        Err(e) => Err(e.to_string()),
    }
}

/// Relies on `serde_json::from_str` into `ResponsePacket`: whether it succeeds
/// depends on the text alone.
#[verifier::external_body]
fn decode_response(text: &str) -> (r: Result<alloy_json_rpc::ResponsePacket, String>)
    ensures
        r is Ok <==> response_parses(text@),
{
    serde_json::from_str::<alloy_json_rpc::ResponsePacket>(text).map_err(|e| e.to_string())
}

/// Configuration details for a transport.
#[derive(Clone, Debug)]
pub struct IcpConfig {
    rpc_service: RpcService,
    call_cycles: u128,
    max_response_size: u64,
}

impl IcpConfig {
    pub closed spec fn spec_rpc_service(&self) -> RpcService {
        self.rpc_service
    }

    pub closed spec fn spec_call_cycles(&self) -> u128 {
        self.call_cycles
    }

    pub closed spec fn spec_max_response_size(&self) -> u64 {
        self.max_response_size
    }

    /// A configuration for the given service with the default budget.
    pub fn new(rpc_service: RpcService) -> (r: Self)
        ensures
            r.spec_rpc_service() == rpc_service,
            r.spec_call_cycles() == DEFAULT_CALL_CYCLES,
            r.spec_max_response_size() == DEFAULT_CALL_MAX_RESPONSE_SIZE,
    {
        IcpConfig {
            rpc_service,
            call_cycles: DEFAULT_CALL_CYCLES,
            max_response_size: DEFAULT_CALL_MAX_RESPONSE_SIZE,
        }
    }

    /// Sets the cycles attached to each call.
    pub fn call_cycles(self, call_cycles: u128) -> (r: Self)
        ensures
            r.spec_rpc_service() == self.spec_rpc_service(),
            r.spec_call_cycles() == call_cycles,
            r.spec_max_response_size() == self.spec_max_response_size(),
    {
        IcpConfig { call_cycles, ..self }
    }

    /// Sets the largest accepted response size.
    pub fn max_response_size(self, max_response_size: u64) -> (r: Self)
        ensures
            r.spec_rpc_service() == self.spec_rpc_service(),
            r.spec_call_cycles() == self.spec_call_cycles(),
            r.spec_max_response_size() == max_response_size,
    {
        IcpConfig { max_response_size, ..self }
    }
}

/// A transport that forwards JSON-RPC requests through the relay canister.
#[derive(Clone, Debug)]
pub struct IcpTransport {
    rpc_service: RpcService,
    call_cycles: u128,
    max_response_size: u64,
}

/// Everything one relay call carries.
#[derive(Debug)]
pub struct RelayCall {
    pub rpc_service: RpcService,
    pub payload: String,
    pub max_response_size: u64,
    pub call_cycles: u128,
}

/// Why a request through the relay did not produce a response.
#[derive(Debug, PartialEq, Eq)]
pub enum IcpTransportError {
    /// The request could not be encoded.
    Serialization(String),
    /// The relay answered with text that is not a JSON-RPC response.
    Deserialization { text: String, message: String },
    /// The system rejected the call to the relay; `code` is the system's
    /// rejection code.
    Infra { code: i64, message: String },
    /// The relay accepted the call and reported an application error.
    Relay(RpcError),
}

/// What the relay's answer, or the rejection of the call, becomes: the
/// response text, or the error that reports it.
pub open spec fn relay_outcome_spec(reply: Result<RequestResult, (RejectionCode, String)>) -> Result<
    String,
    IcpTransportError,
> {
    match reply {
        Ok(RequestResult::Response(text)) => Ok(text),
        Ok(RequestResult::Failure(e)) => Err(IcpTransportError::Relay(e)),
        Err((code, message)) => Err(IcpTransportError::Infra { code: code.system_code(), message }),
    }
}

/// Maps the outcome of one relay call to the response text or an error.
pub fn relay_outcome(reply: Result<RequestResult, (RejectionCode, String)>) -> (r: Result<
    String,
    IcpTransportError,
>)
    ensures
        r == relay_outcome_spec(reply),
{
    match reply {
        Ok(RequestResult::Response(text)) => Ok(text),
        Ok(RequestResult::Failure(e)) => Err(IcpTransportError::Relay(e)),
        Err((code, message)) => Err(IcpTransportError::Infra { code: code.as_system_code(), message }),
    }
}

/// Turns the outcome of one relay call into a JSON-RPC response, or an error.
pub fn handle_reply(reply: Result<RequestResult, (RejectionCode, String)>) -> (r: Result<
    alloy_json_rpc::ResponsePacket,
    IcpTransportError,
>)
    ensures
        match relay_outcome_spec(reply) {
            Ok(text) => {
                &&& r is Ok <==> response_parses(text@)
                &&& r matches Err(e) ==> e matches IcpTransportError::Deserialization { text: t, .. }
                    && t == text
            },
            Err(e) => r == Err::<alloy_json_rpc::ResponsePacket, IcpTransportError>(e),
        },
{
    match relay_outcome(reply) {
        Ok(text) => match decode_response(text.as_str()) {
            Ok(packet) => Ok(packet),
            Err(message) => Err(IcpTransportError::Deserialization { text, message }),
        },
        Err(e) => Err(e),
    }
}

/// Each kind of failure keeps its own error: an application error of the
/// relay is `Relay` with its detail, a rejected call is `Infra` with the
/// rejection's code and message, and a body that is not a JSON-RPC response
/// is `Deserialization`.
pub proof fn relay_errors_are_distinguished(
    detail: RpcError,
    code: RejectionCode,
    message: String,
    text: String,
)
    ensures
        relay_outcome_spec(Ok(RequestResult::Failure(detail))) == Err::<String, IcpTransportError>(
            IcpTransportError::Relay(detail),
        ),
        relay_outcome_spec(Err((code, message))) == Err::<String, IcpTransportError>(
            IcpTransportError::Infra { code: code.system_code(), message },
        ),
        relay_outcome_spec(Ok(RequestResult::Response(text))) == Ok::<String, IcpTransportError>(
            text,
        ),
{
}

impl IcpTransport {
    pub closed spec fn spec_rpc_service(&self) -> RpcService {
        self.rpc_service
    }

    pub closed spec fn spec_call_cycles(&self) -> u128 {
        self.call_cycles
    }

    pub closed spec fn spec_max_response_size(&self) -> u64 {
        self.max_response_size
    }

    /// A transport with the service and budget of `config`.
    pub fn with_config(config: IcpConfig) -> (r: Self)
        ensures
            r.spec_rpc_service() == config.spec_rpc_service(),
            r.spec_call_cycles() == config.spec_call_cycles(),
            r.spec_max_response_size() == config.spec_max_response_size(),
    {
        IcpTransport {
            rpc_service: config.rpc_service,
            call_cycles: config.call_cycles,
            max_response_size: config.max_response_size,
        }
    }

    pub fn set_rpc_service(&mut self, rpc_service: RpcService)
        ensures
            final(self).spec_rpc_service() == rpc_service,
            final(self).spec_call_cycles() == old(self).spec_call_cycles(),
            final(self).spec_max_response_size() == old(self).spec_max_response_size(),
    {
        self.rpc_service = rpc_service;
    }

    pub fn rpc_service(&self) -> (r: &RpcService)
        ensures
            *r == self.spec_rpc_service(),
    {
        &self.rpc_service
    }

    pub fn set_call_cycles(&mut self, call_cycles: u128)
        ensures
            final(self).spec_rpc_service() == old(self).spec_rpc_service(),
            final(self).spec_call_cycles() == call_cycles,
            final(self).spec_max_response_size() == old(self).spec_max_response_size(),
    {
        self.call_cycles = call_cycles;
    }

    pub fn call_cycles(&self) -> (r: u128)
        ensures
            r == self.spec_call_cycles(),
    {
        self.call_cycles
    }

    pub fn set_max_response_size(&mut self, max_response_size: u64)
        ensures
            final(self).spec_rpc_service() == old(self).spec_rpc_service(),
            final(self).spec_call_cycles() == old(self).spec_call_cycles(),
            final(self).spec_max_response_size() == max_response_size,
    {
        self.max_response_size = max_response_size;
    }

    pub fn max_response_size(&self) -> (r: u64)
        ensures
            r == self.spec_max_response_size(),
    {
        self.max_response_size
    }

    /// Whether the transport talks to a local replica: never, for the relay.
    pub fn is_local(&self) -> (r: bool)
        ensures
            !r,
    {
        false
    }

    /// The relay call for one request: this transport's service and budget,
    /// with the request encoded as JSON text.
    pub fn request_icp(&self, request_packet: alloy_json_rpc::RequestPacket) -> (r: Result<
        RelayCall,
        IcpTransportError,
    >)
        ensures
            r is Ok,
            r->Ok_0.payload@ == serialized_request(request_packet),
            cloned(self.spec_rpc_service(), r->Ok_0.rpc_service),
            r->Ok_0.max_response_size == self.spec_max_response_size(),
            r->Ok_0.call_cycles == self.spec_call_cycles(),
    {
        match serialize_request(request_packet) {
            Ok(payload) => Ok(
                RelayCall {
                    rpc_service: self.rpc_service.clone(),
                    payload,
                    max_response_size: self.max_response_size,
                    call_cycles: self.call_cycles,
                },
            ),
            Err(message) => Err(IcpTransportError::Serialization(message)),
        }
    }
}

} // verus!
