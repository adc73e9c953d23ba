//! Data types exchanged with the EVM RPC relay canister.
use vstd::prelude::*;

verus! {

/// Outside type: an arbitrary-precision natural number of the Candid IDL,
/// carried through opaque.
#[verifier::external_type_specification]
#[verifier::external_body]
pub struct ExNat(candid::Nat);

#[derive(Debug, Clone, Copy, PartialEq, Eq)]
pub enum EthSepoliaService {
    Alchemy,
    BlockPi,
    PublicNode,
    Ankr,
}

#[derive(Debug, Clone, Copy, PartialEq, Eq)]
pub enum L2MainnetService {
    Alchemy,
    BlockPi,
    PublicNode,
    Ankr,
}

#[derive(Debug, Clone, PartialEq, Eq)]
pub struct HttpHeader {
    pub value: String,
    pub name: String,
}

#[derive(Debug, Clone, PartialEq, Eq)]
pub struct RpcApi {
    pub url: String,
    pub headers: Option<Vec<HttpHeader>>,
}

#[derive(Debug, Clone, Copy, PartialEq, Eq)]
pub enum EthMainnetService {
    Alchemy,
    BlockPi,
    Cloudflare,
    PublicNode,
    Ankr,
}

#[derive(Debug, Clone, PartialEq, Eq)]
pub struct JsonRpcError {
    pub code: i64,
    pub message: String,
}

#[derive(Debug, PartialEq, Eq)]
pub enum ProviderError {
    TooFewCycles { expected: candid::Nat, received: candid::Nat },
    MissingRequiredProvider,
    ProviderNotFound,
    NoPermission,
}

#[derive(Debug, Clone, PartialEq, Eq)]
pub enum ValidationError {
    CredentialPathNotAllowed,
    HostNotAllowed(String),
    CredentialHeaderNotAllowed,
    UrlParseError(String),
    Custom(String),
    InvalidHex(String),
}

/// Reason given by the system when an inter-canister call is rejected.
#[derive(Debug, Clone, Copy, PartialEq, Eq)]
pub enum RejectionCode {
    NoError,
    CanisterError,
    SysTransient,
    DestinationInvalid,
    Unknown,
    SysFatal,
    CanisterReject,
}

impl RejectionCode {
    /// The code that the system gives a rejection of this kind.
    pub open spec fn system_code(self) -> i64 {
        match self {
            RejectionCode::NoError => 0,
            RejectionCode::SysFatal => 1,
            RejectionCode::SysTransient => 2,
            RejectionCode::DestinationInvalid => 3,
            RejectionCode::CanisterReject => 4,
            RejectionCode::CanisterError => 5,
            RejectionCode::Unknown => 6,
        }
    }

    /// The system's numeric code for this rejection.
    pub fn as_system_code(&self) -> (r: i64)
        ensures
            r == self.system_code(),
    {
        match self {
            RejectionCode::NoError => 0,
            RejectionCode::SysFatal => 1,
            RejectionCode::SysTransient => 2,
            RejectionCode::DestinationInvalid => 3,
            RejectionCode::CanisterReject => 4,
            RejectionCode::CanisterError => 5,
            RejectionCode::Unknown => 6,
        }
    }

    /// The numeric code of the relay's encoding: the variant's position in
    /// declaration order.
    pub open spec fn code(self) -> i64 {
        match self {
            RejectionCode::NoError => 0,
            RejectionCode::CanisterError => 1,
            RejectionCode::SysTransient => 2,
            RejectionCode::DestinationInvalid => 3,
            RejectionCode::Unknown => 4,
            RejectionCode::SysFatal => 5,
            RejectionCode::CanisterReject => 6,
        }
    }

    pub fn as_i64(&self) -> (r: i64)
        ensures
            r == self.code(),
    {
        match self {
            RejectionCode::NoError => 0,
            RejectionCode::CanisterError => 1,
            RejectionCode::SysTransient => 2,
            RejectionCode::DestinationInvalid => 3,
            RejectionCode::Unknown => 4,
            RejectionCode::SysFatal => 5,
            RejectionCode::CanisterReject => 6,
        }
    }
}

impl From<RejectionCode> for i64 {
    fn from(code: RejectionCode) -> (r: i64) {
        code.as_i64()
    }
}

impl vstd::std_specs::convert::FromSpecImpl<RejectionCode> for i64 {
    open spec fn obeys_from_spec() -> bool {
        true
    }

    open spec fn from_spec(code: RejectionCode) -> i64 {
        code.code()
    }
}

#[allow(non_snake_case)]
#[derive(Debug, Clone, PartialEq, Eq)]
pub enum HttpOutcallError {
    IcError { code: RejectionCode, message: String },
    InvalidHttpJsonRpcResponse { status: u16, body: String, parsingError: Option<String> },
}

#[derive(Debug, PartialEq, Eq)]
pub enum RpcError {
    JsonRpcError(JsonRpcError),
    ProviderError(ProviderError),
    ValidationError(ValidationError),
    HttpOutcallError(HttpOutcallError),
}

/// Which chain and provider the relay forwards a request to.
#[derive(Debug, Clone, PartialEq, Eq)]
pub enum RpcService {
    EthSepolia(EthSepoliaService),
    BaseMainnet(L2MainnetService),
    Custom(RpcApi),
    OptimismMainnet(L2MainnetService),
    ArbitrumOne(L2MainnetService),
    EthMainnet(EthMainnetService),
    Chain(u64),
    Provider(u64),
}

/// The relay's application-level answer: the raw JSON-RPC response text, or a
/// structured error.
#[derive(Debug, PartialEq, Eq)]
pub enum RequestResult {
    Response(String),
    Failure(RpcError),
}

} // verus!
