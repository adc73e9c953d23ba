//! An Ethereum client for Internet Computer canisters: a JSON-RPC transport
//! through the EVM RPC relay canister, a signer backed by threshold ECDSA, and
//! a timer-driven poller.
pub mod evm_rpc;
pub mod transport;
pub mod utils;
pub mod signer;
pub mod poller;
