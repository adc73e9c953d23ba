use alloy_icp::evm_rpc::{
    EthMainnetService, EthSepoliaService, HttpOutcallError, JsonRpcError, ProviderError,
    RejectionCode, RequestResult, RpcError, RpcService, ValidationError,
};
use alloy_icp::transport::{
    handle_reply, relay_outcome, IcpConfig, IcpTransport, IcpTransportError,
    DEFAULT_CALL_CYCLES, DEFAULT_CALL_MAX_RESPONSE_SIZE,
};
use alloy_json_rpc::{Id, Request, RequestPacket, ResponsePacket, ResponsePayload};

fn block_number_packet() -> RequestPacket {
    let request = Request::new("eth_blockNumber", Id::Number(1), ());
    RequestPacket::from(request.serialize().unwrap())
}

#[test]
fn rejection_codes_follow_declaration_order() {
    assert_eq!(RejectionCode::NoError.as_i64(), 0);
    assert_eq!(RejectionCode::CanisterError.as_i64(), 1);
    assert_eq!(RejectionCode::SysTransient.as_i64(), 2);
    assert_eq!(RejectionCode::DestinationInvalid.as_i64(), 3);
    assert_eq!(RejectionCode::Unknown.as_i64(), 4);
    assert_eq!(RejectionCode::SysFatal.as_i64(), 5);
    assert_eq!(RejectionCode::CanisterReject.as_i64(), 6);
    assert_eq!(i64::from(RejectionCode::SysFatal), 5);
}

#[test]
fn system_codes_of_rejections() {
    assert_eq!(RejectionCode::NoError.as_system_code(), 0);
    assert_eq!(RejectionCode::SysFatal.as_system_code(), 1);
    assert_eq!(RejectionCode::SysTransient.as_system_code(), 2);
    assert_eq!(RejectionCode::DestinationInvalid.as_system_code(), 3);
    assert_eq!(RejectionCode::CanisterReject.as_system_code(), 4);
    assert_eq!(RejectionCode::CanisterError.as_system_code(), 5);
    assert_eq!(RejectionCode::Unknown.as_system_code(), 6);
    for (code, expected) in [
        (RejectionCode::SysFatal, 1),
        (RejectionCode::CanisterError, 5),
        (RejectionCode::Unknown, 6),
    ] {
        assert_eq!(
            relay_outcome(Err((code, "m".to_string()))),
            Err(IcpTransportError::Infra { code: expected, message: "m".to_string() })
        );
    }
}

#[test]
fn config_defaults_and_overrides() {
    let config = IcpConfig::new(RpcService::EthSepolia(EthSepoliaService::Alchemy));
    let transport = IcpTransport::with_config(config);
    assert_eq!(transport.call_cycles(), DEFAULT_CALL_CYCLES);
    assert_eq!(transport.call_cycles(), 60_000_000_000);
    assert_eq!(transport.max_response_size(), DEFAULT_CALL_MAX_RESPONSE_SIZE);
    assert_eq!(transport.max_response_size(), 10_000);
    assert_eq!(transport.rpc_service(), &RpcService::EthSepolia(EthSepoliaService::Alchemy));
    assert!(!transport.is_local());

    let config = IcpConfig::new(RpcService::Chain(1)).call_cycles(5).max_response_size(77);
    let mut transport = IcpTransport::with_config(config);
    assert_eq!(transport.call_cycles(), 5);
    assert_eq!(transport.max_response_size(), 77);
    assert_eq!(transport.rpc_service(), &RpcService::Chain(1));

    transport.set_call_cycles(9);
    transport.set_max_response_size(11);
    transport.set_rpc_service(RpcService::EthMainnet(EthMainnetService::Cloudflare));
    assert_eq!(transport.call_cycles(), 9);
    assert_eq!(transport.max_response_size(), 11);
    assert_eq!(transport.rpc_service(), &RpcService::EthMainnet(EthMainnetService::Cloudflare));
}

#[test]
fn request_carries_service_budget_and_payload() {
    let config = IcpConfig::new(RpcService::Provider(3)).call_cycles(1234).max_response_size(500);
    let transport = IcpTransport::with_config(config);
    let call = transport.request_icp(block_number_packet()).unwrap();
    assert_eq!(call.rpc_service, RpcService::Provider(3));
    assert_eq!(call.call_cycles, 1234);
    assert_eq!(call.max_response_size, 500);
    let expected = block_number_packet().serialize().unwrap().to_string();
    assert_eq!(call.payload, expected);
    let payload: serde_json::Value = serde_json::from_str(&call.payload).unwrap();
    assert_eq!(payload["method"], "eth_blockNumber");
    assert_eq!(payload["id"], 1);
    assert_eq!(payload["jsonrpc"], "2.0");
}

#[test]
fn provider_error_maps_to_relay() {
    let reply = Ok(RequestResult::Failure(RpcError::ProviderError(ProviderError::ProviderNotFound)));
    let r = relay_outcome(reply);
    assert_eq!(r, Err(IcpTransportError::Relay(RpcError::ProviderError(ProviderError::ProviderNotFound))));
    let reply = Ok(RequestResult::Failure(RpcError::ProviderError(ProviderError::ProviderNotFound)));
    match handle_reply(reply) {
        Err(IcpTransportError::Relay(RpcError::ProviderError(ProviderError::ProviderNotFound))) => {}
        other => panic!("unexpected: {:?}", other.map(|_| ())),
    }
}

fn details() -> Vec<RpcError> {
    vec![
        RpcError::JsonRpcError(JsonRpcError { code: -32000, message: "bad".to_string() }),
        RpcError::ValidationError(ValidationError::HostNotAllowed("x".to_string())),
        RpcError::HttpOutcallError(HttpOutcallError::IcError {
            code: RejectionCode::SysTransient,
            message: "later".to_string(),
        }),
        RpcError::ProviderError(ProviderError::TooFewCycles {
            expected: candid::Nat::from(10u64),
            received: candid::Nat::from(3u64),
        }),
    ]
}

#[test]
fn other_relay_errors_keep_their_detail() {
    for (detail, expected) in details().into_iter().zip(details()) {
        assert_eq!(
            relay_outcome(Ok(RequestResult::Failure(detail))),
            Err(IcpTransportError::Relay(expected))
        );
    }
}

#[test]
fn rejected_call_maps_to_infra() {
    let reply = Err((RejectionCode::DestinationInvalid, "no such canister".to_string()));
    assert_eq!(
        relay_outcome(reply),
        Err(IcpTransportError::Infra { code: 3, message: "no such canister".to_string() })
    );
    let reply = Err((RejectionCode::CanisterReject, "rejected".to_string()));
    match handle_reply(reply) {
        Err(IcpTransportError::Infra { code, message }) => {
            assert_eq!(code, 4);
            assert_eq!(message, "rejected");
        }
        other => panic!("unexpected: {:?}", other.map(|_| ())),
    }
}

#[test]
fn malformed_body_maps_to_deserialization() {
    let reply = Ok(RequestResult::Response("{not json".to_string()));
    match handle_reply(reply) {
        Err(IcpTransportError::Deserialization { text, .. }) => assert_eq!(text, "{not json"),
        other => panic!("unexpected: {:?}", other.map(|_| ())),
    }
}

#[test]
fn well_formed_body_is_a_response() {
    let text = r#"{"jsonrpc":"2.0","id":1,"result":"0x10"}"#;
    assert_eq!(relay_outcome(Ok(RequestResult::Response(text.to_string()))), Ok(text.to_string()));
    let packet = handle_reply(Ok(RequestResult::Response(text.to_string()))).unwrap();
    match packet {
        ResponsePacket::Single(response) => {
            assert_eq!(response.id, Id::Number(1));
            match response.payload {
                ResponsePayload::Success(raw) => assert_eq!(raw.get(), "\"0x10\""),
                ResponsePayload::Failure(_) => panic!("expected a result"),
            }
        }
        ResponsePacket::Batch(_) => panic!("expected a single response"),
    }
}
