use alcomd::host_protocol::{
    base64url_unpadded, encode_frame, frame_length, invocation_context_id,
    portable_ui_action_fingerprint, validate_invocation_context_id, HostMessage, HostMessageBody,
    HostProtocolError, HostStableError, MAX_HOST_FRAME_BYTES,
};
use serde_json::Value;
use sha2::{Digest, Sha256};

fn message(body: HostMessageBody) -> HostMessage {
    HostMessage {
        protocol_version: 1,
        daemon_epoch: "00000000-0000-4000-8000-000000000001".to_owned(),
        instance_id: "00000000-0000-4000-8000-000000000002".to_owned(),
        lifecycle_generation: 1,
        sequence: 1,
        body,
    }
}

fn object(key: &str, value: Value) -> Value {
    let mut map = serde_json::Map::new();
    map.insert(key.to_owned(), value);
    Value::Object(map)
}

fn json(value: &Value) -> Vec<u8> {
    serde_json::to_vec(value).expect("encode interface value")
}

/// The length of a capability result message as the protocol spells it.
fn encoded_result_len(call_id: &str, result: Option<&Value>, error_code: Option<&str>) -> usize {
    let mut map = serde_json::Map::new();
    map.insert("protocolVersion".to_owned(), Value::from(1));
    map.insert("daemonEpoch".to_owned(), Value::from("00000000-0000-4000-8000-000000000001"));
    map.insert("instanceId".to_owned(), Value::from("00000000-0000-4000-8000-000000000002"));
    map.insert("lifecycleGeneration".to_owned(), Value::from(1));
    map.insert("sequence".to_owned(), Value::from(1));
    map.insert("type".to_owned(), Value::from("capability-result"));
    map.insert("call_id".to_owned(), Value::from(call_id));
    if let Some(value) = result {
        map.insert("result".to_owned(), value.clone());
    }
    if let Some(code) = error_code {
        map.insert("error".to_owned(), object("code", Value::from(code)));
    }
    json(&Value::Object(map)).len()
}

#[test]
fn capability_result_is_bounded_and_exactly_one_of_result_or_error() {
    let value = object("value", Value::Null);
    let valid = message(HostMessageBody::CapabilityResult {
        call_id: "call-1".to_owned(),
        result: Some(json(&value)),
        error: None,
    });
    assert!(valid.validate_bounds(Some(encoded_result_len("call-1", Some(&value), None))).is_ok());
    let invalid = message(HostMessageBody::CapabilityResult {
        call_id: "call-1".to_owned(),
        result: Some(json(&Value::Null)),
        error: Some(HostStableError {
            code: "extension_instance_stale".to_owned(),
            diagnostic_id: None,
        }),
    });
    assert_eq!(
        invalid.validate_bounds(Some(encoded_result_len(
            "call-1",
            Some(&Value::Null),
            Some("extension_instance_stale")
        ))),
        Err(HostProtocolError::InvalidEnvelope)
    );
    let cancelled = message(HostMessageBody::CapabilityResult {
        call_id: "call-1".to_owned(),
        result: None,
        error: Some(HostStableError {
            code: "cancelled".to_owned(),
            diagnostic_id: None,
        }),
    });
    assert!(cancelled.validate_bounds(Some(encoded_result_len("call-1", None, Some("cancelled")))).is_ok());
}

#[test]
fn malformed_or_oversized_frames_fail_closed() {
    assert_eq!(
        frame_length(0_u32.to_le_bytes()),
        Err(HostProtocolError::FrameLimit)
    );
    let prefix = u32::try_from(MAX_HOST_FRAME_BYTES + 1)
        .expect("bounded test")
        .to_le_bytes();
    assert_eq!(frame_length(prefix), Err(HostProtocolError::FrameLimit));
}

#[test]
fn invocation_context_ids_are_exact_and_unforgeable_by_shape() {
    let first = invocation_context_id();
    let second = invocation_context_id();
    assert_eq!(first.len(), 48);
    assert!(first.starts_with("ictx_"));
    assert!(first[5..]
        .bytes()
        .all(|byte| byte.is_ascii_alphanumeric() || matches!(byte, b'-' | b'_')));
    assert_ne!(first, second);
    assert!(validate_invocation_context_id(&first).is_ok());
    assert_eq!(
        validate_invocation_context_id("ictx_invalid"),
        Err(HostProtocolError::InvalidEnvelope)
    );
}

#[test]
fn portable_ui_fingerprint_uses_the_frozen_domain_separator() {
    let action = br#"{"kind":"activate","actionId":"refresh"}"#;
    let fingerprint = portable_ui_action_fingerprint(action);
    let mut expected = Sha256::new();
    expected.update(b"ALCOMD-PORTABLE-UI-ACTION-V1\0");
    expected.update(action);
    let expected: [u8; 32] = expected.finalize().into();
    assert_eq!(fingerprint, expected);
    assert_ne!(fingerprint, portable_ui_action_fingerprint(b"{}"));
}

#[test]
fn frame_prefix_round_trips_payload_length() {
    let payload = vec![b'x'; 300];
    let frame = encode_frame(&payload).expect("frame");
    assert_eq!(frame.len(), 304);
    assert_eq!(&frame[..4], &[44, 1, 0, 0]);
    let prefix = [frame[0], frame[1], frame[2], frame[3]];
    assert_eq!(frame_length(prefix), Ok(300));
    assert_eq!(&frame[4..], payload.as_slice());
}

#[test]
fn base64url_matches_known_vectors() {
    assert_eq!(base64url_unpadded(b""), "");
    assert_eq!(base64url_unpadded(b"f"), "Zg");
    assert_eq!(base64url_unpadded(b"fo"), "Zm8");
    assert_eq!(base64url_unpadded(b"foo"), "Zm9v");
    assert_eq!(base64url_unpadded(b"foobar"), "Zm9vYmFy");
    assert_eq!(base64url_unpadded(&[0xfb, 0xff]), "-_8");
}

#[test]
fn envelope_header_and_value_size_are_checked_in_order() {
    let mut header = message(HostMessageBody::Shutdown);
    header.sequence = 0;
    assert_eq!(
        header.validate_bounds(Some(10)),
        Err(HostProtocolError::InvalidEnvelope)
    );
    let shutdown = message(HostMessageBody::Shutdown);
    assert_eq!(
        shutdown.validate_bounds(Some(MAX_HOST_FRAME_BYTES + 1)),
        Err(HostProtocolError::FrameLimit)
    );
    assert_eq!(shutdown.validate_bounds(None), Err(HostProtocolError::InvalidEnvelope));
    let large = message(HostMessageBody::InvokeExport {
        request_id: "request-1".to_owned(),
        invocation_context_id: invocation_context_id(),
        export: "ui.open".to_owned(),
        input: json(&Value::String("x".repeat(300_000))),
    });
    assert_eq!(large.validate_bounds(Some(10)), Err(HostProtocolError::FrameLimit));
    let unknown_export = message(HostMessageBody::InvokeExport {
        request_id: "request-1".to_owned(),
        invocation_context_id: invocation_context_id(),
        export: "ui.private".to_owned(),
        input: json(&Value::Null),
    });
    assert_eq!(
        unknown_export.validate_bounds(Some(10)),
        Err(HostProtocolError::InvalidEnvelope)
    );
    let fault = message(HostMessageBody::HostFault {
        code: "internal_error".to_owned(),
        diagnostic_id: Some("00000000-0000-4000-8000-000000000009".to_owned()),
    });
    assert!(fault.validate_bounds(Some(10)).is_ok());
}

#[test]
fn interface_values_are_bounded_by_their_json_encoding() {
    let at_limit = json(&Value::String("x".repeat(256 * 1024 - 2)));
    assert_eq!(at_limit.len(), 256 * 1024);
    let call = |input: Vec<u8>| {
        message(HostMessageBody::CapabilityCall {
            call_id: "call-1".to_owned(),
            invocation_context_id: invocation_context_id(),
            lease_id: "00000000-0000-4000-8000-000000000003".to_owned(),
            capability: "host-data.get".to_owned(),
            input,
        })
    };
    assert!(call(at_limit).validate_bounds(Some(300_000)).is_ok());
    let over = json(&Value::String("x".repeat(256 * 1024 - 1)));
    assert_eq!(call(over).validate_bounds(Some(300_000)), Err(HostProtocolError::FrameLimit));
}
