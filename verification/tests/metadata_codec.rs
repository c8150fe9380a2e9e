use nexixpay::codec::{decode_metadata, encode_metadata};
use nexixpay::errors::ConnectorError;
use nexixpay::metadata::{
    merge_metadata, update_nexi_meta_data, NexixpayConnectorMetaData, NexixpayPaymentIntent,
    ThreeDSAuthResult, UpdateNexixpayConnectorMetaData,
};

fn empty_meta() -> NexixpayConnectorMetaData {
    NexixpayConnectorMetaData {
        three_d_s_auth_result: None,
        three_d_s_auth_response: None,
        authorization_operation_id: None,
        capture_operation_id: None,
        cancel_operation_id: None,
        psync_flow: NexixpayPaymentIntent::Authorize,
    }
}

fn empty_update(meta_data: String, is_auto_capture: bool) -> UpdateNexixpayConnectorMetaData {
    UpdateNexixpayConnectorMetaData {
        three_d_s_auth_result: None,
        three_d_s_auth_response: None,
        authorization_operation_id: None,
        capture_operation_id: None,
        cancel_operation_id: None,
        psync_flow: None,
        meta_data,
        is_auto_capture,
    }
}

#[test]
fn encode_of_empty_metadata_is_canonical_json() {
    let blob = encode_metadata(&empty_meta());
    assert_eq!(
        blob,
        "{\"threeDSAuthResult\":null,\"threeDSAuthResponse\":null,\
         \"authorizationOperationId\":null,\"captureOperationId\":null,\
         \"cancelOperationId\":null,\"psyncFlow\":\"Authorize\"}"
    );
}

#[test]
fn encode_decode_round_trip_plain_values() {
    let m = NexixpayConnectorMetaData {
        three_d_s_auth_result: Some(ThreeDSAuthResult {
            authentication_value: Some("Y2FmZQ==".to_string()),
        }),
        three_d_s_auth_response: Some("pares-token".to_string()),
        authorization_operation_id: Some("op-123".to_string()),
        capture_operation_id: None,
        cancel_operation_id: Some("cn-9".to_string()),
        psync_flow: NexixpayPaymentIntent::Capture,
    };
    let blob = encode_metadata(&m);
    let back = decode_metadata(&blob).unwrap();
    assert_eq!(back, m);
}

#[test]
fn encode_decode_round_trip_escaped_characters() {
    let m = NexixpayConnectorMetaData {
        three_d_s_auth_result: None,
        three_d_s_auth_response: Some("a\"b\\c\nd\u{1}e".to_string()),
        authorization_operation_id: Some("tab\there".to_string()),
        capture_operation_id: None,
        cancel_operation_id: None,
        psync_flow: NexixpayPaymentIntent::Cancel,
    };
    let blob = encode_metadata(&m);
    let back = decode_metadata(&blob).unwrap();
    assert_eq!(back, m);
}

#[test]
fn encoded_blob_is_valid_json_with_the_documented_keys() {
    let m = NexixpayConnectorMetaData {
        three_d_s_auth_result: Some(ThreeDSAuthResult {
            authentication_value: Some("v\"x".to_string()),
        }),
        three_d_s_auth_response: None,
        authorization_operation_id: Some("op1".to_string()),
        capture_operation_id: Some("op1".to_string()),
        cancel_operation_id: None,
        psync_flow: NexixpayPaymentIntent::Authorize,
    };
    let blob = encode_metadata(&m);
    let v: serde_json::Value = serde_json::from_str(&blob).unwrap();
    assert_eq!(v["authorizationOperationId"], "op1");
    assert_eq!(v["captureOperationId"], "op1");
    assert_eq!(v["psyncFlow"], "Authorize");
    assert!(v["threeDSAuthResponse"].is_null());
    assert_eq!(v["threeDSAuthResult"]["authenticationValue"], "v\"x");
}

#[test]
fn decode_rejects_malformed_blob() {
    assert_eq!(
        decode_metadata("{\"something\":1}"),
        Err(ConnectorError::ParsingFailed)
    );
    assert_eq!(decode_metadata(""), Err(ConnectorError::ParsingFailed));
    assert_eq!(
        decode_metadata("not json at all"),
        Err(ConnectorError::ParsingFailed)
    );
}

#[test]
fn decode_rejects_trailing_garbage() {
    let blob = encode_metadata(&empty_meta());
    let with_tail = format!("{blob} ");
    assert_eq!(decode_metadata(&with_tail), Err(ConnectorError::ParsingFailed));
}

#[test]
fn merge_is_fill_forward_per_field() {
    let existing = NexixpayConnectorMetaData {
        three_d_s_auth_result: None,
        three_d_s_auth_response: Some("kept".to_string()),
        authorization_operation_id: Some("auth-1".to_string()),
        capture_operation_id: None,
        cancel_operation_id: None,
        psync_flow: NexixpayPaymentIntent::Authorize,
    };
    let update = UpdateNexixpayConnectorMetaData {
        three_d_s_auth_result: None,
        three_d_s_auth_response: Some("ignored".to_string()),
        authorization_operation_id: Some("auth-2".to_string()),
        capture_operation_id: Some("cap-1".to_string()),
        cancel_operation_id: None,
        psync_flow: Some(NexixpayPaymentIntent::Capture),
        meta_data: String::new(),
        is_auto_capture: false,
    };
    let merged = merge_metadata(&existing, &update);
    assert_eq!(merged.three_d_s_auth_response.as_deref(), Some("kept"));
    assert_eq!(merged.authorization_operation_id.as_deref(), Some("auth-1"));
    assert_eq!(merged.capture_operation_id.as_deref(), Some("cap-1"));
    // the sync-flow hint is the one field where the update wins
    assert_eq!(merged.psync_flow, NexixpayPaymentIntent::Capture);
}

#[test]
fn merge_twice_equals_merge_once() {
    let existing = NexixpayConnectorMetaData {
        three_d_s_auth_result: None,
        three_d_s_auth_response: None,
        authorization_operation_id: Some("auth-1".to_string()),
        capture_operation_id: None,
        cancel_operation_id: None,
        psync_flow: NexixpayPaymentIntent::Authorize,
    };
    let update = UpdateNexixpayConnectorMetaData {
        three_d_s_auth_result: Some(ThreeDSAuthResult {
            authentication_value: Some("av".to_string()),
        }),
        three_d_s_auth_response: Some("pr".to_string()),
        authorization_operation_id: Some("auth-2".to_string()),
        capture_operation_id: Some("cap".to_string()),
        cancel_operation_id: Some("cn".to_string()),
        psync_flow: Some(NexixpayPaymentIntent::Cancel),
        meta_data: String::new(),
        is_auto_capture: true,
    };
    let once = merge_metadata(&existing, &update);
    let twice = merge_metadata(&once, &update);
    assert_eq!(twice, once);
}

#[test]
fn merge_of_all_absent_update_returns_existing_unchanged() {
    let existing = NexixpayConnectorMetaData {
        three_d_s_auth_result: Some(ThreeDSAuthResult {
            authentication_value: None,
        }),
        three_d_s_auth_response: Some("pr".to_string()),
        authorization_operation_id: Some("auth-1".to_string()),
        capture_operation_id: Some("cap-1".to_string()),
        cancel_operation_id: None,
        psync_flow: NexixpayPaymentIntent::Capture,
    };
    let merged = merge_metadata(&existing, &empty_update(String::new(), false));
    assert_eq!(merged, existing);
}

#[test]
fn auto_capture_fallback_fills_capture_id_from_authorization_id() {
    let existing = NexixpayConnectorMetaData {
        three_d_s_auth_result: None,
        three_d_s_auth_response: None,
        authorization_operation_id: Some("op1".to_string()),
        capture_operation_id: None,
        cancel_operation_id: None,
        psync_flow: NexixpayPaymentIntent::Authorize,
    };
    let merged = merge_metadata(&existing, &empty_update(String::new(), true));
    assert_eq!(merged.capture_operation_id.as_deref(), Some("op1"));
}

#[test]
fn auto_capture_fallback_prefers_persisted_authorization_id() {
    let existing = NexixpayConnectorMetaData {
        three_d_s_auth_result: None,
        three_d_s_auth_response: None,
        authorization_operation_id: Some("persisted".to_string()),
        capture_operation_id: None,
        cancel_operation_id: None,
        psync_flow: NexixpayPaymentIntent::Authorize,
    };
    let mut update = empty_update(String::new(), true);
    update.authorization_operation_id = Some("from-update".to_string());
    let merged = merge_metadata(&existing, &update);
    assert_eq!(merged.capture_operation_id.as_deref(), Some("persisted"));
}

#[test]
fn update_nexi_meta_data_decodes_merges_and_reencodes() {
    let existing = NexixpayConnectorMetaData {
        three_d_s_auth_result: None,
        three_d_s_auth_response: None,
        authorization_operation_id: Some("op1".to_string()),
        capture_operation_id: None,
        cancel_operation_id: None,
        psync_flow: NexixpayPaymentIntent::Authorize,
    };
    let blob = encode_metadata(&existing);
    let mut update = empty_update(blob, false);
    update.capture_operation_id = Some("cap-7".to_string());
    update.psync_flow = Some(NexixpayPaymentIntent::Capture);
    let new_blob = update_nexi_meta_data(update).unwrap();
    let merged = decode_metadata(&new_blob).unwrap();
    assert_eq!(merged.authorization_operation_id.as_deref(), Some("op1"));
    assert_eq!(merged.capture_operation_id.as_deref(), Some("cap-7"));
    assert_eq!(merged.psync_flow, NexixpayPaymentIntent::Capture);
}

#[test]
fn update_nexi_meta_data_fails_on_malformed_blob() {
    let update = empty_update("{broken".to_string(), false);
    assert_eq!(update_nexi_meta_data(update), Err(ConnectorError::ParsingFailed));
}
