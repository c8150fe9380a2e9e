use nexixpay::blacklist::{expiry_to_i64, is_token_blacklisted};
use nexixpay::context::{
    CompleteAuthorizeData, PaymentsCompleteAuthorizeRouterData, ResponseRouterData,
};
use nexixpay::codec::encode_metadata;
use nexixpay::errors::{get_error_response, ConnectorError};
use nexixpay::metadata::{NexixpayConnectorMetaData, NexixpayPaymentIntent};
use nexixpay::responses::{
    reconcile_complete_authorize_response, NexixpayCompleteAuthorizeResponse, OperationData,
};
use nexixpay::status::{
    AttemptStatus, NexixpayOperationType, NexixpayPaymentStatus, NexixpayRefundResultStatus,
    RefundStatus,
};

#[test]
fn every_provider_status_maps_to_exactly_one_attempt_status() {
    let cases = [
        (NexixpayPaymentStatus::Declined, AttemptStatus::Failure),
        (NexixpayPaymentStatus::DeniedByRisk, AttemptStatus::Failure),
        (NexixpayPaymentStatus::ThreedsFailed, AttemptStatus::Failure),
        (NexixpayPaymentStatus::Failed, AttemptStatus::Failure),
        (NexixpayPaymentStatus::Authorized, AttemptStatus::Authorized),
        (
            NexixpayPaymentStatus::ThreedsValidated,
            AttemptStatus::AuthenticationSuccessful,
        ),
        (NexixpayPaymentStatus::Executed, AttemptStatus::Charged),
        (
            NexixpayPaymentStatus::Pending,
            AttemptStatus::AuthenticationPending,
        ),
        (NexixpayPaymentStatus::Canceled, AttemptStatus::Voided),
        (NexixpayPaymentStatus::Voided, AttemptStatus::Voided),
        (NexixpayPaymentStatus::Refunded, AttemptStatus::AutoRefunded),
    ];
    for (provider, expected) in cases {
        assert_eq!(AttemptStatus::from(provider), expected);
    }
}

#[test]
fn every_provider_refund_status_maps_to_exactly_one_refund_status() {
    let cases = [
        (NexixpayRefundResultStatus::Voided, RefundStatus::Success),
        (NexixpayRefundResultStatus::Refunded, RefundStatus::Success),
        (NexixpayRefundResultStatus::Executed, RefundStatus::Success),
        (NexixpayRefundResultStatus::Pending, RefundStatus::Pending),
        (NexixpayRefundResultStatus::Failed, RefundStatus::Failure),
    ];
    for (provider, expected) in cases {
        assert_eq!(RefundStatus::from(provider), expected);
    }
}

#[test]
fn status_wire_names_are_screaming_snake_case() {
    assert_eq!(NexixpayPaymentStatus::Declined.wire_name(), "DECLINED");
    assert_eq!(
        NexixpayPaymentStatus::DeniedByRisk.wire_name(),
        "DENIED_BY_RISK"
    );
    assert_eq!(
        NexixpayPaymentStatus::ThreedsValidated.wire_name(),
        "THREEDS_VALIDATED"
    );
    assert_eq!(NexixpayPaymentStatus::Executed.wire_name(), "EXECUTED");
}

#[test]
fn error_response_uses_status_text_as_message_and_reason() {
    let e = get_error_response(NexixpayPaymentStatus::DeniedByRisk, 402);
    assert_eq!(e.message, "DENIED_BY_RISK");
    assert_eq!(e.reason.as_deref(), Some("DENIED_BY_RISK"));
    assert_eq!(e.code, "No error code");
    assert_eq!(e.status_code, 402);
    assert!(e.attempt_status.is_none());
    assert!(e.connector_transaction_id.is_none());
}

#[test]
fn zero_amount_authorized_counts_as_charged() {
    let blob = encode_metadata(&NexixpayConnectorMetaData {
        three_d_s_auth_result: None,
        three_d_s_auth_response: None,
        authorization_operation_id: Some("auth-op-1".to_string()),
        capture_operation_id: None,
        cancel_operation_id: None,
        psync_flow: NexixpayPaymentIntent::Authorize,
    });
    let item = ResponseRouterData {
        response: NexixpayCompleteAuthorizeResponse {
            operation: OperationData {
                operation_id: "op-9".to_string(),
                operation_currency: "EUR".to_string(),
                operation_result: NexixpayPaymentStatus::Authorized,
                operation_type: NexixpayOperationType::Authorization,
                order_id: "order123".to_string(),
            },
        },
        data: PaymentsCompleteAuthorizeRouterData {
            payment_id: "order123".to_string(),
            description: None,
            connector_mandate_request_reference_id: None,
            billing: None,
            shipping: None,
            status: AttemptStatus::AuthenticationPending,
            request: CompleteAuthorizeData {
                currency: "EUR".to_string(),
                amount: 0,
                payment_method_data: None,
                capture_method: None,
                connector_meta: Some(blob),
                is_mandate_payment: false,
            },
        },
        http_code: 200,
    };
    let out = reconcile_complete_authorize_response(&item).unwrap();
    assert_eq!(out.status, AttemptStatus::Charged);
}

#[test]
fn expiry_conversion_fits_or_fails() {
    assert_eq!(expiry_to_i64(100_000), Ok(100_000));
    assert_eq!(expiry_to_i64(i64::MAX as u64), Ok(i64::MAX));
    assert_eq!(
        expiry_to_i64(i64::MAX as u64 + 1),
        Err(ConnectorError::ParsingFailed)
    );
}

#[test]
fn blacklist_entry_invalidates_only_newer_entries() {
    assert!(is_token_blacklisted(Some(100), 50));
    assert!(!is_token_blacklisted(Some(50), 50));
    assert!(!is_token_blacklisted(Some(10), 50));
    assert!(!is_token_blacklisted(None, 50));
}
