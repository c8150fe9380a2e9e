use nexixpay::codec::{decode_metadata, encode_metadata};
use nexixpay::context::{
    AuthenticationType, CaptureMethod, PaymentMethodData, PaymentsAuthorizeData,
    PaymentsAuthorizeRouterData, PaymentsCancelData, PaymentsCancelRouterData,
    PaymentsCaptureData, PaymentsCaptureRouterData, PaymentsSyncData, PaymentsSyncRouterData,
    ResponseRouterData, Card,
};
use nexixpay::metadata::{NexixpayConnectorMetaData, NexixpayPaymentIntent};
use nexixpay::responses::{
    reconcile_authorize_response, reconcile_cancel_response, reconcile_capture_response,
    reconcile_refund_execute_response, reconcile_refund_sync_response, reconcile_sync_response,
    AdditionalData, Method, NexixpayMandateResponse, NexixpayOperationResponse,
    NexixpayPaymentsResponse, NexixpayRSyncResponse, NexixpayTransactionResponse, Operation,
    PaymentsResponse, PaymentsResponseData, RefundResponse, ResponseId,
};
use nexixpay::requests::CustomerInfo;
use nexixpay::status::{
    AttemptStatus, NexixpayOperationType, NexixpayPaymentStatus, NexixpayRefundOperationType,
    NexixpayRefundResultStatus, RefundStatus,
};

fn operation(result: NexixpayPaymentStatus) -> Operation {
    Operation {
        additional_data: AdditionalData {
            masked_pan: "411111******1111".to_string(),
            card_id: "card-1".to_string(),
            card_id4: None,
            card_expiry_date: None,
        },
        customer_info: CustomerInfo {
            card_holder_name: "Ada Lovelace".to_string(),
            billing_address: None,
            shipping_address: None,
        },
        operation_amount: "1000".to_string(),
        operation_currency: "EUR".to_string(),
        operation_id: "op-77".to_string(),
        operation_result: result,
        operation_time: "2024-01-01T00:00:00".to_string(),
        operation_type: NexixpayOperationType::Authorization,
        order_id: "order123".to_string(),
        payment_method: "CARD".to_string(),
        warnings: None,
    }
}

fn authorize_data() -> PaymentsAuthorizeRouterData {
    PaymentsAuthorizeRouterData {
        payment_id: "order123".to_string(),
        description: None,
        auth_type: AuthenticationType::ThreeDs,
        connector_mandate_request_reference_id: Some("mand-1".to_string()),
        billing: None,
        shipping: None,
        status: AttemptStatus::Pending,
        request: PaymentsAuthorizeData {
            currency: "EUR".to_string(),
            payment_method_data: PaymentMethodData::Card(Card {
                card_number: "4111111111111111".to_string(),
                card_exp_month: "09".to_string(),
                card_exp_year: "2027".to_string(),
            }),
            mandate_reference_id: None,
            is_mandate_payment: false,
            capture_method: Some(CaptureMethod::Automatic),
            complete_authorize_url: Some("https://return.example/complete".to_string()),
        },
    }
}

fn payment_shape(result: NexixpayPaymentStatus) -> NexixpayPaymentsResponse {
    NexixpayPaymentsResponse::PaymentResponse(Box::new(PaymentsResponse {
        operation: operation(result),
        three_d_s_auth_request: "b64-threeds-request".to_string(),
        three_d_s_auth_url: "https://3ds.example/auth".to_string(),
    }))
}

#[test]
fn authorize_executed_maps_to_charged_with_redirect_and_metadata() {
    let item = ResponseRouterData {
        response: payment_shape(NexixpayPaymentStatus::Executed),
        data: authorize_data(),
        http_code: 200,
    };
    let out = reconcile_authorize_response(&item).unwrap();
    assert_eq!(out.status, AttemptStatus::Charged);
    let PaymentsResponseData::TransactionResponse {
        resource_id,
        redirection_data,
        mandate_reference,
        connector_metadata,
        connector_response_reference_id,
    } = out.response.unwrap();
    assert_eq!(
        resource_id,
        ResponseId::ConnectorTransactionId("order123".to_string())
    );
    let form = redirection_data.unwrap();
    assert_eq!(form.endpoint, "https://3ds.example/auth");
    assert_eq!(form.method, Method::Post);
    assert_eq!(
        form.form_fields,
        vec![
            (
                "ThreeDsRequest".to_string(),
                "b64-threeds-request".to_string()
            ),
            (
                "ReturnUrl".to_string(),
                "https://return.example/complete".to_string()
            ),
            ("transactionId".to_string(), "op-77".to_string()),
        ]
    );
    assert_eq!(
        mandate_reference.unwrap().connector_mandate_id.as_deref(),
        Some("mand-1")
    );
    let meta = decode_metadata(&connector_metadata.unwrap()).unwrap();
    assert_eq!(meta.authorization_operation_id.as_deref(), Some("op-77"));
    // auto-capture pre-populates the capture id with the same operation id
    assert_eq!(meta.capture_operation_id.as_deref(), Some("op-77"));
    assert_eq!(meta.psync_flow, NexixpayPaymentIntent::Authorize);
    assert_eq!(connector_response_reference_id.as_deref(), Some("order123"));
}

#[test]
fn authorize_manual_capture_leaves_capture_id_empty() {
    let mut data = authorize_data();
    data.request.capture_method = Some(CaptureMethod::Manual);
    let item = ResponseRouterData {
        response: payment_shape(NexixpayPaymentStatus::Authorized),
        data,
        http_code: 200,
    };
    let out = reconcile_authorize_response(&item).unwrap();
    assert_eq!(out.status, AttemptStatus::Authorized);
    let PaymentsResponseData::TransactionResponse {
        connector_metadata, ..
    } = out.response.unwrap();
    let meta = decode_metadata(&connector_metadata.unwrap()).unwrap();
    assert_eq!(meta.capture_operation_id, None);
}

#[test]
fn authorize_declined_yields_error_response_with_status_text() {
    let item = ResponseRouterData {
        response: payment_shape(NexixpayPaymentStatus::Declined),
        data: authorize_data(),
        http_code: 200,
    };
    let out = reconcile_authorize_response(&item).unwrap();
    // the prior status stands; only the error response is substituted
    assert_eq!(out.status, AttemptStatus::Pending);
    let err = out.response.unwrap_err();
    assert_eq!(err.message, "DECLINED");
    assert_eq!(err.reason.as_deref(), Some("DECLINED"));
    assert_eq!(err.code, "No error code");
    assert_eq!(err.status_code, 200);
}

#[test]
fn authorize_mandate_shape_writes_no_redirect_and_no_metadata() {
    let item = ResponseRouterData {
        response: NexixpayPaymentsResponse::MandateResponse(Box::new(NexixpayMandateResponse {
            operation: operation(NexixpayPaymentStatus::Executed),
        })),
        data: authorize_data(),
        http_code: 200,
    };
    let out = reconcile_authorize_response(&item).unwrap();
    assert_eq!(out.status, AttemptStatus::Charged);
    let PaymentsResponseData::TransactionResponse {
        redirection_data,
        mandate_reference,
        connector_metadata,
        ..
    } = out.response.unwrap();
    assert!(redirection_data.is_none());
    assert!(mandate_reference.is_none());
    assert!(connector_metadata.is_none());
}

fn base_meta() -> NexixpayConnectorMetaData {
    NexixpayConnectorMetaData {
        three_d_s_auth_result: None,
        three_d_s_auth_response: None,
        authorization_operation_id: Some("auth-op-1".to_string()),
        capture_operation_id: None,
        cancel_operation_id: None,
        psync_flow: NexixpayPaymentIntent::Authorize,
    }
}

#[test]
fn capture_outcome_is_pending_and_tags_capture_flow() {
    let item = ResponseRouterData {
        response: NexixpayOperationResponse {
            operation_id: "cap-op-5".to_string(),
        },
        data: PaymentsCaptureRouterData {
            status: AttemptStatus::Authorized,
            request: PaymentsCaptureData {
                currency: "EUR".to_string(),
                connector_transaction_id: "order123".to_string(),
                connector_meta: Some(encode_metadata(&base_meta())),
            },
        },
        http_code: 200,
    };
    let out = reconcile_capture_response(&item).unwrap();
    assert_eq!(out.status, AttemptStatus::Pending);
    let PaymentsResponseData::TransactionResponse {
        resource_id,
        connector_metadata,
        ..
    } = out.response.unwrap();
    assert_eq!(
        resource_id,
        ResponseId::ConnectorTransactionId("order123".to_string())
    );
    let meta = decode_metadata(&connector_metadata.unwrap()).unwrap();
    assert_eq!(meta.capture_operation_id.as_deref(), Some("cap-op-5"));
    assert_eq!(meta.authorization_operation_id.as_deref(), Some("auth-op-1"));
    assert_eq!(meta.psync_flow, NexixpayPaymentIntent::Capture);
}

#[test]
fn cancel_outcome_is_pending_and_tags_cancel_flow() {
    let item = ResponseRouterData {
        response: NexixpayOperationResponse {
            operation_id: "void-op-2".to_string(),
        },
        data: PaymentsCancelRouterData {
            status: AttemptStatus::Authorized,
            request: PaymentsCancelData {
                currency: Some("EUR".to_string()),
                cancellation_reason: None,
                connector_transaction_id: "order123".to_string(),
                connector_meta: Some(encode_metadata(&base_meta())),
            },
        },
        http_code: 200,
    };
    let out = reconcile_cancel_response(&item).unwrap();
    assert_eq!(out.status, AttemptStatus::Pending);
    let PaymentsResponseData::TransactionResponse {
        connector_metadata, ..
    } = out.response.unwrap();
    let meta = decode_metadata(&connector_metadata.unwrap()).unwrap();
    assert_eq!(meta.cancel_operation_id.as_deref(), Some("void-op-2"));
    assert_eq!(meta.psync_flow, NexixpayPaymentIntent::Cancel);
}

#[test]
fn sync_carries_metadata_forward_unchanged() {
    let blob = encode_metadata(&base_meta());
    let item = ResponseRouterData {
        response: NexixpayTransactionResponse {
            order_id: "order123".to_string(),
            operation_id: "op-77".to_string(),
            operation_result: NexixpayPaymentStatus::Executed,
            operation_type: NexixpayOperationType::Capture,
        },
        data: PaymentsSyncRouterData {
            status: AttemptStatus::Pending,
            connector_mandate_request_reference_id: None,
            request: PaymentsSyncData {
                connector_meta: Some(blob.clone()),
            },
        },
        http_code: 200,
    };
    let out = reconcile_sync_response(&item).unwrap();
    assert_eq!(out.status, AttemptStatus::Charged);
    let PaymentsResponseData::TransactionResponse {
        connector_metadata, ..
    } = out.response.unwrap();
    assert_eq!(connector_metadata.as_deref(), Some(blob.as_str()));
}

#[test]
fn sync_failed_status_yields_error_and_keeps_prior_status() {
    let item = ResponseRouterData {
        response: NexixpayTransactionResponse {
            order_id: "order123".to_string(),
            operation_id: "op-77".to_string(),
            operation_result: NexixpayPaymentStatus::Failed,
            operation_type: NexixpayOperationType::Capture,
        },
        data: PaymentsSyncRouterData {
            status: AttemptStatus::Pending,
            connector_mandate_request_reference_id: None,
            request: PaymentsSyncData {
                connector_meta: None,
            },
        },
        http_code: 500,
    };
    let out = reconcile_sync_response(&item).unwrap();
    assert_eq!(out.status, AttemptStatus::Pending);
    let err = out.response.unwrap_err();
    assert_eq!(err.message, "FAILED");
    assert_eq!(err.status_code, 500);
}

#[test]
fn refund_execute_is_pending_with_provider_refund_id() {
    let d = reconcile_refund_execute_response(&RefundResponse {
        operation_id: "ref-op-3".to_string(),
    });
    assert_eq!(d.connector_refund_id, "ref-op-3");
    assert_eq!(d.refund_status, RefundStatus::Pending);
}

#[test]
fn refund_sync_maps_refund_statuses() {
    let d = reconcile_refund_sync_response(&NexixpayRSyncResponse {
        order_id: "order123".to_string(),
        operation_id: "ref-op-3".to_string(),
        operation_result: NexixpayRefundResultStatus::Refunded,
        operation_type: NexixpayRefundOperationType::Refund,
    });
    assert_eq!(d.refund_status, RefundStatus::Success);
    let d2 = reconcile_refund_sync_response(&NexixpayRSyncResponse {
        order_id: "order123".to_string(),
        operation_id: "ref-op-4".to_string(),
        operation_result: NexixpayRefundResultStatus::Failed,
        operation_type: NexixpayRefundOperationType::Refund,
    });
    assert_eq!(d2.refund_status, RefundStatus::Failure);
}
