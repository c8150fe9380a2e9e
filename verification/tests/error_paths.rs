use nexixpay::codec::{decode_metadata, encode_metadata};
use nexixpay::context::{
    AuthenticationType, CaptureMethod, MandateReferenceId, NexixpayRouterData,
    PaymentMethodData, PaymentsAuthorizeData, PaymentsAuthorizeRouterData,
    PaymentsPreProcessingData, PaymentsPreProcessingRouterData, RedirectResponse,
    ResponseRouterData, Card,
};
use nexixpay::errors::ConnectorError;
use nexixpay::metadata::{NexixpayConnectorMetaData, NexixpayPaymentIntent, ThreeDSAuthResult};
use nexixpay::requests::NexixpayPaymentsRequest;
use nexixpay::responses::{
    reconcile_authorize_response, reconcile_preprocessing_response, AdditionalData,
    NexixpayPaymentsResponse, NexixpayPreProcessingResponse, Operation, PaymentsResponse,
    PaymentsResponseData,
};
use nexixpay::requests::CustomerInfo;
use nexixpay::status::{AttemptStatus, NexixpayOperationType, NexixpayPaymentStatus};

fn card_context() -> PaymentsAuthorizeRouterData {
    PaymentsAuthorizeRouterData {
        payment_id: "order123".to_string(),
        description: None,
        auth_type: AuthenticationType::ThreeDs,
        connector_mandate_request_reference_id: None,
        billing: Some(nexixpay::address::RawAddress {
            line1: None,
            line2: None,
            full_name: Some("Ada Lovelace".to_string()),
            city: None,
            zip: None,
            country: None,
        }),
        shipping: None,
        status: AttemptStatus::Pending,
        request: PaymentsAuthorizeData {
            currency: "EUR".to_string(),
            payment_method_data: PaymentMethodData::Card(Card {
                card_number: "4111111111111111".to_string(),
                card_exp_month: "09".to_string(),
                card_exp_year: "2027".to_string(),
            }),
            mandate_reference_id: None,
            is_mandate_payment: false,
            capture_method: Some(CaptureMethod::Automatic),
            complete_authorize_url: Some("https://return.example/complete".to_string()),
        },
    }
}

fn operation(result: NexixpayPaymentStatus) -> Operation {
    Operation {
        additional_data: AdditionalData {
            masked_pan: "411111******1111".to_string(),
            card_id: "card-1".to_string(),
            card_id4: None,
            card_expiry_date: None,
        },
        customer_info: CustomerInfo {
            card_holder_name: "Ada Lovelace".to_string(),
            billing_address: None,
            shipping_address: None,
        },
        operation_amount: "1000".to_string(),
        operation_currency: "EUR".to_string(),
        operation_id: "op-77".to_string(),
        operation_result: result,
        operation_time: "2024-01-01T00:00:00".to_string(),
        operation_type: NexixpayOperationType::Authorization,
        order_id: "order123".to_string(),
        payment_method: "CARD".to_string(),
        warnings: None,
    }
}

#[test]
fn connector_mandate_reference_without_id_fails() {
    let mut ctx = card_context();
    ctx.request.mandate_reference_id = Some(MandateReferenceId::ConnectorMandateId {
        connector_mandate_request_reference_id: None,
    });
    let item = NexixpayRouterData::from(("1000".to_string(), ctx));
    assert_eq!(
        NexixpayPaymentsRequest::try_from(&item).unwrap_err(),
        ConnectorError::MissingConnectorMandateID
    );
}

#[test]
fn mandate_setup_without_reference_id_fails() {
    let mut ctx = card_context();
    ctx.request.is_mandate_payment = true;
    ctx.connector_mandate_request_reference_id = None;
    let item = NexixpayRouterData::from(("1000".to_string(), ctx));
    match NexixpayPaymentsRequest::try_from(&item).unwrap_err() {
        ConnectorError::MissingRequiredField { field_name } => {
            assert_eq!(field_name, "connector_mandate_request_reference_id");
        }
        other => panic!("unexpected error: {other:?}"),
    }
}

#[test]
fn authorize_reconcile_with_scheduled_capture_is_unclassifiable() {
    let mut data = card_context();
    data.request.capture_method = Some(CaptureMethod::Scheduled);
    let item = ResponseRouterData {
        response: NexixpayPaymentsResponse::PaymentResponse(Box::new(PaymentsResponse {
            operation: operation(NexixpayPaymentStatus::Authorized),
            three_d_s_auth_request: "req".to_string(),
            three_d_s_auth_url: "https://3ds.example/auth".to_string(),
        })),
        data,
        http_code: 200,
    };
    assert_eq!(
        reconcile_authorize_response(&item).unwrap_err(),
        ConnectorError::CaptureMethodNotSupported
    );
}

#[test]
fn authorize_reconcile_without_return_url_fails() {
    let mut data = card_context();
    data.request.complete_authorize_url = None;
    let item = ResponseRouterData {
        response: NexixpayPaymentsResponse::PaymentResponse(Box::new(PaymentsResponse {
            operation: operation(NexixpayPaymentStatus::Authorized),
            three_d_s_auth_request: "req".to_string(),
            three_d_s_auth_url: "https://3ds.example/auth".to_string(),
        })),
        data,
        http_code: 200,
    };
    match reconcile_authorize_response(&item).unwrap_err() {
        ConnectorError::MissingRequiredField { field_name } => {
            assert_eq!(field_name, "complete_authorize_url");
        }
        other => panic!("unexpected error: {other:?}"),
    }
}

fn preprocessing_data(payload: Option<String>, metadata: Option<String>) -> PaymentsPreProcessingRouterData {
    PaymentsPreProcessingRouterData {
        status: AttemptStatus::AuthenticationPending,
        request: PaymentsPreProcessingData {
            redirect_response: Some(RedirectResponse { payload }),
            metadata,
            capture_method: Some(CaptureMethod::Automatic),
        },
    }
}

fn preprocessing_response() -> NexixpayPreProcessingResponse {
    NexixpayPreProcessingResponse {
        operation: operation(NexixpayPaymentStatus::ThreedsValidated),
        three_d_s_auth_result: ThreeDSAuthResult {
            authentication_value: Some("cavv-9".to_string()),
        },
    }
}

#[test]
fn preprocessing_reconcile_merges_auth_artifacts_into_metadata() {
    let persisted = encode_metadata(&NexixpayConnectorMetaData {
        three_d_s_auth_result: None,
        three_d_s_auth_response: None,
        authorization_operation_id: Some("auth-op-1".to_string()),
        capture_operation_id: None,
        cancel_operation_id: None,
        psync_flow: NexixpayPaymentIntent::Authorize,
    });
    let item = ResponseRouterData {
        response: preprocessing_response(),
        data: preprocessing_data(
            Some("{\"PaRes\":\"pares-9\",\"paymentId\":\"op-77\"}".to_string()),
            Some(persisted),
        ),
        http_code: 200,
    };
    let out = reconcile_preprocessing_response(&item).unwrap();
    assert_eq!(out.status, AttemptStatus::AuthenticationSuccessful);
    let PaymentsResponseData::TransactionResponse {
        redirection_data,
        connector_metadata,
        ..
    } = out.response.unwrap();
    // pre-processing never builds a redirect
    assert!(redirection_data.is_none());
    let meta = decode_metadata(&connector_metadata.unwrap()).unwrap();
    assert_eq!(
        meta.three_d_s_auth_result
            .unwrap()
            .authentication_value
            .as_deref(),
        Some("cavv-9")
    );
    assert_eq!(meta.three_d_s_auth_response.as_deref(), Some("pares-9"));
    assert_eq!(meta.authorization_operation_id.as_deref(), Some("auth-op-1"));
    // auto-capture filled the capture id forward from the authorization id
    assert_eq!(meta.capture_operation_id.as_deref(), Some("auth-op-1"));
}

#[test]
fn preprocessing_reconcile_bad_payload_is_deserialization_failure() {
    let item = ResponseRouterData {
        response: preprocessing_response(),
        data: preprocessing_data(Some("###".to_string()), None),
        http_code: 200,
    };
    assert_eq!(
        reconcile_preprocessing_response(&item).unwrap_err(),
        ConnectorError::ResponseDeserializationFailed
    );
}

#[test]
fn preprocessing_reconcile_without_metadata_fails() {
    let item = ResponseRouterData {
        response: preprocessing_response(),
        data: preprocessing_data(
            Some("{\"PaRes\":\"pares-9\",\"paymentId\":\"op-77\"}".to_string()),
            None,
        ),
        http_code: 200,
    };
    match reconcile_preprocessing_response(&item).unwrap_err() {
        ConnectorError::MissingRequiredField { field_name } => {
            assert_eq!(field_name, "connector_meta_data");
        }
        other => panic!("unexpected error: {other:?}"),
    }
}

#[test]
fn escape_forms_are_exact() {
    let blob = encode_metadata(&NexixpayConnectorMetaData {
        three_d_s_auth_result: None,
        three_d_s_auth_response: Some("a\"b\\c\nd".to_string()),
        authorization_operation_id: None,
        capture_operation_id: None,
        cancel_operation_id: None,
        psync_flow: NexixpayPaymentIntent::Authorize,
    });
    assert!(blob.contains("\"threeDSAuthResponse\":\"a\\\"b\\\\c\\u000ad\""));
}
