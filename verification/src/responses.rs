//! Response reconcilers: one per operation, mapping the provider's wire
//! response to the internal outcome — status via the mapping table, redirect
//! instructions when a 3-D-Secure challenge is owed, and the updated state
//! metadata blob. A provider status that maps to a failure yields an error
//! response built from the status text and leaves the prior status standing.

use vstd::prelude::*;
use crate::codec::spec_encode_metadata;
use crate::context::CaptureMethod;
use crate::context::PaymentsAuthorizeRouterData;
use crate::context::PaymentsCancelRouterData;
use crate::context::PaymentsCaptureRouterData;
use crate::context::PaymentsCompleteAuthorizeRouterData;
use crate::context::PaymentsPreProcessingRouterData;
use crate::context::PaymentsSyncRouterData;
use crate::context::ResponseRouterData;
use crate::context::SetupMandateRouterData;
use crate::errors::ConnectorError;
use crate::errors::ErrorResponse;
use crate::errors::get_error_response;
use crate::errors::is_error_response_for;
use crate::errors::is_missing_field_err;
use crate::metadata::MetaDataView;
use crate::metadata::NexixpayConnectorMetaData;
use crate::metadata::NexixpayPaymentIntent;
use crate::metadata::ThreeDSAuthResult;
use crate::metadata::UpdateNexixpayConnectorMetaData;
use crate::metadata::opt_str_view;
use crate::metadata::spec_merge;
use crate::metadata::update_nexi_meta_data;
use crate::requests::CustomerInfo;
use crate::requests::is_auto_capture;
use crate::requests::spec_capture_method_name;
use crate::status::AttemptStatus;
use crate::status::NexixpayOperationType;
use crate::status::NexixpayPaymentStatus;
use crate::status::NexixpayRefundOperationType;
use crate::status::NexixpayRefundResultStatus;
use crate::status::RefundStatus;
use crate::status::spec_attempt_status;
use crate::status::spec_refund_status;

verus! {

/// The operation block of a complete-authorize wire response.
#[derive(Debug, Clone, PartialEq, Eq)]
pub struct OperationData {
    pub operation_id: String,
    pub operation_currency: String,
    pub operation_result: NexixpayPaymentStatus,
    pub operation_type: NexixpayOperationType,
    pub order_id: String,
}

/// The complete-authorize wire response.
#[derive(Debug, Clone, PartialEq, Eq)]
pub struct NexixpayCompleteAuthorizeResponse {
    pub operation: OperationData,
}

/// Card details echoed inside an operation block.
#[derive(Debug, Clone, PartialEq, Eq)]
pub struct AdditionalData {
    pub masked_pan: String,
    pub card_id: String,
    pub card_id4: Option<String>,
    pub card_expiry_date: Option<String>,
}

/// The full operation block of an authorize or pre-processing response.
#[derive(Debug, Clone, PartialEq, Eq)]
pub struct Operation {
    pub additional_data: AdditionalData,
    pub customer_info: CustomerInfo,
    pub operation_amount: String,
    pub operation_currency: String,
    pub operation_id: String,
    pub operation_result: NexixpayPaymentStatus,
    pub operation_time: String,
    pub operation_type: NexixpayOperationType,
    pub order_id: String,
    pub payment_method: String,
    pub warnings: Option<Vec<String>>,
}

/// The card-flow authorize wire response: always carries the 3-D-Secure
/// redirect artifacts.
#[derive(Debug, Clone, PartialEq, Eq)]
pub struct PaymentsResponse {
    pub operation: Operation,
    pub three_d_s_auth_request: String,
    pub three_d_s_auth_url: String,
}

/// The contract-flow authorize wire response: never carries a redirect.
#[derive(Debug, Clone, PartialEq, Eq)]
pub struct NexixpayMandateResponse {
    pub operation: Operation,
}

/// The two authorize wire response shapes.
#[derive(Debug, Clone, PartialEq, Eq)]
pub enum NexixpayPaymentsResponse {
    PaymentResponse(Box<PaymentsResponse>),
    MandateResponse(Box<NexixpayMandateResponse>),
}

/// The pre-processing wire response.
#[derive(Debug, Clone, PartialEq, Eq)]
pub struct NexixpayPreProcessingResponse {
    pub operation: Operation,
    pub three_d_s_auth_result: ThreeDSAuthResult,
}

/// The status-sync wire response.
#[derive(Debug, Clone, PartialEq, Eq)]
pub struct NexixpayTransactionResponse {
    pub order_id: String,
    pub operation_id: String,
    pub operation_result: NexixpayPaymentStatus,
    pub operation_type: NexixpayOperationType,
}

/// The refund-sync wire response, with the refund-specific status enum.
#[derive(Debug, Clone, PartialEq, Eq)]
pub struct NexixpayRSyncResponse {
    pub order_id: String,
    pub operation_id: String,
    pub operation_result: NexixpayRefundResultStatus,
    pub operation_type: NexixpayRefundOperationType,
}

/// The capture and cancel wire response: an operation id and nothing else.
#[derive(Debug, Clone, PartialEq, Eq)]
pub struct NexixpayOperationResponse {
    pub operation_id: String,
}

/// The refund-execute wire response.
#[derive(Debug, Clone, PartialEq, Eq)]
pub struct RefundResponse {
    pub operation_id: String,
}

/// One entry of a provider error response.
#[derive(Debug, Clone, PartialEq, Eq)]
pub struct NexixpayErrorBody {
    pub code: Option<String>,
    pub description: Option<String>,
}

/// The provider's error response body.
#[derive(Debug, Clone, PartialEq, Eq)]
pub struct NexixpayErrorResponse {
    pub errors: Vec<NexixpayErrorBody>,
}

/// What a 3-D-Secure redirect instruction is built from.
#[derive(Debug, Clone, PartialEq, Eq)]
pub struct NexixpayRedirectionRequest {
    pub three_d_s_auth_url: String,
    pub three_ds_request: String,
    pub return_url: String,
    pub transaction_id: String,
}

/// HTTP method of a redirect instruction.
#[derive(Debug, Clone, Copy, PartialEq, Eq, Structural)]
pub enum Method {
    Get,
    Post,
}

/// A redirect instruction: endpoint, method, and ordered form fields.
#[derive(Debug, Clone, PartialEq, Eq)]
pub struct RedirectForm {
    pub endpoint: String,
    pub method: Method,
    pub form_fields: Vec<(String, String)>,
}

/// The transaction identifier carried in an outcome.
#[derive(Debug, Clone, PartialEq, Eq)]
pub enum ResponseId {
    ConnectorTransactionId(String),
    EncodedData(String),
    NoResponseId,
}

/// The mandate linkage echoed back to the orchestrator.
#[derive(Debug, Clone, PartialEq, Eq)]
pub struct MandateReference {
    pub connector_mandate_id: Option<String>,
}

/// The successful payload of a payment outcome.
#[derive(Debug, Clone, PartialEq, Eq)]
pub enum PaymentsResponseData {
    TransactionResponse {
        resource_id: ResponseId,
        redirection_data: Option<RedirectForm>,
        mandate_reference: Option<MandateReference>,
        connector_metadata: Option<String>,
        connector_response_reference_id: Option<String>,
    },
}

/// The outcome of a refund call.
#[derive(Debug, Clone, PartialEq, Eq)]
pub struct RefundsResponseData {
    pub connector_refund_id: String,
    pub refund_status: RefundStatus,
}

/// The reconciled outcome of a payment call: the attempt status (the prior
/// one where the provider declined) and either the transaction payload or
/// the structured decline error.
#[derive(Debug, PartialEq, Eq)]
pub struct TransactionOutcome {
    pub status: AttemptStatus,
    pub response: Result<PaymentsResponseData, ErrorResponse>,
}

/// Builds the 3-D-Secure redirect instruction: a POST form against the
/// provider's authentication endpoint with exactly the three fields
/// `ThreeDsRequest`, `ReturnUrl` and `transactionId`, in that order.
pub fn nexixpay_threeds_link(request: NexixpayRedirectionRequest) -> (r: Result<
    RedirectForm,
    ConnectorError,
>)
    ensures
        r matches Ok(f) && spec_redirect_form_ok(
            f,
            request.three_d_s_auth_url@,
            request.three_ds_request@,
            request.return_url@,
            request.transaction_id@,
        ),
{
    let mut form_fields: Vec<(String, String)> = Vec::new();
    form_fields.push(("ThreeDsRequest".to_owned(), request.three_ds_request));
    form_fields.push(("ReturnUrl".to_owned(), request.return_url));
    form_fields.push(("transactionId".to_owned(), request.transaction_id));
    Ok(
        RedirectForm {
            endpoint: request.three_d_s_auth_url,
            method: Method::Post,
            form_fields,
        },
    )
}

/// Says of a redirect instruction that it points at the given endpoint by
/// POST and carries exactly the three expected form fields.
pub open spec fn spec_redirect_form_ok(
    f: RedirectForm,
    url: Seq<char>,
    threeds_request: Seq<char>,
    return_url: Seq<char>,
    transaction_id: Seq<char>,
) -> bool {
    &&& f.endpoint@ == url
    &&& f.method is Post
    &&& f.form_fields@.len() == 3
    &&& f.form_fields@[0].0@ == "ThreeDsRequest"@ && f.form_fields@[0].1@ == threeds_request
    &&& f.form_fields@[1].0@ == "ReturnUrl"@ && f.form_fields@[1].1@ == return_url
    &&& f.form_fields@[2].0@ == "transactionId"@ && f.form_fields@[2].1@ == transaction_id
}

/// Whether the capture method settles together with authorization.
pub open spec fn spec_is_auto_capture(m: Option<CaptureMethod>) -> bool {
    match m {
        None | Some(CaptureMethod::Automatic) | Some(CaptureMethod::SequentialAutomatic) => true,
        _ => false,
    }
}

/// Whether the capture method has an auto-capture classification at all.
pub open spec fn spec_capture_classifiable(m: Option<CaptureMethod>) -> bool {
    !(m matches Some(x) && (x is ManualMultiple || x is Scheduled))
}

/// The fresh metadata written at authorize time: the authorization
/// operation id, pre-populated as capture id under auto-capture, with the
/// sync-flow hint set to authorize.
pub open spec fn spec_authorize_metadata(op: Seq<char>, auto: bool) -> MetaDataView {
    MetaDataView {
        three_d_s_auth_result: None,
        three_d_s_auth_response: None,
        authorization_operation_id: Some(op),
        capture_operation_id: if auto {
            Some(op)
        } else {
            None
        },
        cancel_operation_id: None,
        psync_flow: NexixpayPaymentIntent::Authorize,
    }
}

/// Says of an outcome that it is the decline outcome: the prior status
/// stands and the response is the structured error for this provider
/// status and HTTP code.
pub open spec fn spec_decline_outcome(
    out: TransactionOutcome,
    prior: AttemptStatus,
    s: NexixpayPaymentStatus,
    http_code: u16,
) -> bool {
    &&& out.status == prior
    &&& out.response matches Err(er) && is_error_response_for(er, s, http_code)
}

/// Builds the fresh authorize-time metadata blob.
fn build_authorize_metadata(operation_id: &String, auto: bool) -> (r: String)
    ensures
        r@ == spec_encode_metadata(spec_authorize_metadata(operation_id@, auto)),
{
    let meta = NexixpayConnectorMetaData {
        three_d_s_auth_result: None,
        three_d_s_auth_response: None,
        authorization_operation_id: Some(operation_id.clone()),
        capture_operation_id: if auto {
            Some(operation_id.clone())
        } else {
            None
        },
        cancel_operation_id: None,
        psync_flow: NexixpayPaymentIntent::Authorize,
    };
    crate::codec::encode_metadata(&meta)
}

/// What the successful payment-shape outcome holds: the mapped status, the
/// order id as transaction and reference id, the unconditionally built
/// redirect instruction, the mandate echo, and the fresh metadata blob.
pub open spec fn spec_payment_shape_outcome(
    out: TransactionOutcome,
    response: &PaymentsResponse,
    url: Seq<char>,
    cmrid: Option<String>,
    auto: bool,
) -> bool {
    &&& out.status == spec_attempt_status(response.operation.operation_result)
    &&& out.response matches Ok(PaymentsResponseData::TransactionResponse {
        resource_id,
        redirection_data,
        mandate_reference,
        connector_metadata,
        connector_response_reference_id,
    })
    &&& resource_id matches ResponseId::ConnectorTransactionId(t) && t@
        == response.operation.order_id@
    &&& redirection_data matches Some(f) && spec_redirect_form_ok(
        f,
        response.three_d_s_auth_url@,
        response.three_d_s_auth_request@,
        url,
        response.operation.operation_id@,
    )
    &&& mandate_reference matches Some(mr) && opt_str_view(mr.connector_mandate_id)
        == opt_str_view(cmrid)
    &&& connector_metadata matches Some(blob) && blob@ == spec_encode_metadata(
        spec_authorize_metadata(response.operation.operation_id@, auto),
    )
    &&& connector_response_reference_id matches Some(rr) && rr@ == response.operation.order_id@
}

/// Reconciles one payment-shape authorize response against the flow facts
/// it needs: the return URL, the capture method, the mandate echo, the
/// prior status and the HTTP code.
fn reconcile_payment_shape(
    response: &PaymentsResponse,
    complete_authorize_url: &Option<String>,
    capture_method: Option<CaptureMethod>,
    cmrid: &Option<String>,
    prior_status: AttemptStatus,
    http_code: u16,
) -> (r: Result<TransactionOutcome, ConnectorError>)
    ensures
        match r {
            Ok(out) => {
                &&& complete_authorize_url matches Some(url)
                &&& spec_capture_classifiable(capture_method)
                &&& if spec_attempt_status(response.operation.operation_result)
                    == AttemptStatus::Failure {
                    spec_decline_outcome(
                        out,
                        prior_status,
                        response.operation.operation_result,
                        http_code,
                    )
                } else {
                    spec_payment_shape_outcome(
                        out,
                        response,
                        url@,
                        *cmrid,
                        spec_is_auto_capture(capture_method),
                    )
                }
            },
            Err(e) => if complete_authorize_url is None {
                is_missing_field_err(e, "complete_authorize_url"@)
            } else {
                !spec_capture_classifiable(capture_method) && e matches
                    ConnectorError::CaptureMethodNotSupported
            },
        },
{
    let url = match complete_authorize_url {
        Some(u) => u.clone(),
        None => {
            return Err(
                ConnectorError::MissingRequiredField {
                    field_name: "complete_authorize_url".to_owned(),
                },
            );
        },
    };
    let operation_id = response.operation.operation_id.clone();
    let redirection_form = match nexixpay_threeds_link(
        NexixpayRedirectionRequest {
            three_d_s_auth_url: response.three_d_s_auth_url.clone(),
            three_ds_request: response.three_d_s_auth_request.clone(),
            return_url: url,
            transaction_id: operation_id.clone(),
        },
    ) {
        Ok(f) => f,
        Err(e) => {
            return Err(e);
        },
    };
    let auto = match is_auto_capture(capture_method) {
        Ok(b) => b,
        Err(e) => {
            return Err(e);
        },
    };
    let connector_metadata = build_authorize_metadata(&operation_id, auto);
    let status = AttemptStatus::from(response.operation.operation_result);
    match status {
        AttemptStatus::Failure => Ok(
            TransactionOutcome {
                status: prior_status,
                response: Err(
                    get_error_response(response.operation.operation_result, http_code),
                ),
            },
        ),
        _ => Ok(
            TransactionOutcome {
                status,
                response: Ok(
                    PaymentsResponseData::TransactionResponse {
                        resource_id: ResponseId::ConnectorTransactionId(
                            response.operation.order_id.clone(),
                        ),
                        redirection_data: Some(redirection_form),
                        mandate_reference: Some(
                            MandateReference {
                                connector_mandate_id: crate::metadata::clone_opt_string(cmrid),
                            },
                        ),
                        connector_metadata: Some(connector_metadata),
                        connector_response_reference_id: Some(
                            response.operation.order_id.clone(),
                        ),
                    },
                ),
            },
        ),
    }
}

/// What the successful mandate-shape outcome holds: the mapped status and
/// the order id, with no redirect, no mandate echo and no metadata write.
pub open spec fn spec_mandate_shape_outcome(
    out: TransactionOutcome,
    response: &NexixpayMandateResponse,
) -> bool {
    &&& out.status == spec_attempt_status(response.operation.operation_result)
    &&& out.response matches Ok(PaymentsResponseData::TransactionResponse {
        resource_id,
        redirection_data,
        mandate_reference,
        connector_metadata,
        connector_response_reference_id,
    })
    &&& resource_id matches ResponseId::ConnectorTransactionId(t) && t@
        == response.operation.order_id@
    &&& redirection_data is None
    &&& mandate_reference is None
    &&& connector_metadata is None
    &&& connector_response_reference_id matches Some(rr) && rr@ == response.operation.order_id@
}

/// Reconciles an authorize response: the payment shape builds the redirect
/// instruction unconditionally and records the authorization operation id
/// into fresh metadata, pre-populating the capture id under auto-capture;
/// the mandate shape writes neither. A failure-mapped status yields the
/// decline outcome in either shape.
pub fn reconcile_authorize_response(
    item: &ResponseRouterData<NexixpayPaymentsResponse, PaymentsAuthorizeRouterData>,
) -> (r: Result<TransactionOutcome, ConnectorError>)
    ensures
        match item.response {
            NexixpayPaymentsResponse::PaymentResponse(response) => match r {
                Ok(out) => {
                    &&& item.data.request.complete_authorize_url matches Some(url)
                    &&& spec_capture_classifiable(item.data.request.capture_method)
                    &&& if spec_attempt_status(response.operation.operation_result)
                        == AttemptStatus::Failure {
                        spec_decline_outcome(
                            out,
                            item.data.status,
                            response.operation.operation_result,
                            item.http_code,
                        )
                    } else {
                        spec_payment_shape_outcome(
                            out,
                            &response,
                            url@,
                            item.data.connector_mandate_request_reference_id,
                            spec_is_auto_capture(item.data.request.capture_method),
                        )
                    }
                },
                Err(e) => if item.data.request.complete_authorize_url is None {
                    is_missing_field_err(e, "complete_authorize_url"@)
                } else {
                    !spec_capture_classifiable(item.data.request.capture_method) && e matches
                        ConnectorError::CaptureMethodNotSupported
                },
            },
            NexixpayPaymentsResponse::MandateResponse(response) => match r {
                Ok(out) => if spec_attempt_status(response.operation.operation_result)
                    == AttemptStatus::Failure {
                    spec_decline_outcome(
                        out,
                        item.data.status,
                        response.operation.operation_result,
                        item.http_code,
                    )
                } else {
                    spec_mandate_shape_outcome(out, &response)
                },
                Err(_) => false,
            },
        },
{
    match &item.response {
        NexixpayPaymentsResponse::PaymentResponse(response_body) => reconcile_payment_shape(
            response_body,
            &item.data.request.complete_authorize_url,
            item.data.request.capture_method,
            &item.data.connector_mandate_request_reference_id,
            item.data.status,
            item.http_code,
        ),
        NexixpayPaymentsResponse::MandateResponse(mandate_response) => {
            let status = AttemptStatus::from(mandate_response.operation.operation_result);
            match status {
                AttemptStatus::Failure => Ok(
                    TransactionOutcome {
                        status: item.data.status,
                        response: Err(
                            get_error_response(
                                mandate_response.operation.operation_result,
                                item.http_code,
                            ),
                        ),
                    },
                ),
                _ => Ok(
                    TransactionOutcome {
                        status,
                        response: Ok(
                            PaymentsResponseData::TransactionResponse {
                                resource_id: ResponseId::ConnectorTransactionId(
                                    mandate_response.operation.order_id.clone(),
                                ),
                                redirection_data: None,
                                mandate_reference: None,
                                connector_metadata: None,
                                connector_response_reference_id: Some(
                                    mandate_response.operation.order_id.clone(),
                                ),
                            },
                        ),
                    },
                ),
            }
        },
    }
}

/// Reconciles a mandate-setup response: the wire shape is the payment
/// shape, handled exactly as at authorize time.
pub fn reconcile_setup_mandate_response(
    item: &ResponseRouterData<PaymentsResponse, SetupMandateRouterData>,
) -> (r: Result<TransactionOutcome, ConnectorError>)
    ensures
        match r {
            Ok(out) => {
                &&& item.data.request.complete_authorize_url matches Some(url)
                &&& spec_capture_classifiable(item.data.request.capture_method)
                &&& if spec_attempt_status(item.response.operation.operation_result)
                    == AttemptStatus::Failure {
                    spec_decline_outcome(
                        out,
                        item.data.status,
                        item.response.operation.operation_result,
                        item.http_code,
                    )
                } else {
                    spec_payment_shape_outcome(
                        out,
                        &item.response,
                        url@,
                        item.data.connector_mandate_request_reference_id,
                        spec_is_auto_capture(item.data.request.capture_method),
                    )
                }
            },
            Err(e) => if item.data.request.complete_authorize_url is None {
                is_missing_field_err(e, "complete_authorize_url"@)
            } else {
                !spec_capture_classifiable(item.data.request.capture_method) && e matches
                    ConnectorError::CaptureMethodNotSupported
            },
        },
{
    reconcile_payment_shape(
        &item.response,
        &item.data.request.complete_authorize_url,
        item.data.request.capture_method,
        &item.data.connector_mandate_request_reference_id,
        item.data.status,
        item.http_code,
    )
}

/// The metadata update written at the 3-D-Secure continuation step: the
/// authentication result and the callback's authentication response.
pub open spec fn spec_preprocessing_update(
    auth_result: crate::metadata::ThreeDSAuthResultView,
    pa_res: Option<Seq<char>>,
    auto: bool,
) -> crate::metadata::UpdateMetaDataView {
    crate::metadata::UpdateMetaDataView {
        three_d_s_auth_result: Some(auth_result),
        three_d_s_auth_response: pa_res,
        authorization_operation_id: None,
        capture_operation_id: None,
        cancel_operation_id: None,
        psync_flow: None,
        is_auto_capture: auto,
    }
}

/// Reconciles a pre-processing response: merges the 3-D-Secure result and
/// the callback's authentication response into the persisted metadata and
/// maps the status; no redirect is built here.
pub fn reconcile_preprocessing_response(
    item: &ResponseRouterData<NexixpayPreProcessingResponse, PaymentsPreProcessingRouterData>,
) -> (r: Result<TransactionOutcome, ConnectorError>)
    ensures
        match r {
            Ok(out) => {
                &&& item.data.request.redirect_response matches Some(rr)
                &&& rr.payload matches Some(p)
                &&& crate::codec::spec_decode_redirect(p@) matches Some((pa_res, _pid))
                &&& spec_capture_classifiable(item.data.request.capture_method)
                &&& item.data.request.metadata matches Some(md)
                &&& crate::codec::spec_decode_metadata(md@) matches Some(m)
                &&& if spec_attempt_status(item.response.operation.operation_result)
                    == AttemptStatus::Failure {
                    spec_decline_outcome(
                        out,
                        item.data.status,
                        item.response.operation.operation_result,
                        item.http_code,
                    )
                } else {
                    &&& out.status == spec_attempt_status(
                        item.response.operation.operation_result,
                    )
                    &&& out.response matches Ok(PaymentsResponseData::TransactionResponse {
                        resource_id,
                        redirection_data,
                        mandate_reference,
                        connector_metadata,
                        connector_response_reference_id,
                    })
                    &&& resource_id matches ResponseId::ConnectorTransactionId(t) && t@
                        == item.response.operation.order_id@
                    &&& redirection_data is None
                    &&& mandate_reference is None
                    &&& connector_metadata matches Some(blob) && blob@ == spec_encode_metadata(
                        spec_merge(
                            m,
                            spec_preprocessing_update(
                                item.response.three_d_s_auth_result@,
                                pa_res,
                                spec_is_auto_capture(item.data.request.capture_method),
                            ),
                        ),
                    )
                    &&& connector_response_reference_id matches Some(rr2) && rr2@
                        == item.response.operation.order_id@
                }
            },
            Err(e) => if !(item.data.request.redirect_response matches Some(rr) && rr.payload
                is Some) {
                (e matches ConnectorError::MissingConnectorRedirectionPayload { field_name }
                    && field_name@ == "request.redirect_response.payload"@)
            } else if crate::codec::spec_decode_redirect(
                item.data.request.redirect_response->Some_0.payload->Some_0@,
            ) is None {
                e matches ConnectorError::ResponseDeserializationFailed
            } else if !spec_capture_classifiable(item.data.request.capture_method) {
                e matches ConnectorError::CaptureMethodNotSupported
            } else if item.data.request.metadata is None {
                is_missing_field_err(e, "connector_meta_data"@)
            } else {
                crate::codec::spec_decode_metadata(item.data.request.metadata->Some_0@) is None
                    && e matches ConnectorError::ParsingFailed
            },
        },
{
    let payload = match &item.data.request.redirect_response {
        Some(rr) => match &rr.payload {
            Some(p) => p,
            None => {
                return Err(
                    ConnectorError::MissingConnectorRedirectionPayload {
                        field_name: "request.redirect_response.payload".to_owned(),
                    },
                );
            },
        },
        None => {
            return Err(
                ConnectorError::MissingConnectorRedirectionPayload {
                    field_name: "request.redirect_response.payload".to_owned(),
                },
            );
        },
    };
    let (pa_res, _payment_id) = match crate::codec::decode_redirect_payload(payload.as_str()) {
        Some(p) => p,
        None => {
            return Err(ConnectorError::ResponseDeserializationFailed);
        },
    };
    let auto = match is_auto_capture(item.data.request.capture_method) {
        Ok(b) => b,
        Err(e) => {
            return Err(e);
        },
    };
    let meta_data = match &item.data.request.metadata {
        Some(md) => md.clone(),
        None => {
            return Err(
                ConnectorError::MissingRequiredField {
                    field_name: "connector_meta_data".to_owned(),
                },
            );
        },
    };
    let connector_metadata = match update_nexi_meta_data(
        UpdateNexixpayConnectorMetaData {
            three_d_s_auth_result: Some(item.response.three_d_s_auth_result.duplicate()),
            three_d_s_auth_response: pa_res,
            authorization_operation_id: None,
            capture_operation_id: None,
            cancel_operation_id: None,
            psync_flow: None,
            meta_data,
            is_auto_capture: auto,
        },
    ) {
        Ok(blob) => blob,
        Err(e) => {
            return Err(e);
        },
    };
    let status = AttemptStatus::from(item.response.operation.operation_result);
    match status {
        AttemptStatus::Failure => Ok(
            TransactionOutcome {
                status: item.data.status,
                response: Err(
                    get_error_response(item.response.operation.operation_result, item.http_code),
                ),
            },
        ),
        _ => Ok(
            TransactionOutcome {
                status,
                response: Ok(
                    PaymentsResponseData::TransactionResponse {
                        resource_id: ResponseId::ConnectorTransactionId(
                            item.response.operation.order_id.clone(),
                        ),
                        redirection_data: None,
                        mandate_reference: None,
                        connector_metadata: Some(connector_metadata),
                        connector_response_reference_id: Some(
                            item.response.operation.order_id.clone(),
                        ),
                    },
                ),
            },
        ),
    }
}

/// The metadata update written when authorization completes: the
/// authorization operation id and the authorize sync-flow hint.
pub open spec fn spec_complete_authorize_update(
    op: Seq<char>,
    auto: bool,
) -> crate::metadata::UpdateMetaDataView {
    crate::metadata::UpdateMetaDataView {
        three_d_s_auth_result: None,
        three_d_s_auth_response: None,
        authorization_operation_id: Some(op),
        capture_operation_id: None,
        cancel_operation_id: None,
        psync_flow: Some(NexixpayPaymentIntent::Authorize),
        is_auto_capture: auto,
    }
}

/// The status a complete-authorize response reconciles to: a zero-amount
/// transaction the provider reports authorized counts as charged (it was a
/// zero-value verification), anything else maps through the table.
pub open spec fn spec_complete_authorize_status(
    amount: i64,
    s: NexixpayPaymentStatus,
) -> AttemptStatus {
    if amount == 0 && s is Authorized {
        AttemptStatus::Charged
    } else {
        spec_attempt_status(s)
    }
}

/// Reconciles a complete-authorize response: writes the authorization
/// operation id into the persisted metadata, applies the zero-amount
/// special case, and echoes the mandate linkage.
pub fn reconcile_complete_authorize_response(
    item: &ResponseRouterData<NexixpayCompleteAuthorizeResponse, PaymentsCompleteAuthorizeRouterData>,
) -> (r: Result<TransactionOutcome, ConnectorError>)
    ensures
        match r {
            Ok(out) => {
                &&& spec_capture_classifiable(item.data.request.capture_method)
                &&& item.data.request.connector_meta matches Some(md)
                &&& crate::codec::spec_decode_metadata(md@) matches Some(m)
                &&& if spec_complete_authorize_status(
                    item.data.request.amount,
                    item.response.operation.operation_result,
                ) == AttemptStatus::Failure {
                    spec_decline_outcome(
                        out,
                        item.data.status,
                        item.response.operation.operation_result,
                        item.http_code,
                    )
                } else {
                    &&& out.status == spec_complete_authorize_status(
                        item.data.request.amount,
                        item.response.operation.operation_result,
                    )
                    &&& out.response matches Ok(PaymentsResponseData::TransactionResponse {
                        resource_id,
                        redirection_data,
                        mandate_reference,
                        connector_metadata,
                        connector_response_reference_id,
                    })
                    &&& resource_id matches ResponseId::ConnectorTransactionId(t) && t@
                        == item.response.operation.order_id@
                    &&& redirection_data is None
                    &&& mandate_reference matches Some(mr) && opt_str_view(
                        mr.connector_mandate_id,
                    ) == opt_str_view(item.data.connector_mandate_request_reference_id)
                    &&& connector_metadata matches Some(blob) && blob@ == spec_encode_metadata(
                        spec_merge(
                            m,
                            spec_complete_authorize_update(
                                item.response.operation.operation_id@,
                                spec_is_auto_capture(item.data.request.capture_method),
                            ),
                        ),
                    )
                    &&& connector_response_reference_id matches Some(rr) && rr@
                        == item.response.operation.order_id@
                }
            },
            Err(e) => if !spec_capture_classifiable(item.data.request.capture_method) {
                e matches ConnectorError::CaptureMethodNotSupported
            } else if item.data.request.connector_meta is None {
                is_missing_field_err(e, "connector_meta_data"@)
            } else {
                crate::codec::spec_decode_metadata(item.data.request.connector_meta->Some_0@)
                    is None && e matches ConnectorError::ParsingFailed
            },
        },
{
    let auto = match is_auto_capture(item.data.request.capture_method) {
        Ok(b) => b,
        Err(e) => {
            return Err(e);
        },
    };
    let meta_data = match &item.data.request.connector_meta {
        Some(md) => md.clone(),
        None => {
            return Err(
                ConnectorError::MissingRequiredField {
                    field_name: "connector_meta_data".to_owned(),
                },
            );
        },
    };
    let connector_metadata = match update_nexi_meta_data(
        UpdateNexixpayConnectorMetaData {
            three_d_s_auth_result: None,
            three_d_s_auth_response: None,
            authorization_operation_id: Some(item.response.operation.operation_id.clone()),
            capture_operation_id: None,
            cancel_operation_id: None,
            psync_flow: Some(NexixpayPaymentIntent::Authorize),
            meta_data,
            is_auto_capture: auto,
        },
    ) {
        Ok(blob) => blob,
        Err(e) => {
            return Err(e);
        },
    };
    let zero_authorized = item.data.request.amount == 0 && matches!(
        item.response.operation.operation_result,
        NexixpayPaymentStatus::Authorized
    );
    let status = if zero_authorized {
        AttemptStatus::Charged
    } else {
        AttemptStatus::from(item.response.operation.operation_result)
    };
    match status {
        AttemptStatus::Failure => Ok(
            TransactionOutcome {
                status: item.data.status,
                response: Err(
                    get_error_response(item.response.operation.operation_result, item.http_code),
                ),
            },
        ),
        _ => Ok(
            TransactionOutcome {
                status,
                response: Ok(
                    PaymentsResponseData::TransactionResponse {
                        resource_id: ResponseId::ConnectorTransactionId(
                            item.response.operation.order_id.clone(),
                        ),
                        redirection_data: None,
                        mandate_reference: Some(
                            MandateReference {
                                connector_mandate_id: crate::metadata::clone_opt_string(
                                    &item.data.connector_mandate_request_reference_id,
                                ),
                            },
                        ),
                        connector_metadata: Some(connector_metadata),
                        connector_response_reference_id: Some(
                            item.response.operation.order_id.clone(),
                        ),
                    },
                ),
            },
        ),
    }
}

/// Reconciles a status-sync response: maps the wire status directly and, on
/// non-failure, carries the previously persisted metadata blob forward
/// unchanged; sync never writes new metadata.
pub fn reconcile_sync_response(
    item: &ResponseRouterData<NexixpayTransactionResponse, PaymentsSyncRouterData>,
) -> (r: Result<TransactionOutcome, ConnectorError>)
    ensures
        r matches Ok(out) && if spec_attempt_status(item.response.operation_result)
            == AttemptStatus::Failure {
            spec_decline_outcome(
                out,
                item.data.status,
                item.response.operation_result,
                item.http_code,
            )
        } else {
            &&& out.status == spec_attempt_status(item.response.operation_result)
            &&& out.response matches Ok(PaymentsResponseData::TransactionResponse {
                resource_id,
                redirection_data,
                mandate_reference,
                connector_metadata,
                connector_response_reference_id,
            })
            &&& resource_id matches ResponseId::ConnectorTransactionId(t) && t@
                == item.response.order_id@
            &&& redirection_data is None
            &&& mandate_reference matches Some(mr) && opt_str_view(mr.connector_mandate_id)
                == opt_str_view(item.data.connector_mandate_request_reference_id)
            &&& opt_str_view(connector_metadata) == opt_str_view(
                item.data.request.connector_meta,
            )
            &&& connector_response_reference_id matches Some(rr) && rr@ == item.response.order_id@
        },
{
    let status = AttemptStatus::from(item.response.operation_result);
    match status {
        AttemptStatus::Failure => Ok(
            TransactionOutcome {
                status: item.data.status,
                response: Err(
                    get_error_response(item.response.operation_result, item.http_code),
                ),
            },
        ),
        _ => Ok(
            TransactionOutcome {
                status,
                response: Ok(
                    PaymentsResponseData::TransactionResponse {
                        resource_id: ResponseId::ConnectorTransactionId(
                            item.response.order_id.clone(),
                        ),
                        redirection_data: None,
                        mandate_reference: Some(
                            MandateReference {
                                connector_mandate_id: crate::metadata::clone_opt_string(
                                    &item.data.connector_mandate_request_reference_id,
                                ),
                            },
                        ),
                        connector_metadata: crate::metadata::clone_opt_string(
                            &item.data.request.connector_meta,
                        ),
                        connector_response_reference_id: Some(item.response.order_id.clone()),
                    },
                ),
            },
        ),
    }
}

/// The metadata update written at capture time: the capture operation id
/// and the capture sync-flow hint.
pub open spec fn spec_capture_update(op: Seq<char>) -> crate::metadata::UpdateMetaDataView {
    crate::metadata::UpdateMetaDataView {
        three_d_s_auth_result: None,
        three_d_s_auth_response: None,
        authorization_operation_id: None,
        capture_operation_id: Some(op),
        cancel_operation_id: None,
        psync_flow: Some(NexixpayPaymentIntent::Capture),
        is_auto_capture: false,
    }
}

/// The metadata update written at cancel time: the cancel operation id and
/// the cancel sync-flow hint.
pub open spec fn spec_cancel_update(op: Seq<char>) -> crate::metadata::UpdateMetaDataView {
    crate::metadata::UpdateMetaDataView {
        three_d_s_auth_result: None,
        three_d_s_auth_response: None,
        authorization_operation_id: None,
        capture_operation_id: None,
        cancel_operation_id: Some(op),
        psync_flow: Some(NexixpayPaymentIntent::Cancel),
        is_auto_capture: false,
    }
}

/// What a capture or cancel outcome holds: the pending status — the
/// provider's synchronous response for these calls reports no settlement
/// state — the prior transaction id, and the updated metadata blob.
pub open spec fn spec_operation_outcome(
    out: TransactionOutcome,
    transaction_id: String,
    blob_view: Seq<char>,
) -> bool {
    &&& out.status == AttemptStatus::Pending
    &&& out.response matches Ok(PaymentsResponseData::TransactionResponse {
        resource_id,
        redirection_data,
        mandate_reference,
        connector_metadata,
        connector_response_reference_id,
    })
    &&& resource_id matches ResponseId::ConnectorTransactionId(t) && t@ == transaction_id@
    &&& redirection_data is None
    &&& mandate_reference is None
    &&& connector_metadata matches Some(blob) && blob@ == blob_view
    &&& connector_response_reference_id matches Some(rr) && rr@ == transaction_id@
}

/// Reconciles a capture response: the wire response carries only an
/// operation id and no status, so the outcome is pending; the capture
/// operation id and sync-flow hint are merged into the persisted metadata.
pub fn reconcile_capture_response(
    item: &ResponseRouterData<NexixpayOperationResponse, PaymentsCaptureRouterData>,
) -> (r: Result<TransactionOutcome, ConnectorError>)
    ensures
        match r {
            Ok(out) => {
                &&& item.data.request.connector_meta matches Some(md)
                &&& crate::codec::spec_decode_metadata(md@) matches Some(m)
                &&& spec_operation_outcome(
                    out,
                    item.data.request.connector_transaction_id,
                    spec_encode_metadata(
                        spec_merge(m, spec_capture_update(item.response.operation_id@)),
                    ),
                )
            },
            Err(e) => if item.data.request.connector_meta is None {
                is_missing_field_err(e, "connector_meta_data"@)
            } else {
                crate::codec::spec_decode_metadata(item.data.request.connector_meta->Some_0@)
                    is None && e matches ConnectorError::ParsingFailed
            },
        },
{
    let meta_data = match &item.data.request.connector_meta {
        Some(md) => md.clone(),
        None => {
            return Err(
                ConnectorError::MissingRequiredField {
                    field_name: "connector_meta_data".to_owned(),
                },
            );
        },
    };
    let connector_metadata = match update_nexi_meta_data(
        UpdateNexixpayConnectorMetaData {
            three_d_s_auth_result: None,
            three_d_s_auth_response: None,
            authorization_operation_id: None,
            capture_operation_id: Some(item.response.operation_id.clone()),
            cancel_operation_id: None,
            psync_flow: Some(NexixpayPaymentIntent::Capture),
            meta_data,
            is_auto_capture: false,
        },
    ) {
        Ok(blob) => blob,
        Err(e) => {
            return Err(e);
        },
    };
    Ok(
        TransactionOutcome {
            // the provider's capture response reports no settlement state
            status: AttemptStatus::Pending,
            response: Ok(
                PaymentsResponseData::TransactionResponse {
                    resource_id: ResponseId::ConnectorTransactionId(
                        item.data.request.connector_transaction_id.clone(),
                    ),
                    redirection_data: None,
                    mandate_reference: None,
                    connector_metadata: Some(connector_metadata),
                    connector_response_reference_id: Some(
                        item.data.request.connector_transaction_id.clone(),
                    ),
                },
            ),
        },
    )
}

/// Reconciles a cancel response: as for capture, the outcome is pending;
/// the cancel operation id and sync-flow hint are merged into the persisted
/// metadata.
pub fn reconcile_cancel_response(
    item: &ResponseRouterData<NexixpayOperationResponse, PaymentsCancelRouterData>,
) -> (r: Result<TransactionOutcome, ConnectorError>)
    ensures
        match r {
            Ok(out) => {
                &&& item.data.request.connector_meta matches Some(md)
                &&& crate::codec::spec_decode_metadata(md@) matches Some(m)
                &&& spec_operation_outcome(
                    out,
                    item.data.request.connector_transaction_id,
                    spec_encode_metadata(
                        spec_merge(m, spec_cancel_update(item.response.operation_id@)),
                    ),
                )
            },
            Err(e) => if item.data.request.connector_meta is None {
                is_missing_field_err(e, "connector_meta_data"@)
            } else {
                crate::codec::spec_decode_metadata(item.data.request.connector_meta->Some_0@)
                    is None && e matches ConnectorError::ParsingFailed
            },
        },
{
    let meta_data = match &item.data.request.connector_meta {
        Some(md) => md.clone(),
        None => {
            return Err(
                ConnectorError::MissingRequiredField {
                    field_name: "connector_meta_data".to_owned(),
                },
            );
        },
    };
    let connector_metadata = match update_nexi_meta_data(
        UpdateNexixpayConnectorMetaData {
            three_d_s_auth_result: None,
            three_d_s_auth_response: None,
            authorization_operation_id: None,
            capture_operation_id: None,
            cancel_operation_id: Some(item.response.operation_id.clone()),
            psync_flow: Some(NexixpayPaymentIntent::Cancel),
            meta_data,
            is_auto_capture: false,
        },
    ) {
        Ok(blob) => blob,
        Err(e) => {
            return Err(e);
        },
    };
    Ok(
        TransactionOutcome {
            // the provider's cancel response reports no settlement state
            status: AttemptStatus::Pending,
            response: Ok(
                PaymentsResponseData::TransactionResponse {
                    resource_id: ResponseId::ConnectorTransactionId(
                        item.data.request.connector_transaction_id.clone(),
                    ),
                    redirection_data: None,
                    mandate_reference: None,
                    connector_metadata: Some(connector_metadata),
                    connector_response_reference_id: Some(
                        item.data.request.connector_transaction_id.clone(),
                    ),
                },
            ),
        },
    )
}

/// Reconciles a refund-execute response: the execute call reports no
/// status, so the refund is pending, under the provider's refund id.
pub fn reconcile_refund_execute_response(response: &RefundResponse) -> (r: RefundsResponseData)
    ensures
        r.connector_refund_id@ == response.operation_id@,
        r.refund_status is Pending,
{
    RefundsResponseData {
        connector_refund_id: response.operation_id.clone(),
        // the provider's refund-execute response reports no status
        refund_status: RefundStatus::Pending,
    }
}

/// Reconciles a refund-sync response: maps the refund-specific status enum
/// through the refund mapping table.
pub fn reconcile_refund_sync_response(response: &NexixpayRSyncResponse) -> (r: RefundsResponseData)
    ensures
        r.connector_refund_id@ == response.operation_id@,
        r.refund_status == spec_refund_status(response.operation_result),
{
    RefundsResponseData {
        connector_refund_id: response.operation_id.clone(),
        refund_status: RefundStatus::from(response.operation_result),
    }
}

} // verus!
