//! Error taxonomy of the adapter: validation failures, unsupported
//! operations, parsing failures, and the structured error response built
//! from a provider decline.

use vstd::prelude::*;
use crate::status::NexixpayPaymentStatus;
use crate::status::spec_status_wire_name;

verus! {

/// Every way a request builder or response reconciler can refuse to proceed.
#[derive(Debug, Clone, PartialEq, Eq)]
pub enum ConnectorError {
    /// A source field exceeds the provider's length limit for it.
    MaxFieldLengthViolated { field_name: String, connector: String, max_length: usize, received_length: usize },
    /// A field the flow needs is absent from the context.
    MissingRequiredField { field_name: String },
    /// The redirect-callback payload is absent or cannot be parsed.
    MissingConnectorRedirectionPayload { field_name: String },
    /// A mandate flow references a contract, but no contract id is present.
    MissingConnectorMandateID,
    /// The payment-method variant is not implemented for this provider.
    NotImplemented(String),
    /// The operation is understood but not supported by this provider.
    NotSupported { message: String, connector: String },
    /// The requested capture method is not supported for this flow.
    FlowNotSupported { flow: String, connector: String },
    /// The requested capture method has no auto-capture classification.
    CaptureMethodNotSupported,
    /// The persisted metadata blob is malformed.
    ParsingFailed,
    /// The wire response cannot be interpreted.
    ResponseDeserializationFailed,
    /// The supplied credentials are not in the shape this provider takes.
    FailedToObtainAuthType,
}

/// Says of an error that it is a length violation of exactly this composite
/// field, with this limit and this received length, for this provider.
pub open spec fn is_max_length_err(
    e: ConnectorError,
    field: Seq<char>,
    max: int,
    got: int,
) -> bool {
    e matches ConnectorError::MaxFieldLengthViolated {
        field_name,
        connector,
        max_length,
        received_length,
    } && field_name@ == field && connector@ == "Nexixpay"@ && max_length == max
        && received_length == got
}

/// Says of an error that it reports exactly this required field as missing.
pub open spec fn is_missing_field_err(e: ConnectorError, field: Seq<char>) -> bool {
    e matches ConnectorError::MissingRequiredField { field_name } && field_name@ == field
}

/// Says of an error that it refuses exactly this capture-method flow.
pub open spec fn is_flow_not_supported_err(e: ConnectorError, flow: Seq<char>) -> bool {
    e matches ConnectorError::FlowNotSupported { flow: f, connector } && f@ == flow && connector@
        == "Nexixpay"@
}

/// Says of an error that it refuses a card payment without 3-D-Secure.
pub open spec fn is_no_threeds_err(e: ConnectorError) -> bool {
    e matches ConnectorError::NotSupported { message, connector } && message@
        == "No threeds is not supported"@ && connector@ == "nexixpay"@
}

/// Says of an error that it refuses an unimplemented payment method.
pub open spec fn is_not_implemented_err(e: ConnectorError) -> bool {
    e matches ConnectorError::NotImplemented(m) && m@ == spec_unimplemented_method_message()
}

/// Sentinel used where the provider supplies no numeric error code.
pub open spec fn spec_no_error_code() -> Seq<char> {
    "No error code"@
}

/// The error code text used where the provider supplies none.
pub fn no_error_code() -> (r: String)
    ensures
        r@ == spec_no_error_code(),
{
    "No error code".to_owned()
}

/// Message attached to a payment-method variant this provider does not take.
pub open spec fn spec_unimplemented_method_message() -> Seq<char> {
    "Selected payment method through nexixpay"@
}

/// The message for a payment-method variant this provider does not take.
pub fn unimplemented_method_message() -> (r: String)
    ensures
        r@ == spec_unimplemented_method_message(),
{
    "Selected payment method through nexixpay".to_owned()
}

/// Structured error handed back when the provider declines: the provider's
/// status text serves as both message and reason, and no numeric error code
/// is available.
#[derive(Debug, Clone, PartialEq, Eq)]
pub struct ErrorResponse {
    pub status_code: u16,
    pub code: String,
    pub message: String,
    pub reason: Option<String>,
    pub attempt_status: Option<crate::status::AttemptStatus>,
    pub connector_transaction_id: Option<String>,
}

/// Says of an already-built error response that it is exactly the decline
/// response for the given provider status and HTTP status code.
pub open spec fn is_error_response_for(
    r: ErrorResponse,
    operation_result: NexixpayPaymentStatus,
    status_code: u16,
) -> bool {
    &&& r.status_code == status_code
    &&& r.code@ == spec_no_error_code()
    &&& r.message@ == spec_status_wire_name(operation_result)
    &&& r.reason matches Some(t) && t@ == spec_status_wire_name(operation_result)
    &&& r.attempt_status is None
    &&& r.connector_transaction_id is None
}

/// Builds the error response for a provider status that mapped to a failure:
/// the status text is used as both message and reason, with the sentinel
/// code, and the HTTP status of the wire response is carried verbatim.
pub fn get_error_response(
    operation_result: NexixpayPaymentStatus,
    status_code: u16,
) -> (r: ErrorResponse)
    ensures
        is_error_response_for(r, operation_result, status_code),
{
    ErrorResponse {
        status_code,
        code: no_error_code(),
        message: operation_result.wire_name(),
        reason: Some(operation_result.wire_name()),
        attempt_status: None,
        connector_transaction_id: None,
    }
}

} // verus!
