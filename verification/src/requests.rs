//! Request builders: one per payment-lifecycle operation, each a pure
//! transformation from the flow context and amount to the provider's wire
//! request shape, enforcing the provider's identifier-length and capture
//! policies.

use vstd::prelude::*;
use crate::address::BillingAddress;
use crate::address::RawAddress;
use crate::address::ShippingAddress;
use crate::address::get_validated_billing_address;
use crate::address::get_validated_shipping_address;
use crate::address::spec_address_violation_err;
use crate::address::spec_address_within_limits;
use crate::address::spec_validated_fields;
use crate::address::AddressKind;
use crate::context::Card;
use crate::context::CaptureMethod;
use crate::context::ConnectorAuthType;
use crate::context::MandateReferenceId;
use crate::context::NexixpayRouterData;
use crate::context::PaymentMethodData;
use crate::context::PaymentsAuthorizeRouterData;
use crate::context::PaymentsCancelRouterData;
use crate::context::PaymentsCaptureRouterData;
use crate::context::PaymentsCompleteAuthorizeRouterData;
use crate::context::PaymentsPreProcessingRouterData;
use crate::context::RefundsRouterData;
use crate::errors::ConnectorError;
use crate::errors::is_max_length_err;
use crate::errors::is_missing_field_err;
use crate::errors::is_flow_not_supported_err;
use crate::metadata::opt_str_view;

verus! {

pub const MAX_ORDER_ID_LENGTH: usize = 18;

pub const MAX_CARD_HOLDER_LENGTH: usize = 255;

/// Recurrence directive carried on a mandate-creating request.
#[derive(Debug, Clone, Copy, PartialEq, Eq, Structural)]
pub enum NexixpayRecurringAction {
    NoRecurring,
    SubsequentPayment,
    ContractCreation,
}

/// Contract type of a recurrence directive.
#[derive(Debug, Clone, Copy, PartialEq, Eq, Structural)]
pub enum ContractType {
    MitUnscheduled,
    MitScheduled,
    Cit,
}

/// The recurrence block of a wire request.
#[derive(Debug, Clone, PartialEq, Eq)]
pub struct RecurrenceRequest {
    pub action: NexixpayRecurringAction,
    pub contract_id: String,
    pub contract_type: ContractType,
}

/// Whether funds capture happens with authorization or by a separate call.
#[derive(Debug, Clone, Copy, PartialEq, Eq, Structural)]
pub enum NexixpayCaptureType {
    Implicit,
    Explicit,
}

/// Card fields as they go on the wire.
#[derive(Debug, Clone, PartialEq, Eq)]
pub struct NexixpayCard {
    pub pan: String,
    pub expiry_date: String,
}

/// Customer block of an order: cardholder name plus validated addresses.
#[derive(Debug, Clone, PartialEq, Eq)]
pub struct CustomerInfo {
    pub card_holder_name: String,
    pub billing_address: Option<BillingAddress>,
    pub shipping_address: Option<ShippingAddress>,
}

/// The order block shared by authorize and complete-authorize requests.
#[derive(Debug, Clone, PartialEq, Eq)]
pub struct Order {
    pub order_id: String,
    pub amount: String,
    pub currency: String,
    pub description: Option<String>,
    pub customer_info: CustomerInfo,
}

/// Card-flow authorize request body.
#[derive(Debug, Clone, PartialEq, Eq)]
pub struct NexixpayNonMandatePaymentRequest {
    pub card: NexixpayCard,
    pub recurrence: Option<RecurrenceRequest>,
}

/// Reduced request body for a payment that charges an existing contract.
#[derive(Debug, Clone, PartialEq, Eq)]
pub struct NexixpayMandatePaymentRequest {
    pub contract_id: String,
    pub capture_type: Option<NexixpayCaptureType>,
}

/// The two authorize request shapes, selected by mandate presence.
#[derive(Debug, Clone, PartialEq, Eq)]
pub enum NexixpayPaymentsRequestData {
    NexixpayNonMandatePaymentRequest(Box<NexixpayNonMandatePaymentRequest>),
    NexixpayMandatePaymentRequest(Box<NexixpayMandatePaymentRequest>),
}

/// The authorize wire request: an order plus one of the two payment shapes.
#[derive(Debug, Clone, PartialEq, Eq)]
pub struct NexixpayPaymentsRequest {
    pub order: Order,
    pub payment_data: NexixpayPaymentsRequestData,
}

/// 3-D-Secure authentication payload of a complete-authorize request.
#[derive(Debug, Clone, PartialEq, Eq)]
pub struct ThreeDSAuthData {
    pub three_d_s_auth_response: Option<String>,
    pub authentication_value: Option<String>,
}

/// The complete-authorize wire request, sent after the 3-D-Secure challenge.
#[derive(Debug, Clone, PartialEq, Eq)]
pub struct NexixpayCompleteAuthorizeRequest {
    pub order: Order,
    pub card: NexixpayCard,
    pub operation_id: String,
    pub capture_type: Option<NexixpayCaptureType>,
    pub three_d_s_auth_data: ThreeDSAuthData,
    pub recurrence: Option<RecurrenceRequest>,
}

/// The 3-D-Secure continuation request, built from the redirect callback.
#[derive(Debug, Clone, PartialEq, Eq)]
pub struct NexixpayPreProcessingRequest {
    pub operation_id: Option<String>,
    pub three_d_s_auth_response: Option<String>,
}

/// The two logical fields extracted from a redirect-callback payload.
#[derive(Debug, Clone, PartialEq, Eq)]
pub struct RedirectPayload {
    pub pa_res: Option<String>,
    pub payment_id: Option<String>,
}

/// The capture wire request.
#[derive(Debug, Clone, PartialEq, Eq)]
pub struct NexixpayPaymentsCaptureRequest {
    pub amount: String,
    pub currency: String,
}

/// The cancel wire request.
#[derive(Debug, Clone, PartialEq, Eq)]
pub struct NexixpayPaymentsCancelRequest {
    pub description: Option<String>,
    pub amount: String,
    pub currency: String,
}

/// The refund wire request.
#[derive(Debug, Clone, PartialEq, Eq)]
pub struct NexixpayRefundRequest {
    pub amount: String,
    pub currency: String,
}

/// The provider credential: one opaque API key.
#[derive(Debug, Clone, PartialEq, Eq)]
pub struct NexixpayAuthType {
    pub api_key: String,
}

impl NexixpayAuthType {
    /// Accepts exactly the single-header-key credential shape.
    pub fn try_from(auth_type: &ConnectorAuthType) -> (r: Result<Self, ConnectorError>)
        ensures
            match r {
                Ok(a) => auth_type matches ConnectorAuthType::HeaderKey { api_key } && a.api_key@
                    == api_key@,
                Err(e) => !(auth_type matches ConnectorAuthType::HeaderKey { .. }) && e matches
                    ConnectorError::FailedToObtainAuthType,
            },
    {
        match auth_type {
            ConnectorAuthType::HeaderKey { api_key } => Ok(Self { api_key: api_key.clone() }),
            _ => Err(ConnectorError::FailedToObtainAuthType),
        }
    }
}

/// The flow name each capture method is reported under when refused.
pub open spec fn spec_capture_method_name(m: CaptureMethod) -> Seq<char> {
    match m {
        CaptureMethod::Automatic => "automatic"@,
        CaptureMethod::Manual => "manual"@,
        CaptureMethod::ManualMultiple => "manual_multiple"@,
        CaptureMethod::Scheduled => "scheduled"@,
        CaptureMethod::SequentialAutomatic => "sequential_automatic"@,
    }
}

/// Derives the provider's capture type from the requested capture method:
/// manual capture is explicit, automatic (in any form, or unspecified) is
/// implicit, anything else is refused as an unsupported flow.
pub fn get_nexixpay_capture_type(item: Option<CaptureMethod>) -> (r: Result<
    Option<NexixpayCaptureType>,
    ConnectorError,
>)
    ensures
        match r {
            Ok(t) => match item {
                Some(CaptureMethod::Manual) => t matches Some(NexixpayCaptureType::Explicit),
                Some(CaptureMethod::Automatic) | Some(CaptureMethod::SequentialAutomatic)
                | None => t matches Some(NexixpayCaptureType::Implicit),
                _ => false,
            },
            Err(e) => item matches Some(m) && (m is ManualMultiple || m is Scheduled)
                && is_flow_not_supported_err(e, spec_capture_method_name(m)),
        },
{
    match item {
        Some(CaptureMethod::Manual) => Ok(Some(NexixpayCaptureType::Explicit)),
        Some(CaptureMethod::Automatic) | Some(CaptureMethod::SequentialAutomatic) | None => Ok(
            Some(NexixpayCaptureType::Implicit),
        ),
        Some(CaptureMethod::ManualMultiple) => Err(
            ConnectorError::FlowNotSupported {
                flow: "manual_multiple".to_owned(),
                connector: "Nexixpay".to_owned(),
            },
        ),
        Some(CaptureMethod::Scheduled) => Err(
            ConnectorError::FlowNotSupported {
                flow: "scheduled".to_owned(),
                connector: "Nexixpay".to_owned(),
            },
        ),
    }
}

/// Whether the transaction settles together with authorization: true for
/// automatic capture in any form or an unspecified method, false for manual
/// capture; other methods have no auto-capture classification.
pub fn is_auto_capture(capture_method: Option<CaptureMethod>) -> (r: Result<bool, ConnectorError>)
    ensures
        match r {
            Ok(b) => match capture_method {
                Some(CaptureMethod::Automatic) | Some(CaptureMethod::SequentialAutomatic)
                | None => b,
                Some(CaptureMethod::Manual) => !b,
                _ => false,
            },
            Err(e) => capture_method matches Some(m) && (m is ManualMultiple || m is Scheduled)
                && e matches ConnectorError::CaptureMethodNotSupported,
        },
{
    match capture_method {
        Some(CaptureMethod::Automatic) | Some(CaptureMethod::SequentialAutomatic) | None => Ok(
            true,
        ),
        Some(CaptureMethod::Manual) => Ok(false),
        Some(CaptureMethod::ManualMultiple) | Some(CaptureMethod::Scheduled) => Err(
            ConnectorError::CaptureMethodNotSupported,
        ),
    }
}

/// Whether a character is in the order-id alphabet: an ASCII letter or
/// digit.
pub open spec fn spec_is_alnum_char(c: char) -> bool {
    ('0' <= c && c <= '9') || ('a' <= c && c <= 'z') || ('A' <= c && c <= 'Z')
}

/// Whether every character of the sequence is an ASCII letter or digit.
pub open spec fn spec_is_alphanumeric(s: Seq<char>) -> bool {
    forall|i: int| 0 <= i < s.len() ==> spec_is_alnum_char(s[i])
}

/// Whether a payment id carries the known internal-generation prefix.
pub open spec fn spec_has_internal_prefix(s: Seq<char>) -> bool {
    s.len() >= 4 && s[0] == 'p' && s[1] == 'a' && s[2] == 'y' && s[3] == '_'
}

/// Relies on rand's `Alphanumeric` distribution through
/// `DistString::sample_string`: the sampled string holds exactly the asked
/// number of characters, each drawn from the ASCII letters and digits.
#[verifier::external_body]
fn get_random_string() -> (r: String)
    ensures
        r@.len() == MAX_ORDER_ID_LENGTH as int,
        spec_is_alphanumeric(r@),
{
    rand::distributions::DistString::sample_string(
        &rand::distributions::Alphanumeric,
        &mut rand::thread_rng(),
        MAX_ORDER_ID_LENGTH,
    )
}

/// The order-id policy: a payment id within the length limit is used as is;
/// a longer one with the internal-generation prefix is replaced by a random
/// alphanumeric id of exactly the limit length; a longer one without the
/// prefix is a length violation naming `payment_id`.
pub fn build_order_id(payment_id: &String) -> (r: Result<String, ConnectorError>)
    ensures
        match r {
            Ok(id) => if payment_id@.len() <= MAX_ORDER_ID_LENGTH as int {
                id@ == payment_id@
            } else {
                &&& spec_has_internal_prefix(payment_id@)
                &&& id@.len() == MAX_ORDER_ID_LENGTH as int
                &&& spec_is_alphanumeric(id@)
            },
            Err(e) => {
                &&& payment_id@.len() > MAX_ORDER_ID_LENGTH as int
                &&& !spec_has_internal_prefix(payment_id@)
                &&& is_max_length_err(
                    e,
                    "payment_id"@,
                    MAX_ORDER_ID_LENGTH as int,
                    payment_id@.len() as int,
                )
            },
        },
{
    let s = payment_id.as_str();
    let n = s.unicode_len();
    if n > MAX_ORDER_ID_LENGTH {
        if s.get_char(0) == 'p' && s.get_char(1) == 'a' && s.get_char(2) == 'y' && s.get_char(3)
            == '_' {
            Ok(get_random_string())
        } else {
            Err(
                ConnectorError::MaxFieldLengthViolated {
                    field_name: "payment_id".to_owned(),
                    connector: "Nexixpay".to_owned(),
                    max_length: MAX_ORDER_ID_LENGTH,
                    received_length: n,
                },
            )
        }
    } else {
        Ok(payment_id.clone())
    }
}

/// The expiry text sent on the wire: the month as given, a slash, and the
/// last two characters of the year.
pub open spec fn spec_mmyy(month: Seq<char>, year: Seq<char>) -> Seq<char> {
    month + "/"@ + year.skip(year.len() - 2)
}

impl Card {
    /// Formats the card expiry as the wire's month/year text.
    pub fn get_expiry_date_as_mmyy(&self) -> (r: String)
        requires
            self.card_exp_year@.len() >= 2,
        ensures
            r@ == spec_mmyy(self.card_exp_month@, self.card_exp_year@),
    {
        let mut s = self.card_exp_month.clone();
        s.append("/");
        let y = self.card_exp_year.as_str();
        let n = y.unicode_len();
        s.append(y.substring_char(n - 2, n));
        proof {
            assert(s@ =~= spec_mmyy(self.card_exp_month@, self.card_exp_year@));
        }
        s
    }
}

impl NexixpayPaymentsCaptureRequest {
    /// The capture request carries only the amount and the currency.
    pub fn try_from(item: &NexixpayRouterData<PaymentsCaptureRouterData>) -> (r: Result<
        Self,
        ConnectorError,
    >)
        ensures
            r matches Ok(req) && req.amount@ == item.amount@ && req.currency@
                == item.router_data.request.currency@,
    {
        Ok(
            Self {
                amount: item.amount.clone(),
                currency: item.router_data.request.currency.clone(),
            },
        )
    }
}

impl NexixpayPaymentsCancelRequest {
    /// The cancel request carries the amount, an optional cancellation
    /// reason, and the currency, which must be explicitly present in this
    /// flow: its absence is a required-field failure.
    pub fn try_from(item: NexixpayRouterData<PaymentsCancelRouterData>) -> (r: Result<
        Self,
        ConnectorError,
    >)
        ensures
            match r {
                Ok(req) => {
                    &&& item.router_data.request.currency matches Some(c) && req.currency@ == c@
                    &&& req.amount@ == item.amount@
                    &&& opt_str_view(req.description) == opt_str_view(
                        item.router_data.request.cancellation_reason,
                    )
                },
                Err(e) => item.router_data.request.currency is None && is_missing_field_err(
                    e,
                    "currency"@,
                ),
            },
    {
        let description = match &item.router_data.request.cancellation_reason {
            Some(v) => Some(v.clone()),
            None => None,
        };
        let currency = match &item.router_data.request.currency {
            Some(c) => c.clone(),
            None => {
                return Err(
                    ConnectorError::MissingRequiredField { field_name: "currency".to_owned() },
                );
            },
        };
        Ok(Self { amount: item.amount, currency, description })
    }
}

impl NexixpayRefundRequest {
    /// The refund request carries only the amount and the currency.
    pub fn try_from(item: &NexixpayRouterData<RefundsRouterData>) -> (r: Result<
        Self,
        ConnectorError,
    >)
        ensures
            r matches Ok(req) && req.amount@ == item.amount@ && req.currency@
                == item.router_data.request.currency@,
    {
        Ok(
            Self {
                amount: item.amount.clone(),
                currency: item.router_data.request.currency.clone(),
            },
        )
    }
}

impl NexixpayPreProcessingRequest {
    /// Extracts the authentication response token and operation id from the
    /// redirect callback: fails distinctly where the redirect response is
    /// absent, where its payload is absent, and where the payload does not
    /// parse.
    pub fn try_from(item: &PaymentsPreProcessingRouterData) -> (r: Result<Self, ConnectorError>)
        ensures
            match r {
                Ok(req) => {
                    &&& item.request.redirect_response matches Some(rr)
                    &&& rr.payload matches Some(p)
                    &&& crate::codec::spec_decode_redirect(p@) matches Some((pa_res, payment_id))
                    &&& opt_str_view(req.three_d_s_auth_response) == pa_res
                    &&& opt_str_view(req.operation_id) == payment_id
                },
                Err(e) => match item.request.redirect_response {
                    None => is_missing_field_err(e, "redirect_response"@),
                    Some(rr) => match rr.payload {
                        None => (e matches ConnectorError::MissingConnectorRedirectionPayload {
                            field_name,
                        } && field_name@ == "request.redirect_response.payload"@),
                        Some(p) => crate::codec::spec_decode_redirect(p@) is None && (e matches
                            ConnectorError::MissingConnectorRedirectionPayload { field_name }
                            && field_name@ == "redirection_payload"@),
                    },
                },
            },
    {
        let redirect_response = match &item.request.redirect_response {
            Some(rr) => rr,
            None => {
                return Err(
                    ConnectorError::MissingRequiredField {
                        field_name: "redirect_response".to_owned(),
                    },
                );
            },
        };
        let payload = match &redirect_response.payload {
            Some(p) => p,
            None => {
                return Err(
                    ConnectorError::MissingConnectorRedirectionPayload {
                        field_name: "request.redirect_response.payload".to_owned(),
                    },
                );
            },
        };
        let (pa_res, payment_id) = match crate::codec::decode_redirect_payload(payload.as_str()) {
            Some(p) => p,
            None => {
                return Err(
                    ConnectorError::MissingConnectorRedirectionPayload {
                        field_name: "redirection_payload".to_owned(),
                    },
                );
            },
        };
        Ok(Self { operation_id: payment_id, three_d_s_auth_response: pa_res })
    }
}

/// The wire capture type that a capture method yields where it is accepted.
pub open spec fn spec_capture_type_ok(
    method: Option<CaptureMethod>,
    t: Option<NexixpayCaptureType>,
) -> bool {
    match method {
        Some(CaptureMethod::Manual) => t matches Some(NexixpayCaptureType::Explicit),
        Some(CaptureMethod::Automatic) | Some(CaptureMethod::SequentialAutomatic) | None => (t
            matches Some(NexixpayCaptureType::Implicit)),
        _ => false,
    }
}

/// The recurrence block owed on a request: a contract-creation directive
/// with the unscheduled merchant-initiated contract type and the mandate
/// request reference as contract id where the transaction sets up a
/// mandate, nothing otherwise.
pub open spec fn spec_recurrence_ok(
    is_mandate_payment: bool,
    cmrid: Option<String>,
    rec: Option<RecurrenceRequest>,
) -> bool {
    if is_mandate_payment {
        &&& cmrid matches Some(cid)
        &&& rec matches Some(r)
        &&& r.action is ContractCreation
        &&& r.contract_type is MitUnscheduled
        &&& r.contract_id@ == cid@
    } else {
        rec is None
    }
}

/// Builds the recurrence block for a mandate-creating transaction.
fn build_recurrence(is_mandate_payment: bool, cmrid: &Option<String>) -> (r: Result<
    Option<RecurrenceRequest>,
    ConnectorError,
>)
    ensures
        match r {
            Ok(rec) => spec_recurrence_ok(is_mandate_payment, *cmrid, rec),
            Err(e) => is_mandate_payment && cmrid is None && is_missing_field_err(
                e,
                "connector_mandate_request_reference_id"@,
            ),
        },
{
    if is_mandate_payment {
        let contract_id = match cmrid {
            Some(c) => c.clone(),
            None => {
                return Err(
                    ConnectorError::MissingRequiredField {
                        field_name: "connector_mandate_request_reference_id".to_owned(),
                    },
                );
            },
        };
        Ok(
            Some(
                RecurrenceRequest {
                    action: NexixpayRecurringAction::ContractCreation,
                    contract_id,
                    contract_type: ContractType::MitUnscheduled,
                },
            ),
        )
    } else {
        Ok(None)
    }
}

/// A card's expiry year, where present, is long enough to take its last two
/// characters.
pub open spec fn spec_card_year_ok(pm: &PaymentMethodData) -> bool {
    pm matches PaymentMethodData::Card(c) ==> c.card_exp_year@.len() >= 2
}

/// What the payment-data shape of a successful authorize build holds, by
/// mandate presence: the card shape with the formatted card and the owed
/// recurrence block where no mandate is referenced, the reduced contract
/// shape where a connector mandate id is bound.
pub open spec fn spec_payment_data_ok(
    d: &PaymentsAuthorizeRouterData,
    r: NexixpayPaymentsRequestData,
) -> bool {
    match d.request.mandate_reference_id {
        None => {
            &&& d.request.payment_method_data matches PaymentMethodData::Card(c)
            &&& d.auth_type is ThreeDs
            &&& r matches NexixpayPaymentsRequestData::NexixpayNonMandatePaymentRequest(b)
            &&& b.card.pan@ == c.card_number@
            &&& b.card.expiry_date@ == spec_mmyy(c.card_exp_month@, c.card_exp_year@)
            &&& spec_recurrence_ok(
                d.request.is_mandate_payment,
                d.connector_mandate_request_reference_id,
                b.recurrence,
            )
        },
        Some(
            MandateReferenceId::ConnectorMandateId { connector_mandate_request_reference_id: cm },
        ) => {
            &&& cm matches Some(cid)
            &&& r matches NexixpayPaymentsRequestData::NexixpayMandatePaymentRequest(b)
            &&& b.contract_id@ == cid@
            &&& spec_capture_type_ok(d.request.capture_method, b.capture_type)
        },
        Some(_) => false,
    }
}

/// The error an authorize payment-data build reports, by the first failing
/// check in evaluation order.
pub open spec fn spec_payment_data_err(d: &PaymentsAuthorizeRouterData, e: ConnectorError) -> bool {
    match d.request.mandate_reference_id {
        None => if d.request.is_mandate_payment && d.connector_mandate_request_reference_id
            is None {
            is_missing_field_err(e, "connector_mandate_request_reference_id"@)
        } else {
            match d.request.payment_method_data {
                PaymentMethodData::Card(_) => d.auth_type is NoThreeDs
                    && crate::errors::is_no_threeds_err(e),
                _ => crate::errors::is_not_implemented_err(e),
            }
        },
        Some(
            MandateReferenceId::ConnectorMandateId { connector_mandate_request_reference_id: cm },
        ) => if cm is None {
            e matches ConnectorError::MissingConnectorMandateID
        } else {
            d.request.capture_method matches Some(m) && (m is ManualMultiple || m is Scheduled)
                && is_flow_not_supported_err(e, spec_capture_method_name(m))
        },
        Some(_) => crate::errors::is_not_implemented_err(e),
    }
}

impl NexixpayPaymentsRequestData {
    /// Selects the request shape by mandate presence: no mandate reference
    /// yields the card shape, which requires a card paying with 3-D-Secure;
    /// a bound connector mandate yields the reduced contract shape; network
    /// mandate references are not implemented.
    pub fn try_from(item: &NexixpayRouterData<PaymentsAuthorizeRouterData>) -> (r: Result<
        Self,
        ConnectorError,
    >)
        requires
            spec_card_year_ok(&item.router_data.request.payment_method_data),
        ensures
            match r {
                Ok(pd) => spec_payment_data_ok(&item.router_data, pd),
                Err(e) => spec_payment_data_err(&item.router_data, e),
            },
    {
        let d = &item.router_data;
        match &d.request.mandate_reference_id {
            None => {
                let recurrence = match build_recurrence(
                    d.request.is_mandate_payment,
                    &d.connector_mandate_request_reference_id,
                ) {
                    Ok(rec) => rec,
                    Err(e) => {
                        return Err(e);
                    },
                };
                match &d.request.payment_method_data {
                    PaymentMethodData::Card(req_card) => match d.auth_type {
                        crate::context::AuthenticationType::ThreeDs => Ok(
                            Self::NexixpayNonMandatePaymentRequest(
                                Box::new(
                                    NexixpayNonMandatePaymentRequest {
                                        card: NexixpayCard {
                                            pan: req_card.card_number.clone(),
                                            expiry_date: req_card.get_expiry_date_as_mmyy(),
                                        },
                                        recurrence,
                                    },
                                ),
                            ),
                        ),
                        crate::context::AuthenticationType::NoThreeDs => Err(
                            ConnectorError::NotSupported {
                                message: "No threeds is not supported".to_owned(),
                                connector: "nexixpay".to_owned(),
                            },
                        ),
                    },
                    _ => Err(
                        ConnectorError::NotImplemented(
                            crate::errors::unimplemented_method_message(),
                        ),
                    ),
                }
            },
            Some(
                MandateReferenceId::ConnectorMandateId { connector_mandate_request_reference_id },
            ) => {
                let contract_id = match connector_mandate_request_reference_id {
                    Some(c) => c.clone(),
                    None => {
                        return Err(ConnectorError::MissingConnectorMandateID);
                    },
                };
                let capture_type = match get_nexixpay_capture_type(d.request.capture_method) {
                    Ok(t) => t,
                    Err(e) => {
                        return Err(e);
                    },
                };
                Ok(
                    Self::NexixpayMandatePaymentRequest(
                        Box::new(NexixpayMandatePaymentRequest { contract_id, capture_type }),
                    ),
                )
            },
            Some(MandateReferenceId::NetworkTokenWithNTI)
            | Some(MandateReferenceId::NetworkMandateId) => Err(
                ConnectorError::NotImplemented(crate::errors::unimplemented_method_message()),
            ),
        }
    }
}

/// The order-id policy relation between the source payment id and the order
/// id that went on the wire.
pub open spec fn spec_order_id_ok(payment_id: String, id: String) -> bool {
    if payment_id@.len() <= MAX_ORDER_ID_LENGTH as int {
        id@ == payment_id@
    } else {
        &&& spec_has_internal_prefix(payment_id@)
        &&& id@.len() == MAX_ORDER_ID_LENGTH as int
        &&& spec_is_alphanumeric(id@)
    }
}

/// The cardholder name resolved from the billing address.
pub open spec fn spec_billing_full_name(billing: Option<RawAddress>) -> Option<Seq<char>> {
    match billing {
        Some(a) => opt_str_view(a.full_name),
        None => None,
    }
}

/// A validated billing address against its source.
pub open spec fn spec_billing_ok(src: Option<RawAddress>, out: Option<BillingAddress>) -> bool {
    match src {
        None => out is None,
        Some(a) => spec_address_within_limits(a@) && (out matches Some(b) && b@
            == spec_validated_fields(a@)),
    }
}

/// A validated shipping address against its source.
pub open spec fn spec_shipping_ok(src: Option<RawAddress>, out: Option<ShippingAddress>) -> bool {
    match src {
        None => out is None,
        Some(a) => spec_address_within_limits(a@) && (out matches Some(b) && b@
            == spec_validated_fields(a@)),
    }
}

/// Resolves the cardholder name from the billing address; the name is a
/// required field.
pub fn get_billing_full_name(billing: &Option<RawAddress>) -> (r: Result<String, ConnectorError>)
    ensures
        match r {
            Ok(n) => spec_billing_full_name(*billing) == Some(n@),
            Err(e) => spec_billing_full_name(*billing) is None && is_missing_field_err(
                e,
                "payment_method_data.billing.address.first_name"@,
            ),
        },
{
    match billing {
        Some(a) => match &a.full_name {
            Some(n) => Ok(n.clone()),
            None => Err(
                ConnectorError::MissingRequiredField {
                    field_name: "payment_method_data.billing.address.first_name".to_owned(),
                },
            ),
        },
        None => Err(
            ConnectorError::MissingRequiredField {
                field_name: "payment_method_data.billing.address.first_name".to_owned(),
            },
        ),
    }
}

/// The error an authorize build reports, by the first failing check in
/// evaluation order: order id, billing address, shipping address, missing
/// cardholder name, oversized cardholder name, then the payment-data
/// checks.
pub open spec fn spec_authorize_build_err(
    d: &PaymentsAuthorizeRouterData,
    e: ConnectorError,
) -> bool {
    if d.payment_id@.len() > MAX_ORDER_ID_LENGTH as int && !spec_has_internal_prefix(
        d.payment_id@,
    ) {
        is_max_length_err(e, "payment_id"@, MAX_ORDER_ID_LENGTH as int, d.payment_id@.len() as int)
    } else if d.billing matches Some(a) && !spec_address_within_limits(a@) {
        spec_address_violation_err(d.billing->Some_0@, AddressKind::Billing, e)
    } else if d.shipping matches Some(a) && !spec_address_within_limits(a@) {
        spec_address_violation_err(d.shipping->Some_0@, AddressKind::Shipping, e)
    } else if spec_billing_full_name(d.billing) is None {
        is_missing_field_err(e, "payment_method_data.billing.address.first_name"@)
    } else if spec_billing_full_name(d.billing)->Some_0.len() > MAX_CARD_HOLDER_LENGTH as int {
        is_max_length_err(
            e,
            "billing.address.first_name & billing.address.last_name"@,
            MAX_CARD_HOLDER_LENGTH as int,
            spec_billing_full_name(d.billing)->Some_0.len() as int,
        )
    } else {
        spec_payment_data_err(d, e)
    }
}

impl NexixpayPaymentsRequest {
    /// Builds the authorize wire request: applies the order-id policy,
    /// validates both addresses, resolves and bounds the cardholder name,
    /// assembles the order, and selects the payment-data shape.
    pub fn try_from(item: &NexixpayRouterData<PaymentsAuthorizeRouterData>) -> (r: Result<
        Self,
        ConnectorError,
    >)
        requires
            spec_card_year_ok(&item.router_data.request.payment_method_data),
        ensures
            match r {
                Ok(req) => {
                    &&& spec_order_id_ok(item.router_data.payment_id, req.order.order_id)
                    &&& req.order.amount@ == item.amount@
                    &&& req.order.currency@ == item.router_data.request.currency@
                    &&& opt_str_view(req.order.description) == opt_str_view(
                        item.router_data.description,
                    )
                    &&& spec_billing_full_name(item.router_data.billing) matches Some(n)
                        && req.order.customer_info.card_holder_name@ == n && n.len()
                        <= MAX_CARD_HOLDER_LENGTH as int
                    &&& spec_billing_ok(
                        item.router_data.billing,
                        req.order.customer_info.billing_address,
                    )
                    &&& spec_shipping_ok(
                        item.router_data.shipping,
                        req.order.customer_info.shipping_address,
                    )
                    &&& spec_payment_data_ok(&item.router_data, req.payment_data)
                },
                Err(e) => spec_authorize_build_err(&item.router_data, e),
            },
    {
        let d = &item.router_data;
        let order_id = match build_order_id(&d.payment_id) {
            Ok(id) => id,
            Err(e) => {
                return Err(e);
            },
        };
        let billing_address = match get_validated_billing_address(&d.billing) {
            Ok(b) => b,
            Err(e) => {
                return Err(e);
            },
        };
        let shipping_address = match get_validated_shipping_address(&d.shipping) {
            Ok(s) => s,
            Err(e) => {
                return Err(e);
            },
        };
        let card_holder_name = match get_billing_full_name(&d.billing) {
            Ok(n) => n,
            Err(e) => {
                return Err(e);
            },
        };
        let name_len = card_holder_name.as_str().unicode_len();
        if name_len > MAX_CARD_HOLDER_LENGTH {
            return Err(
                ConnectorError::MaxFieldLengthViolated {
                    field_name: "billing.address.first_name & billing.address.last_name"
                        .to_owned(),
                    connector: "Nexixpay".to_owned(),
                    max_length: MAX_CARD_HOLDER_LENGTH,
                    received_length: name_len,
                },
            );
        }
        let customer_info = CustomerInfo {
            card_holder_name,
            billing_address,
            shipping_address,
        };
        let order = Order {
            order_id,
            amount: item.amount.clone(),
            currency: d.request.currency.clone(),
            description: crate::metadata::clone_opt_string(&d.description),
            customer_info,
        };
        let payment_data = match NexixpayPaymentsRequestData::try_from(item) {
            Ok(pd) => pd,
            Err(e) => {
                return Err(e);
            },
        };
        Ok(Self { order, payment_data })
    }
}

/// The error a complete-authorize build reports, by the first failing check
/// in evaluation order: missing payment-method data, refused capture
/// method, order id, billing address, shipping address, missing cardholder
/// name, missing then malformed persisted metadata, missing persisted
/// authorization id, missing mandate reference, then a non-card method.
pub open spec fn spec_complete_authorize_build_err(
    d: &PaymentsCompleteAuthorizeRouterData,
    e: ConnectorError,
) -> bool {
    if d.request.payment_method_data is None {
        is_missing_field_err(e, "payment_method_data"@)
    } else if d.request.capture_method matches Some(m) && (m is ManualMultiple || m is Scheduled) {
        is_flow_not_supported_err(e, spec_capture_method_name(d.request.capture_method->Some_0))
    } else if d.payment_id@.len() > MAX_ORDER_ID_LENGTH as int && !spec_has_internal_prefix(
        d.payment_id@,
    ) {
        is_max_length_err(e, "payment_id"@, MAX_ORDER_ID_LENGTH as int, d.payment_id@.len() as int)
    } else if d.billing matches Some(a) && !spec_address_within_limits(a@) {
        spec_address_violation_err(d.billing->Some_0@, AddressKind::Billing, e)
    } else if d.shipping matches Some(a) && !spec_address_within_limits(a@) {
        spec_address_violation_err(d.shipping->Some_0@, AddressKind::Shipping, e)
    } else if spec_billing_full_name(d.billing) is None {
        is_missing_field_err(e, "payment_method_data.billing.address.first_name"@)
    } else if d.request.connector_meta is None {
        is_missing_field_err(e, "connector_meta_data"@)
    } else if crate::codec::spec_decode_metadata(d.request.connector_meta->Some_0@) is None {
        e matches ConnectorError::ParsingFailed
    } else if crate::codec::spec_decode_metadata(
        d.request.connector_meta->Some_0@,
    )->Some_0.authorization_operation_id is None {
        is_missing_field_err(e, "authorization_operation_id"@)
    } else if d.request.is_mandate_payment && d.connector_mandate_request_reference_id is None {
        is_missing_field_err(e, "connector_mandate_request_reference_id"@)
    } else if !(d.request.payment_method_data matches Some(PaymentMethodData::Card(_))) {
        crate::errors::is_not_implemented_err(e)
    } else {
        false
    }
}

impl NexixpayCompleteAuthorizeRequest {
    /// Builds the complete-authorize wire request after the 3-D-Secure
    /// challenge: rebuilds the order as at authorize time, takes the
    /// persisted authorization operation id from the metadata blob, and
    /// assembles the 3-D-Secure authentication payload from the persisted
    /// artifacts.
    pub fn try_from(item: &NexixpayRouterData<PaymentsCompleteAuthorizeRouterData>) -> (r: Result<
        Self,
        ConnectorError,
    >)
        requires
            item.router_data.request.payment_method_data matches Some(pm)
                ==> spec_card_year_ok(&pm),
        ensures
            match r {
                Ok(req) => {
                    &&& item.router_data.request.payment_method_data matches Some(
                        PaymentMethodData::Card(c),
                    )
                    &&& req.card.pan@ == c.card_number@
                    &&& req.card.expiry_date@ == spec_mmyy(c.card_exp_month@, c.card_exp_year@)
                    &&& spec_capture_type_ok(
                        item.router_data.request.capture_method,
                        req.capture_type,
                    )
                    &&& spec_order_id_ok(item.router_data.payment_id, req.order.order_id)
                    &&& req.order.amount@ == item.amount@
                    &&& req.order.currency@ == item.router_data.request.currency@
                    &&& opt_str_view(req.order.description) == opt_str_view(
                        item.router_data.description,
                    )
                    &&& spec_billing_full_name(item.router_data.billing) matches Some(n)
                        && req.order.customer_info.card_holder_name@ == n
                    &&& spec_billing_ok(
                        item.router_data.billing,
                        req.order.customer_info.billing_address,
                    )
                    &&& spec_shipping_ok(
                        item.router_data.shipping,
                        req.order.customer_info.shipping_address,
                    )
                    &&& item.router_data.request.connector_meta matches Some(cm)
                    &&& crate::codec::spec_decode_metadata(cm@) matches Some(m)
                    &&& m.authorization_operation_id matches Some(op) && req.operation_id@ == op
                    &&& opt_str_view(req.three_d_s_auth_data.three_d_s_auth_response)
                        == m.three_d_s_auth_response
                    &&& opt_str_view(req.three_d_s_auth_data.authentication_value) == (
                    match m.three_d_s_auth_result {
                        Some(ar) => ar.authentication_value,
                        None => None,
                    })
                    &&& spec_recurrence_ok(
                        item.router_data.request.is_mandate_payment,
                        item.router_data.connector_mandate_request_reference_id,
                        req.recurrence,
                    )
                },
                Err(e) => spec_complete_authorize_build_err(&item.router_data, e),
            },
    {
        let d = &item.router_data;
        let payment_method_data = match &d.request.payment_method_data {
            Some(pm) => pm,
            None => {
                return Err(
                    ConnectorError::MissingRequiredField {
                        field_name: "payment_method_data".to_owned(),
                    },
                );
            },
        };
        let capture_type = match get_nexixpay_capture_type(d.request.capture_method) {
            Ok(t) => t,
            Err(e) => {
                return Err(e);
            },
        };
        let order_id = match build_order_id(&d.payment_id) {
            Ok(id) => id,
            Err(e) => {
                return Err(e);
            },
        };
        let billing_address = match get_validated_billing_address(&d.billing) {
            Ok(b) => b,
            Err(e) => {
                return Err(e);
            },
        };
        let shipping_address = match get_validated_shipping_address(&d.shipping) {
            Ok(s) => s,
            Err(e) => {
                return Err(e);
            },
        };
        let card_holder_name = match get_billing_full_name(&d.billing) {
            Ok(n) => n,
            Err(e) => {
                return Err(e);
            },
        };
        let customer_info = CustomerInfo {
            card_holder_name,
            billing_address,
            shipping_address,
        };
        let order = Order {
            order_id,
            amount: item.amount.clone(),
            currency: d.request.currency.clone(),
            description: crate::metadata::clone_opt_string(&d.description),
            customer_info,
        };
        let connector_meta = match &d.request.connector_meta {
            Some(cm) => cm,
            None => {
                return Err(
                    ConnectorError::MissingRequiredField {
                        field_name: "connector_meta_data".to_owned(),
                    },
                );
            },
        };
        let nexixpay_meta_data = match crate::codec::decode_metadata(connector_meta.as_str()) {
            Ok(m) => m,
            Err(e) => {
                return Err(e);
            },
        };
        let operation_id = match nexixpay_meta_data.authorization_operation_id {
            Some(op) => op,
            None => {
                return Err(
                    ConnectorError::MissingRequiredField {
                        field_name: "authorization_operation_id".to_owned(),
                    },
                );
            },
        };
        let authentication_value = match nexixpay_meta_data.three_d_s_auth_result {
            Some(ar) => ar.authentication_value,
            None => None,
        };
        let three_d_s_auth_data = ThreeDSAuthData {
            three_d_s_auth_response: nexixpay_meta_data.three_d_s_auth_response,
            authentication_value,
        };
        let recurrence = match build_recurrence(
            d.request.is_mandate_payment,
            &d.connector_mandate_request_reference_id,
        ) {
            Ok(rec) => rec,
            Err(e) => {
                return Err(e);
            },
        };
        let card = match payment_method_data {
            PaymentMethodData::Card(req_card) => NexixpayCard {
                pan: req_card.card_number.clone(),
                expiry_date: req_card.get_expiry_date_as_mmyy(),
            },
            _ => {
                return Err(
                    ConnectorError::NotImplemented(crate::errors::unimplemented_method_message()),
                );
            },
        };
        Ok(
            Self {
                order,
                card,
                operation_id,
                capture_type,
                three_d_s_auth_data,
                recurrence,
            },
        )
    }
}

} // verus!
