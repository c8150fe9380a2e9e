//! The transaction context the orchestrator hands to each builder and
//! reconciler, modeled as plain values: payment identifiers, amount and
//! currency, payment-method and mandate variants, capture method, addresses,
//! the persisted metadata blob, and the redirect-callback payload.

use vstd::prelude::*;
use crate::address::RawAddress;
use crate::status::AttemptStatus;

verus! {

/// How funds capture is requested for a payment.
#[derive(Debug, Clone, Copy, PartialEq, Eq, Structural)]
pub enum CaptureMethod {
    Automatic,
    Manual,
    ManualMultiple,
    Scheduled,
    SequentialAutomatic,
}

/// Whether the payment participates in 3-D-Secure authentication.
#[derive(Debug, Clone, Copy, PartialEq, Eq, Structural)]
pub enum AuthenticationType {
    ThreeDs,
    NoThreeDs,
}

/// Card details as the orchestrator supplies them.
#[derive(Debug, Clone, PartialEq, Eq)]
pub struct Card {
    pub card_number: String,
    pub card_exp_month: String,
    pub card_exp_year: String,
}

/// The payment-method variant bound to the transaction. Only cards are
/// implemented for this provider; the remaining variants are carried so a
/// request for them can be refused exactly as the provider integration does.
#[derive(Debug, Clone, PartialEq, Eq)]
pub enum PaymentMethodData {
    Card(Card),
    CardRedirect,
    Wallet,
    PayLater,
    BankRedirect,
    BankDebit,
    BankTransfer,
    Crypto,
    MandatePayment,
    Reward,
    RealTimePayment,
    Upi,
    MobilePayment,
    Voucher,
    GiftCard,
    OpenBanking,
    CardToken,
    CardDetailsForNetworkTransactionId,
    NetworkToken,
}

/// Reference to an already-established mandate.
#[derive(Debug, Clone, PartialEq, Eq)]
pub enum MandateReferenceId {
    ConnectorMandateId { connector_mandate_request_reference_id: Option<String> },
    NetworkMandateId,
    NetworkTokenWithNTI,
}

/// The credential shapes the orchestrator can hand over; this provider
/// takes a single opaque API key in a header.
#[derive(Debug, Clone, PartialEq, Eq)]
pub enum ConnectorAuthType {
    HeaderKey { api_key: String },
    BodyKey { api_key: String, key1: String },
    NoKey,
}

/// The redirect callback the orchestrator received when resuming a
/// 3-D-Secure flow: an optional opaque payload.
#[derive(Debug, Clone, PartialEq, Eq)]
pub struct RedirectResponse {
    pub payload: Option<String>,
}

/// A flow context paired with the amount, in minor units as a decimal
/// string, already converted for this provider.
#[derive(Debug, Clone, PartialEq, Eq)]
pub struct NexixpayRouterData<T> {
    pub amount: String,
    pub router_data: T,
}

impl<T> From<(String, T)> for NexixpayRouterData<T> {
    fn from(v: (String, T)) -> (r: Self) {
        Self { amount: v.0, router_data: v.1 }
    }
}

impl<T> vstd::std_specs::convert::FromSpecImpl<(String, T)> for NexixpayRouterData<T> {
    open spec fn obeys_from_spec() -> bool {
        true
    }

    open spec fn from_spec(v: (String, T)) -> Self {
        NexixpayRouterData { amount: v.0, router_data: v.1 }
    }
}

/// What the orchestrator knows at authorize time.
#[derive(Debug, Clone, PartialEq, Eq)]
pub struct PaymentsAuthorizeData {
    pub currency: String,
    pub payment_method_data: PaymentMethodData,
    pub mandate_reference_id: Option<MandateReferenceId>,
    pub is_mandate_payment: bool,
    pub capture_method: Option<CaptureMethod>,
    pub complete_authorize_url: Option<String>,
}

/// The authorize-flow context.
#[derive(Debug, Clone, PartialEq, Eq)]
pub struct PaymentsAuthorizeRouterData {
    pub payment_id: String,
    pub description: Option<String>,
    pub auth_type: AuthenticationType,
    pub connector_mandate_request_reference_id: Option<String>,
    pub billing: Option<RawAddress>,
    pub shipping: Option<RawAddress>,
    pub status: AttemptStatus,
    pub request: PaymentsAuthorizeData,
}

/// What the orchestrator knows when completing authorization after the
/// 3-D-Secure challenge.
#[derive(Debug, Clone, PartialEq, Eq)]
pub struct CompleteAuthorizeData {
    pub currency: String,
    pub amount: i64,
    pub payment_method_data: Option<PaymentMethodData>,
    pub capture_method: Option<CaptureMethod>,
    pub connector_meta: Option<String>,
    pub is_mandate_payment: bool,
}

/// The complete-authorize-flow context.
#[derive(Debug, Clone, PartialEq, Eq)]
pub struct PaymentsCompleteAuthorizeRouterData {
    pub payment_id: String,
    pub description: Option<String>,
    pub connector_mandate_request_reference_id: Option<String>,
    pub billing: Option<RawAddress>,
    pub shipping: Option<RawAddress>,
    pub status: AttemptStatus,
    pub request: CompleteAuthorizeData,
}

/// What the orchestrator knows at the 3-D-Secure continuation step.
#[derive(Debug, Clone, PartialEq, Eq)]
pub struct PaymentsPreProcessingData {
    pub redirect_response: Option<RedirectResponse>,
    pub metadata: Option<String>,
    pub capture_method: Option<CaptureMethod>,
}

/// The pre-processing-flow context.
#[derive(Debug, Clone, PartialEq, Eq)]
pub struct PaymentsPreProcessingRouterData {
    pub status: AttemptStatus,
    pub request: PaymentsPreProcessingData,
}

/// What the orchestrator knows at capture time.
#[derive(Debug, Clone, PartialEq, Eq)]
pub struct PaymentsCaptureData {
    pub currency: String,
    pub connector_transaction_id: String,
    pub connector_meta: Option<String>,
}

/// The capture-flow context.
#[derive(Debug, Clone, PartialEq, Eq)]
pub struct PaymentsCaptureRouterData {
    pub status: AttemptStatus,
    pub request: PaymentsCaptureData,
}

/// What the orchestrator knows at cancel time. Unlike the other flows, the
/// currency is not always known here.
#[derive(Debug, Clone, PartialEq, Eq)]
pub struct PaymentsCancelData {
    pub currency: Option<String>,
    pub cancellation_reason: Option<String>,
    pub connector_transaction_id: String,
    pub connector_meta: Option<String>,
}

/// The cancel-flow context.
#[derive(Debug, Clone, PartialEq, Eq)]
pub struct PaymentsCancelRouterData {
    pub status: AttemptStatus,
    pub request: PaymentsCancelData,
}

/// What the orchestrator knows at status-sync time.
#[derive(Debug, Clone, PartialEq, Eq)]
pub struct PaymentsSyncData {
    pub connector_meta: Option<String>,
}

/// The sync-flow context.
#[derive(Debug, Clone, PartialEq, Eq)]
pub struct PaymentsSyncRouterData {
    pub status: AttemptStatus,
    pub connector_mandate_request_reference_id: Option<String>,
    pub request: PaymentsSyncData,
}

/// What the orchestrator knows at refund time.
#[derive(Debug, Clone, PartialEq, Eq)]
pub struct RefundsData {
    pub currency: String,
}

/// The refund-flow context.
#[derive(Debug, Clone, PartialEq, Eq)]
pub struct RefundsRouterData {
    pub request: RefundsData,
}

/// What the orchestrator knows when setting up a mandate.
#[derive(Debug, Clone, PartialEq, Eq)]
pub struct SetupMandateRequestData {
    pub capture_method: Option<CaptureMethod>,
    pub complete_authorize_url: Option<String>,
}

/// The mandate-setup-flow context.
#[derive(Debug, Clone, PartialEq, Eq)]
pub struct SetupMandateRouterData {
    pub status: AttemptStatus,
    pub connector_mandate_request_reference_id: Option<String>,
    pub request: SetupMandateRequestData,
}

/// A wire response paired with the flow context it answers and the HTTP
/// status of the call.
#[derive(Debug, Clone, PartialEq, Eq)]
pub struct ResponseRouterData<R, D> {
    pub response: R,
    pub data: D,
    pub http_code: u16,
}

} // verus!
