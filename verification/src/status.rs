//! Provider status enums and the total mapping from provider statuses to the
//! internal attempt / refund statuses: the single source of truth for the
//! flow's terminal and transient semantics.

use vstd::prelude::*;

verus! {

/// Status enum the provider reports for a payment operation.
#[derive(Debug, Clone, Copy, PartialEq, Eq, Structural)]
pub enum NexixpayPaymentStatus {
    Authorized,
    Executed,
    Declined,
    DeniedByRisk,
    ThreedsValidated,
    ThreedsFailed,
    Pending,
    Canceled,
    Voided,
    Refunded,
    Failed,
}

/// Operation kind the provider reports alongside a payment status.
#[derive(Debug, Clone, Copy, PartialEq, Eq, Structural)]
pub enum NexixpayOperationType {
    Authorization,
    Capture,
    Void,
    Refund,
    CardVerification,
    Noshow,
    Incremental,
    DelayCharge,
}

/// Operation kind the provider reports for refund-status queries.
#[derive(Debug, Clone, Copy, PartialEq, Eq, Structural)]
pub enum NexixpayRefundOperationType {
    Refund,
}

/// Status enum the provider reports for a refund operation; narrower than
/// the payment status enum.
#[derive(Debug, Clone, Copy, PartialEq, Eq, Structural)]
pub enum NexixpayRefundResultStatus {
    Pending,
    Voided,
    Refunded,
    Failed,
    Executed,
}

/// Internal classification of a payment attempt's progress.
#[derive(Debug, Clone, Copy, PartialEq, Eq, Structural)]
pub enum AttemptStatus {
    Failure,
    Authorized,
    AuthenticationSuccessful,
    Charged,
    AuthenticationPending,
    Voided,
    AutoRefunded,
    Pending,
}

/// Internal classification of a refund's progress.
#[derive(Debug, Clone, Copy, PartialEq, Eq, Structural)]
pub enum RefundStatus {
    Success,
    Pending,
    Failure,
}

/// The attempt status each provider payment status maps to.
pub open spec fn spec_attempt_status(s: NexixpayPaymentStatus) -> AttemptStatus {
    match s {
        NexixpayPaymentStatus::Declined => AttemptStatus::Failure,
        NexixpayPaymentStatus::DeniedByRisk => AttemptStatus::Failure,
        NexixpayPaymentStatus::ThreedsFailed => AttemptStatus::Failure,
        NexixpayPaymentStatus::Failed => AttemptStatus::Failure,
        NexixpayPaymentStatus::Authorized => AttemptStatus::Authorized,
        NexixpayPaymentStatus::ThreedsValidated => AttemptStatus::AuthenticationSuccessful,
        NexixpayPaymentStatus::Executed => AttemptStatus::Charged,
        NexixpayPaymentStatus::Pending => AttemptStatus::AuthenticationPending,
        NexixpayPaymentStatus::Canceled => AttemptStatus::Voided,
        NexixpayPaymentStatus::Voided => AttemptStatus::Voided,
        NexixpayPaymentStatus::Refunded => AttemptStatus::AutoRefunded,
    }
}

/// The refund status each provider refund status maps to.
pub open spec fn spec_refund_status(s: NexixpayRefundResultStatus) -> RefundStatus {
    match s {
        NexixpayRefundResultStatus::Voided => RefundStatus::Success,
        NexixpayRefundResultStatus::Refunded => RefundStatus::Success,
        NexixpayRefundResultStatus::Executed => RefundStatus::Success,
        NexixpayRefundResultStatus::Pending => RefundStatus::Pending,
        NexixpayRefundResultStatus::Failed => RefundStatus::Failure,
    }
}

impl From<NexixpayPaymentStatus> for AttemptStatus {
    fn from(item: NexixpayPaymentStatus) -> (r: Self) {
        match item {
            NexixpayPaymentStatus::Declined
            | NexixpayPaymentStatus::DeniedByRisk
            | NexixpayPaymentStatus::ThreedsFailed
            | NexixpayPaymentStatus::Failed => Self::Failure,
            NexixpayPaymentStatus::Authorized => Self::Authorized,
            NexixpayPaymentStatus::ThreedsValidated => Self::AuthenticationSuccessful,
            NexixpayPaymentStatus::Executed => Self::Charged,
            // the provider reports this status on authorization calls only
            NexixpayPaymentStatus::Pending => Self::AuthenticationPending,
            NexixpayPaymentStatus::Canceled | NexixpayPaymentStatus::Voided => Self::Voided,
            NexixpayPaymentStatus::Refunded => Self::AutoRefunded,
        }
    }
}

impl vstd::std_specs::convert::FromSpecImpl<NexixpayPaymentStatus> for AttemptStatus {
    open spec fn obeys_from_spec() -> bool {
        true
    }

    open spec fn from_spec(v: NexixpayPaymentStatus) -> Self {
        spec_attempt_status(v)
    }
}

impl From<NexixpayRefundResultStatus> for RefundStatus {
    fn from(item: NexixpayRefundResultStatus) -> (r: Self) {
        match item {
            NexixpayRefundResultStatus::Voided
            | NexixpayRefundResultStatus::Refunded
            | NexixpayRefundResultStatus::Executed => Self::Success,
            NexixpayRefundResultStatus::Pending => Self::Pending,
            NexixpayRefundResultStatus::Failed => Self::Failure,
        }
    }
}

impl vstd::std_specs::convert::FromSpecImpl<NexixpayRefundResultStatus> for RefundStatus {
    open spec fn obeys_from_spec() -> bool {
        true
    }

    open spec fn from_spec(v: NexixpayRefundResultStatus) -> Self {
        spec_refund_status(v)
    }
}

/// The provider's wire spelling of each payment status, also used as the
/// message and reason of a decline error response.
pub open spec fn spec_status_wire_name(s: NexixpayPaymentStatus) -> Seq<char> {
    match s {
        NexixpayPaymentStatus::Authorized => "AUTHORIZED"@,
        NexixpayPaymentStatus::Executed => "EXECUTED"@,
        NexixpayPaymentStatus::Declined => "DECLINED"@,
        NexixpayPaymentStatus::DeniedByRisk => "DENIED_BY_RISK"@,
        NexixpayPaymentStatus::ThreedsValidated => "THREEDS_VALIDATED"@,
        NexixpayPaymentStatus::ThreedsFailed => "THREEDS_FAILED"@,
        NexixpayPaymentStatus::Pending => "PENDING"@,
        NexixpayPaymentStatus::Canceled => "CANCELED"@,
        NexixpayPaymentStatus::Voided => "VOIDED"@,
        NexixpayPaymentStatus::Refunded => "REFUNDED"@,
        NexixpayPaymentStatus::Failed => "FAILED"@,
    }
}

impl NexixpayPaymentStatus {
    /// The status text as the provider spells it on the wire.
    pub fn wire_name(&self) -> (r: String)
        ensures
            r@ == spec_status_wire_name(*self),
    {
        match self {
            NexixpayPaymentStatus::Authorized => "AUTHORIZED".to_owned(),
            NexixpayPaymentStatus::Executed => "EXECUTED".to_owned(),
            NexixpayPaymentStatus::Declined => "DECLINED".to_owned(),
            NexixpayPaymentStatus::DeniedByRisk => "DENIED_BY_RISK".to_owned(),
            NexixpayPaymentStatus::ThreedsValidated => "THREEDS_VALIDATED".to_owned(),
            NexixpayPaymentStatus::ThreedsFailed => "THREEDS_FAILED".to_owned(),
            NexixpayPaymentStatus::Pending => "PENDING".to_owned(),
            NexixpayPaymentStatus::Canceled => "CANCELED".to_owned(),
            NexixpayPaymentStatus::Voided => "VOIDED".to_owned(),
            NexixpayPaymentStatus::Refunded => "REFUNDED".to_owned(),
            NexixpayPaymentStatus::Failed => "FAILED".to_owned(),
        }
    }
}

/// The status mapping is total: defined on every provider status, and it
/// classifies as a failure exactly the provider statuses `Declined`,
/// `DeniedByRisk`, `ThreedsFailed` and `Failed`.
pub proof fn lemma_status_mapping_failure_exactly(s: NexixpayPaymentStatus)
    ensures
        spec_attempt_status(s) == AttemptStatus::Failure <==> (s is Declined || s is DeniedByRisk
            || s is ThreedsFailed || s is Failed),
        spec_refund_status(NexixpayRefundResultStatus::Failed) == RefundStatus::Failure,
{
}

} // verus!
