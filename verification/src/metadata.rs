//! The per-transaction state metadata: the only channel that carries
//! 3-D-Secure artifacts and operation identifiers across the otherwise
//! stateless calls of a payment flow. Merging is fill-forward: an update
//! supplants a field only where the persisted value is absent.

use vstd::prelude::*;
use crate::errors::ConnectorError;

verus! {

/// Which lifecycle stage a later status-sync call should interpret the
/// transaction as.
#[derive(Debug, Clone, Copy, PartialEq, Eq, Structural)]
pub enum NexixpayPaymentIntent {
    Capture,
    Cancel,
    Authorize,
}

/// 3-D-Secure authentication result returned by the provider.
#[derive(Debug, Clone, PartialEq, Eq)]
pub struct ThreeDSAuthResult {
    pub authentication_value: Option<String>,
}

/// The persisted metadata value: decoded form of the metadata blob.
#[derive(Debug, Clone, PartialEq, Eq)]
pub struct NexixpayConnectorMetaData {
    pub three_d_s_auth_result: Option<ThreeDSAuthResult>,
    pub three_d_s_auth_response: Option<String>,
    pub authorization_operation_id: Option<String>,
    pub capture_operation_id: Option<String>,
    pub cancel_operation_id: Option<String>,
    pub psync_flow: NexixpayPaymentIntent,
}

/// A partial update to be merged over the persisted metadata, together with
/// the persisted blob itself and the transaction's capture mode.
#[derive(Debug, Clone, PartialEq, Eq)]
pub struct UpdateNexixpayConnectorMetaData {
    pub three_d_s_auth_result: Option<ThreeDSAuthResult>,
    pub three_d_s_auth_response: Option<String>,
    pub authorization_operation_id: Option<String>,
    pub capture_operation_id: Option<String>,
    pub cancel_operation_id: Option<String>,
    pub psync_flow: Option<NexixpayPaymentIntent>,
    pub meta_data: String,
    pub is_auto_capture: bool,
}

/// Mathematical model of a 3-D-Secure authentication result: just the
/// optional authentication value.
pub ghost struct ThreeDSAuthResultView {
    pub authentication_value: Option<Seq<char>>,
}

impl View for ThreeDSAuthResult {
    type V = ThreeDSAuthResultView;

    open spec fn view(&self) -> ThreeDSAuthResultView {
        ThreeDSAuthResultView {
            authentication_value: match self.authentication_value {
                Some(v) => Some(v@),
                None => None,
            },
        }
    }
}

/// Mathematical model of the persisted metadata value.
pub ghost struct MetaDataView {
    pub three_d_s_auth_result: Option<ThreeDSAuthResultView>,
    pub three_d_s_auth_response: Option<Seq<char>>,
    pub authorization_operation_id: Option<Seq<char>>,
    pub capture_operation_id: Option<Seq<char>>,
    pub cancel_operation_id: Option<Seq<char>>,
    pub psync_flow: NexixpayPaymentIntent,
}

/// The view of an optional string: the optional sequence of its characters.
pub open spec fn opt_str_view(o: Option<String>) -> Option<Seq<char>> {
    match o {
        Some(s) => Some(s@),
        None => None,
    }
}

/// A copy of an optional string with the same content.
pub fn clone_opt_string(o: &Option<String>) -> (r: Option<String>)
    ensures
        opt_str_view(r) == opt_str_view(*o),
{
    match o {
        Some(s) => Some(s.clone()),
        None => None,
    }
}

impl View for NexixpayConnectorMetaData {
    type V = MetaDataView;

    open spec fn view(&self) -> MetaDataView {
        MetaDataView {
            three_d_s_auth_result: match self.three_d_s_auth_result {
                Some(r) => Some(r@),
                None => None,
            },
            three_d_s_auth_response: opt_str_view(self.three_d_s_auth_response),
            authorization_operation_id: opt_str_view(self.authorization_operation_id),
            capture_operation_id: opt_str_view(self.capture_operation_id),
            cancel_operation_id: opt_str_view(self.cancel_operation_id),
            psync_flow: self.psync_flow,
        }
    }
}

/// Mathematical model of a partial metadata update (without the blob).
pub ghost struct UpdateMetaDataView {
    pub three_d_s_auth_result: Option<ThreeDSAuthResultView>,
    pub three_d_s_auth_response: Option<Seq<char>>,
    pub authorization_operation_id: Option<Seq<char>>,
    pub capture_operation_id: Option<Seq<char>>,
    pub cancel_operation_id: Option<Seq<char>>,
    pub psync_flow: Option<NexixpayPaymentIntent>,
    pub is_auto_capture: bool,
}

impl View for UpdateNexixpayConnectorMetaData {
    type V = UpdateMetaDataView;

    open spec fn view(&self) -> UpdateMetaDataView {
        UpdateMetaDataView {
            three_d_s_auth_result: match self.three_d_s_auth_result {
                Some(r) => Some(r@),
                None => None,
            },
            three_d_s_auth_response: opt_str_view(self.three_d_s_auth_response),
            authorization_operation_id: opt_str_view(self.authorization_operation_id),
            capture_operation_id: opt_str_view(self.capture_operation_id),
            cancel_operation_id: opt_str_view(self.cancel_operation_id),
            psync_flow: self.psync_flow,
            is_auto_capture: self.is_auto_capture,
        }
    }
}

/// The first value if present, else the second: fill-forward for one field.
pub open spec fn spec_opt_or<T>(a: Option<T>, b: Option<T>) -> Option<T> {
    match a {
        Some(v) => Some(v),
        None => b,
    }
}

/// Fill-forward merge of an update over persisted metadata. Every field
/// keeps the persisted value where present; `capture_operation_id`, when
/// absent and the transaction used auto-capture, falls back to the merged
/// authorization operation id (persisted one preferred over the update's);
/// the sync-flow hint is the one exception where the update wins.
pub open spec fn spec_merge(existing: MetaDataView, update: UpdateMetaDataView) -> MetaDataView {
    MetaDataView {
        three_d_s_auth_result: spec_opt_or(
            existing.three_d_s_auth_result,
            update.three_d_s_auth_result,
        ),
        three_d_s_auth_response: spec_opt_or(
            existing.three_d_s_auth_response,
            update.three_d_s_auth_response,
        ),
        authorization_operation_id: spec_opt_or(
            existing.authorization_operation_id,
            update.authorization_operation_id,
        ),
        capture_operation_id: spec_opt_or(
            existing.capture_operation_id,
            if update.is_auto_capture {
                spec_opt_or(existing.authorization_operation_id, update.authorization_operation_id)
            } else {
                update.capture_operation_id
            },
        ),
        cancel_operation_id: spec_opt_or(existing.cancel_operation_id, update.cancel_operation_id),
        psync_flow: match update.psync_flow {
            Some(f) => f,
            None => existing.psync_flow,
        },
    }
}

impl ThreeDSAuthResult {
    /// A copy with the same authentication value.
    pub fn duplicate(&self) -> (r: Self)
        ensures
            r@ == self@,
    {
        ThreeDSAuthResult {
            authentication_value: match &self.authentication_value {
                Some(v) => Some(v.clone()),
                None => None,
            },
        }
    }
}

/// Keeps the first optional string if present, else the second.
fn opt_str_or(a: &Option<String>, b: &Option<String>) -> (r: Option<String>)
    ensures
        opt_str_view(r) == spec_opt_or(opt_str_view(*a), opt_str_view(*b)),
{
    match a {
        Some(v) => Some(v.clone()),
        None => match b {
            Some(v) => Some(v.clone()),
            None => None,
        },
    }
}

/// Merges a partial update over the persisted metadata, fill-forward per
/// field, with the auto-capture fallback for `capture_operation_id`.
pub fn merge_metadata(
    existing: &NexixpayConnectorMetaData,
    update: &UpdateNexixpayConnectorMetaData,
) -> (r: NexixpayConnectorMetaData)
    ensures
        r@ == spec_merge(existing@, update@),
{
    let three_d_s_auth_result: Option<ThreeDSAuthResult> = match &existing.three_d_s_auth_result {
        Some(v) => Some(v.duplicate()),
        None => match &update.three_d_s_auth_result {
            Some(v) => Some(v.duplicate()),
            None => None,
        },
    };
    let capture_fallback: Option<String> = if update.is_auto_capture {
        opt_str_or(&existing.authorization_operation_id, &update.authorization_operation_id)
    } else {
        match &update.capture_operation_id {
            Some(v) => Some(v.clone()),
            None => None,
        }
    };
    NexixpayConnectorMetaData {
        three_d_s_auth_result,
        three_d_s_auth_response: opt_str_or(
            &existing.three_d_s_auth_response,
            &update.three_d_s_auth_response,
        ),
        authorization_operation_id: opt_str_or(
            &existing.authorization_operation_id,
            &update.authorization_operation_id,
        ),
        capture_operation_id: opt_str_or(&existing.capture_operation_id, &capture_fallback),
        cancel_operation_id: opt_str_or(
            &existing.cancel_operation_id,
            &update.cancel_operation_id,
        ),
        psync_flow: match update.psync_flow {
            Some(f) => f,
            None => existing.psync_flow,
        },
    }
}

/// Decodes the persisted blob carried in the update, merges the update over
/// it fill-forward, and re-encodes the result; fails with a parsing error
/// exactly where the persisted blob is malformed.
pub fn update_nexi_meta_data(update: UpdateNexixpayConnectorMetaData) -> (r: Result<
    String,
    ConnectorError,
>)
    ensures
        match r {
            Ok(blob) => crate::codec::spec_decode_metadata(update.meta_data@) matches Some(m)
                && blob@ == crate::codec::spec_encode_metadata(spec_merge(m, update@)),
            Err(e) => crate::codec::spec_decode_metadata(update.meta_data@) is None && e matches
                ConnectorError::ParsingFailed,
        },
{
    let existing = match crate::codec::decode_metadata(update.meta_data.as_str()) {
        Ok(m) => m,
        Err(e) => {
            return Err(e);
        },
    };
    let merged = merge_metadata(&existing, &update);
    Ok(crate::codec::encode_metadata(&merged))
}

/// A partial update whose fields are all absent and whose sync-flow hint is
/// absent.
pub open spec fn spec_update_all_absent(update: UpdateMetaDataView) -> bool {
    &&& update.three_d_s_auth_result is None
    &&& update.three_d_s_auth_response is None
    &&& update.authorization_operation_id is None
    &&& update.capture_operation_id is None
    &&& update.cancel_operation_id is None
    &&& update.psync_flow is None
}

/// Merging the same update twice yields the same result as merging it once.
pub proof fn lemma_merge_idempotent(existing: MetaDataView, update: UpdateMetaDataView)
    ensures
        spec_merge(spec_merge(existing, update), update) == spec_merge(existing, update),
{
}

/// Merging an update with all-absent fields over existing metadata returns
/// the existing metadata unchanged. Under auto-capture this holds only where
/// it would not trigger the capture-id fallback: a persisted authorization
/// id with no persisted capture id is deliberately filled forward then.
pub proof fn lemma_merge_all_absent_is_identity(
    existing: MetaDataView,
    update: UpdateMetaDataView,
)
    requires
        spec_update_all_absent(update),
        update.is_auto_capture ==> existing.capture_operation_id is Some
            || existing.authorization_operation_id is None,
    ensures
        spec_merge(existing, update) == existing,
{
}

/// Auto-capture fallback: where the persisted capture id is absent and the
/// transaction used auto-capture, the merged capture id is the merged
/// authorization id (the persisted one preferred over the update's).
pub proof fn lemma_merge_auto_capture_fallback(
    existing: MetaDataView,
    update: UpdateMetaDataView,
)
    requires
        update.is_auto_capture,
        existing.capture_operation_id is None,
    ensures
        spec_merge(existing, update).capture_operation_id == spec_opt_or(
            existing.authorization_operation_id,
            update.authorization_operation_id,
        ),
{
}

} // verus!
