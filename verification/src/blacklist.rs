//! The pure decisions behind token-blacklist checks: converting a token
//! expiry to the signed timestamp domain, and judging a stored blacklist
//! entry against a token's issue time. The store itself, and every call
//! against it, belongs to the surrounding service.

use vstd::prelude::*;
use crate::errors::ConnectorError;

verus! {

/// Converts a token expiry to the signed timestamp domain; fails where the
/// value does not fit.
pub fn expiry_to_i64(expiry: u64) -> (r: Result<i64, ConnectorError>)
    ensures
        match r {
            Ok(v) => expiry <= i64::MAX as u64 && v == expiry as i64,
            Err(e) => expiry > i64::MAX as u64 && e matches ConnectorError::ParsingFailed,
        },
{
    if expiry <= i64::MAX as u64 {
        Ok(expiry as i64)
    } else {
        Err(ConnectorError::ParsingFailed)
    }
}

/// Whether a stored blacklist entry invalidates a token issued at the given
/// time: only an entry strictly newer than the token's issue time does; an
/// absent entry never does.
pub fn is_token_blacklisted(entry_timestamp: Option<i64>, token_issued_at: i64) -> (r: bool)
    ensures
        r == (entry_timestamp matches Some(t) && t > token_issued_at),
{
    match entry_timestamp {
        Some(t) => t > token_issued_at,
        None => false,
    }
}

} // verus!
