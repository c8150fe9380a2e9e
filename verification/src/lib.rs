//! Payment-gateway adapter for a card-payment provider: request builders,
//! response reconcilers, a status-mapping table, address validation, and a
//! codec for the per-transaction metadata blob that threads 3-D-Secure state
//! across otherwise-stateless calls.

pub mod address;
pub mod blacklist;
pub mod codec;
pub mod context;
pub mod errors;
pub mod metadata;
pub mod requests;
pub mod responses;
pub mod status;
