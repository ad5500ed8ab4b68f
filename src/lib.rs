//! Client-side orchestration for a ledger-hosted echo service: funding with
//! confirmation polling, storage-slot provisioning, transaction assembly
//! with an exact signer set, and the echo round trip.

pub mod funding;
pub mod identity;
pub mod operation;
pub mod transaction;
pub mod payload;
pub mod session;
