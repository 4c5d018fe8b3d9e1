//! Receipt checking and fraud-proof synthesis for an executor of a decoupled
//! execution chain.

pub mod active_leaves;
pub mod block_status;
pub mod bundle;
pub mod bundle_check;
pub mod bundle_check_laws;
pub mod codec;
pub mod crypto;
pub mod error;
pub mod executor;
pub mod fraud_proof;
pub mod local_receipt;
pub mod primitives;
pub mod production;
pub mod receipt;
pub mod receipt_check;
pub mod receipt_check_laws;
pub mod receipt_store;
pub mod trace;
pub mod verdict;
