//! An append-only receipt ledger.
//!
//! Given an authenticated caller identity, a target asset identifier and a
//! logical epoch, the ledger deterministically derives a unique storage
//! address and commits a single immutable record there exactly once.
//! Uniqueness is enforced by the store's atomic create-if-absent step, not by
//! any application-level lock.

pub mod ledger;
pub mod layout;
pub mod pda;
pub mod record;

pub use ledger::{record_execution, Ledger};
pub use layout::PAYLOAD_LEN;
pub use pda::derive_receipt_address;
pub use record::{make_receipt, Receipt, ReceiptError, RecordExecution};
