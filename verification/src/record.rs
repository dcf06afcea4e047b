//! The receipt record, its validity rules, and the error taxonomy of the
//! single write operation.

use vstd::prelude::*;

verus! {

/// Direction is stored as a raw byte; only `0` (down) and `1` (up) are legal.
pub open spec fn direction_valid(direction: u8) -> bool {
    direction == 0u8 || direction == 1u8
}

/// The sole entity of the ledger: one immutable execution receipt.
///
/// `authority`, `position_mint`, `epoch`, `direction` and `tx_sig_hash` are
/// caller-supplied and stored verbatim; `slot` and `unix_ts` are stamped from
/// the host environment at commit time; `bump` records which candidate
/// address was selected during derivation.
#[derive(Clone, Copy, Debug, PartialEq, Eq)]
pub struct Receipt {
    /// Public identifier of the acting party.
    pub authority: [u8; 32],
    /// Identifier of the referenced asset.
    pub position_mint: [u8; 32],
    /// Caller-chosen logical period number.
    pub epoch: u32,
    /// `0` for down, `1` for up; no other value is ever stored.
    pub direction: u8,
    /// Opaque 32-byte reference hash, stored verbatim.
    pub tx_sig_hash: [u8; 32],
    /// Monotonic sequence number observed at commit.
    pub slot: u64,
    /// Wall-clock timestamp observed at commit.
    pub unix_ts: i64,
    /// Selector byte accepted during address derivation.
    pub bump: u8,
}

impl Receipt {
    /// A committed receipt never carries a direction outside `{0, 1}`.
    pub open spec fn well_formed(self) -> bool {
        direction_valid(self.direction)
    }
}

/// Why a `record_execution` call was rejected. No failure leaves any storage
/// effect behind.
#[derive(Clone, Copy, Debug, PartialEq, Eq)]
pub enum ReceiptError {
    /// The supplied direction byte is neither `0` nor `1`.
    InvalidDirection,
    /// A record for this `(authority, asset, epoch)` key already exists; the
    /// original record is left untouched.
    DuplicateRecord,
    /// The claimed identity was not verified by the host environment.
    UnauthorizedCaller,
    /// The storage substrate could not allocate a location for the record.
    AllocationFailure,
}

/// The per-call context supplied by the host environment: the caller's
/// identity together with the host's verdict on it, and the clock and
/// sequence readings to stamp into the record at commit.
#[derive(Clone, Copy, Debug, PartialEq, Eq)]
pub struct RecordExecution {
    /// Public identifier the caller claims to act under.
    pub authority: [u8; 32],
    /// Whether the host environment verified that the invoking party
    /// controls `authority`. The ledger performs no verification itself.
    pub authority_is_signer: bool,
    /// Monotonic sequence number at the moment of the call.
    pub slot: u64,
    /// Wall-clock timestamp at the moment of the call.
    pub unix_ts: i64,
}

/// Validates the direction byte and assembles the record image that a
/// successful commit stores: every caller-supplied field verbatim, the
/// host's clock and sequence readings, and the selector byte accepted
/// during address derivation. Rejects exactly the directions outside
/// `{0, 1}`, and builds nothing for them.
pub fn make_receipt(
    authority: [u8; 32],
    position_mint: [u8; 32],
    epoch: u32,
    direction: u8,
    tx_sig_hash: [u8; 32],
    slot: u64,
    unix_ts: i64,
    bump: u8,
) -> (r: Result<Receipt, ReceiptError>)
    ensures
        direction_valid(direction) ==> r == Ok::<Receipt, ReceiptError>(
            Receipt { authority, position_mint, epoch, direction, tx_sig_hash, slot, unix_ts, bump },
        ),
        !direction_valid(direction) ==> r == Err::<Receipt, ReceiptError>(
            ReceiptError::InvalidDirection,
        ),
{
    if !(direction == 0 || direction == 1) {
        return Err(ReceiptError::InvalidDirection);
    }
    Ok(Receipt { authority, position_mint, epoch, direction, tx_sig_hash, slot, unix_ts, bump })
}

} // verus!
