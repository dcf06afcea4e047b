//! The storage substrate model and the single write operation.
//!
//! The ledger is an append-only store of receipts, addressed by the
//! derivation key `(authority, position_mint, epoch)`. Its only mutating
//! primitive is an atomic create-if-absent: the first writer for a key wins,
//! every later writer for the same key is rejected, and a stored record is
//! never altered or removed.

use vstd::prelude::*;

use crate::pda::{derive_receipt_address, receipt_pda};
use crate::record::{direction_valid, make_receipt, Receipt, ReceiptError, RecordExecution};

verus! {

/// Does record `r` carry the derivation key `(authority, position_mint,
/// epoch)`?
pub open spec fn key_is(r: Receipt, authority: [u8; 32], position_mint: [u8; 32], epoch: u32) -> bool {
    r.authority@ == authority@ && r.position_mint@ == position_mint@ && r.epoch == epoch
}

/// Does some record in `s` carry the key `(authority, position_mint, epoch)`?
pub open spec fn has_key(s: Seq<Receipt>, authority: [u8; 32], position_mint: [u8; 32], epoch: u32) -> bool {
    exists|i: int| 0 <= i < s.len() && key_is(#[trigger] s[i], authority, position_mint, epoch)
}

/// No two records of `s` share a derivation key.
pub open spec fn keys_distinct(s: Seq<Receipt>) -> bool {
    forall|i: int, j: int|
        0 <= i < j < s.len() ==> !key_is(
            #[trigger] s[i],
            (#[trigger] s[j]).authority,
            s[j].position_mint,
            s[j].epoch,
        )
}

/// The append-only receipt store of one program.
pub struct Ledger {
    program_id: [u8; 32],
    records: Vec<Receipt>,
}

impl View for Ledger {
    type V = Seq<Receipt>;

    closed spec fn view(&self) -> Seq<Receipt> {
        self.records@
    }
}

impl Ledger {
    /// The identifier of the program that owns every address this ledger
    /// derives.
    pub closed spec fn spec_program_id(self) -> Seq<u8> {
        self.program_id@
    }

    /// Ledger invariant: every stored record is well formed, and at most one
    /// record exists per derivation key.
    pub open spec fn inv(self) -> bool {
        &&& keys_distinct(self@)
        &&& forall|i: int| 0 <= i < self@.len() ==> (#[trigger] self@[i]).well_formed()
    }

    /// An empty ledger owned by the program `program_id`.
    pub fn new(program_id: [u8; 32]) -> (r: Ledger)
        ensures
            r.inv(),
            r@ == Seq::<Receipt>::empty(),
            r.spec_program_id() == program_id@,
    {
        Ledger { program_id, records: Vec::new() }
    }

    /// How many receipts have been committed.
    pub fn len(&self) -> (n: usize)
        ensures
            n == self@.len(),
    {
        self.records.len()
    }

    /// The owning program's identifier.
    pub fn program_id(&self) -> (r: [u8; 32])
        ensures
            r@ == self.spec_program_id(),
    {
        self.program_id
    }

    /// Direct lookup of the record stored under `(authority, position_mint,
    /// epoch)`, if any.
    pub fn lookup(&self, authority: &[u8; 32], position_mint: &[u8; 32], epoch: u32) -> (r: Option<Receipt>)
        ensures
            (match r {
                Some(rec) => self@.contains(rec) && key_is(rec, *authority, *position_mint, epoch),
                None => !has_key(self@, *authority, *position_mint, epoch),
            }),
    {
        let n = self.records.len();
        let mut i: usize = 0;
        while i < n
            invariant
                n == self@.len(),
                i <= n,
                forall|j: int| 0 <= j < i ==> !key_is(#[trigger] self@[j], *authority, *position_mint, epoch),
            decreases n - i,
        {
            let rec = self.records[i];
            if bytes32_eq(&rec.authority, authority)
                && bytes32_eq(&rec.position_mint, position_mint)
                && rec.epoch == epoch
            {
                return Some(rec);
            }
            i += 1;
        }
        None
    }

    /// Atomic create-if-absent at the record's derivation key: commits `rec`
    /// and reports `true` if the key is still absent, otherwise leaves the
    /// store untouched and reports `false`. The first writer wins; nothing is
    /// ever overwritten.
    pub fn create_if_absent(&mut self, rec: Receipt) -> (r: bool)
        requires
            old(self).inv(),
            rec.well_formed(),
        ensures
            final(self).inv(),
            final(self).spec_program_id() == old(self).spec_program_id(),
            r == !has_key(old(self)@, rec.authority, rec.position_mint, rec.epoch),
            r ==> final(self)@ == old(self)@.push(rec),
            !r ==> final(self)@ == old(self)@,
    {
        match self.lookup(&rec.authority, &rec.position_mint, rec.epoch) {
            Some(found) => {
                proof {
                    let k = choose|i: int|
                        0 <= i < self@.len() && self@[i] == found;
                    assert(key_is(self@[k], rec.authority, rec.position_mint, rec.epoch));
                }
                false
            }
            None => {
                self.records.push(rec);
                proof {
                    let s = old(self)@;
                    assert forall|i: int, j: int| 0 <= i < j < self@.len() implies !key_is(
                        self@[i],
                        self@[j].authority,
                        self@[j].position_mint,
                        self@[j].epoch,
                    ) by {
                        if j < s.len() {
                            assert(!key_is(s[i], s[j].authority, s[j].position_mint, s[j].epoch));
                        } else {
                            assert(self@[j] == rec);
                            assert(!key_is(s[i], rec.authority, rec.position_mint, rec.epoch));
                        }
                    }
                }
                true
            }
        }
    }
}

/// Are the two 32-byte identifiers equal?
pub fn bytes32_eq(a: &[u8; 32], b: &[u8; 32]) -> (r: bool)
    ensures
        r <==> a@ == b@,
{
    let mut i: usize = 0;
    while i < 32
        invariant
            i <= 32,
            forall|j: int| 0 <= j < i ==> a@[j] == b@[j],
        decreases 32 - i,
    {
        if a[i] != b[i] {
            return false;
        }
        i += 1;
    }
    proof {
        assert(a@ =~= b@);
    }
    true
}

/// Validates the inputs, derives the storage address for `(ctx.authority,
/// position_mint, epoch)`, and commits one immutable receipt there exactly
/// once.
///
/// Outcomes, in the order they are checked and each with no storage effect
/// on failure:
/// - `UnauthorizedCaller` when the host did not verify the caller's identity;
/// - `InvalidDirection` when `direction` is neither `0` nor `1`;
/// - `AllocationFailure` when the substrate accepts no candidate address;
/// - `DuplicateRecord` when a record for this key already exists — the
///   stored record is left untouched;
/// - otherwise the fully populated record is appended and returned: its
///   `authority`, `position_mint`, `epoch`, `direction` and `tx_sig_hash`
///   equal the inputs verbatim, its `slot` and `unix_ts` are the host's
///   readings in `ctx`, and its `bump` is the selector byte accepted during
///   derivation.
pub fn record_execution(
    ledger: &mut Ledger,
    ctx: RecordExecution,
    epoch: u32,
    direction: u8,
    position_mint: [u8; 32],
    tx_sig_hash: [u8; 32],
) -> (r: Result<Receipt, ReceiptError>)
    requires
        old(ledger).inv(),
    ensures
        final(ledger).inv(),
        final(ledger).spec_program_id() == old(ledger).spec_program_id(),
        !ctx.authority_is_signer ==> r == Err::<Receipt, ReceiptError>(ReceiptError::UnauthorizedCaller)
            && final(ledger)@ == old(ledger)@,
        ctx.authority_is_signer && !direction_valid(direction) ==> r == Err::<Receipt, ReceiptError>(
            ReceiptError::InvalidDirection,
        ) && final(ledger)@ == old(ledger)@,
        ctx.authority_is_signer && direction_valid(direction) && receipt_pda(
            old(ledger).spec_program_id(),
            ctx.authority@,
            position_mint@,
            epoch,
        ) is None ==> r == Err::<Receipt, ReceiptError>(ReceiptError::AllocationFailure)
            && final(ledger)@ == old(ledger)@,
        ctx.authority_is_signer && direction_valid(direction) && receipt_pda(
            old(ledger).spec_program_id(),
            ctx.authority@,
            position_mint@,
            epoch,
        ) is Some && has_key(old(ledger)@, ctx.authority, position_mint, epoch) ==> r
            == Err::<Receipt, ReceiptError>(ReceiptError::DuplicateRecord) && final(ledger)@
            == old(ledger)@,
        ctx.authority_is_signer && direction_valid(direction) && receipt_pda(
            old(ledger).spec_program_id(),
            ctx.authority@,
            position_mint@,
            epoch,
        ) is Some && !has_key(old(ledger)@, ctx.authority, position_mint, epoch) ==> (match r {
            Ok(rec) => {
                &&& final(ledger)@ == old(ledger)@.push(rec)
                &&& rec.authority == ctx.authority
                &&& rec.position_mint == position_mint
                &&& rec.epoch == epoch
                &&& rec.direction == direction
                &&& rec.tx_sig_hash == tx_sig_hash
                &&& rec.slot == ctx.slot
                &&& rec.unix_ts == ctx.unix_ts
                &&& receipt_pda(
                    old(ledger).spec_program_id(),
                    ctx.authority@,
                    position_mint@,
                    epoch,
                ) matches Some(p) && p.1 == rec.bump
            },
            Err(_) => false,
        }),
{
    if !ctx.authority_is_signer {
        return Err(ReceiptError::UnauthorizedCaller);
    }
    if !(direction == 0 || direction == 1) {
        return Err(ReceiptError::InvalidDirection);
    }
    let pid = ledger.program_id();
    match derive_receipt_address(&pid, &ctx.authority, &position_mint, epoch) {
        None => Err(ReceiptError::AllocationFailure),
        Some((_, bump)) => {
            match make_receipt(
                ctx.authority,
                position_mint,
                epoch,
                direction,
                tx_sig_hash,
                ctx.slot,
                ctx.unix_ts,
                bump,
            ) {
                Err(e) => Err(e),
                Ok(rec) => {
                    if ledger.create_if_absent(rec) {
                        Ok(rec)
                    } else {
                        Err(ReceiptError::DuplicateRecord)
                    }
                }
            }
        }
    }
}

/// Law: under the ledger invariant, at most one stored record carries any
/// given derivation key — two positions holding the same key coincide.
pub proof fn lemma_at_most_one_record_per_key(
    s: Seq<Receipt>,
    authority: [u8; 32],
    position_mint: [u8; 32],
    epoch: u32,
    i: int,
    j: int,
)
    requires
        keys_distinct(s),
        0 <= i < s.len(),
        0 <= j < s.len(),
        key_is(s[i], authority, position_mint, epoch),
        key_is(s[j], authority, position_mint, epoch),
    ensures
        i == j,
{
    if i < j {
        assert(!key_is(s[i], s[j].authority, s[j].position_mint, s[j].epoch));
    } else if j < i {
        assert(!key_is(s[j], s[i].authority, s[i].position_mint, s[i].epoch));
    }
}

/// Law: committing one new receipt never alters a receipt already present —
/// every record stored before the commit keeps its position and its fields.
pub proof fn lemma_commit_preserves_existing(pre: Seq<Receipt>, post: Seq<Receipt>, rec: Receipt)
    requires
        post == pre.push(rec),
    ensures
        post.len() == pre.len() + 1,
        forall|i: int| 0 <= i < pre.len() ==> post[i] == #[trigger] pre[i],
{
}

} // verus!
