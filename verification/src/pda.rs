//! Deterministic storage-address derivation.
//!
//! The address of a receipt is a one-way function of the tuple
//! `("receipt", authority, position_mint, epoch)` and the owning program's
//! identifier. The substrate may reject candidate addresses, so derivation
//! performs a bounded search over a trailing selector byte; the accepted
//! selector is the receipt's `bump`.

use vstd::prelude::*;

verus! {

/// The address and selector byte that the substrate's program-derived-address
/// search yields for the given seed bytes, or `None` when no candidate passes
/// its validity check. A pure function of its arguments: this is what makes
/// derivation deterministic.
pub uninterp spec fn receipt_address_of(
    tag: Seq<u8>,
    program_id: Seq<u8>,
    authority: Seq<u8>,
    position_mint: Seq<u8>,
    epoch: u32,
) -> Option<(Seq<u8>, u8)>;

/// The fixed domain-separation tag that leads every receipt's seed tuple.
pub open spec fn receipt_tag_spec() -> Seq<u8> {
    seq![114u8, 101u8, 99u8, 101u8, 105u8, 112u8, 116u8]
}

/// The derived location of the receipt keyed by `(authority, position_mint,
/// epoch)` under the program `program_id`, with the receipt tag in place.
pub open spec fn receipt_pda(
    program_id: Seq<u8>,
    authority: Seq<u8>,
    position_mint: Seq<u8>,
    epoch: u32,
) -> Option<(Seq<u8>, u8)> {
    receipt_address_of(receipt_tag_spec(), program_id, authority, position_mint, epoch)
}

/// The receipt seed tag, `b"receipt"`, as bytes.
pub fn receipt_tag() -> (r: Vec<u8>)
    ensures
        r@ == receipt_tag_spec(),
{
    let mut v: Vec<u8> = Vec::new();
    v.push(114u8);
    v.push(101u8);
    v.push(99u8);
    v.push(101u8);
    v.push(105u8);
    v.push(112u8);
    v.push(116u8);
    proof {
        assert(v@ =~= receipt_tag_spec());
    }
    v
}

/// Relies on `Pubkey::try_find_program_address`, reached through
/// `anchor_lang`'s `solana_program` re-export: off-chain it searches selector
/// bytes from 255 downward and returns the first candidate address that the
/// addressing rules accept, a pure function of the seed bytes and program id;
/// it returns `None` only when no selector yields a valid address.
#[verifier::external_body]
fn find_program_address_for(
    tag: &[u8],
    program_id: &[u8; 32],
    authority: &[u8; 32],
    position_mint: &[u8; 32],
    epoch: u32,
) -> (r: Option<([u8; 32], u8)>)
    ensures
        (match r {
            Some(p) => receipt_address_of(tag@, program_id@, authority@, position_mint@, epoch)
                == Some((p.0@, p.1)),
            None => receipt_address_of(tag@, program_id@, authority@, position_mint@, epoch)
                is None,
        }),
{
    let pid = anchor_lang::solana_program::pubkey::Pubkey::new_from_array(*program_id);
    let epoch_bytes = epoch.to_le_bytes();
    let seeds: [&[u8]; 4] = [tag, &authority[..], &position_mint[..], &epoch_bytes[..]];
    match anchor_lang::solana_program::pubkey::Pubkey::try_find_program_address(&seeds, &pid) {
        Some((addr, bump)) => Some((addr.to_bytes(), bump)),
        None => None,
    }
}

/// Derives the storage address of the receipt keyed by `(authority,
/// position_mint, epoch)` under the program `program_id`.
///
/// The result is a pure function of the four arguments, so repeated
/// derivation for the same key yields the same address and selector byte on
/// every call.
pub fn derive_receipt_address(
    program_id: &[u8; 32],
    authority: &[u8; 32],
    position_mint: &[u8; 32],
    epoch: u32,
) -> (r: Option<([u8; 32], u8)>)
    ensures
        (match r {
            Some(p) => receipt_pda(program_id@, authority@, position_mint@, epoch)
                == Some((p.0@, p.1)),
            None => receipt_pda(program_id@, authority@, position_mint@, epoch) is None,
        }),
{
    let tag = receipt_tag();
    find_program_address_for(tag.as_slice(), program_id, authority, position_mint, epoch)
}

} // verus!
