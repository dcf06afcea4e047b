use receipt::{derive_receipt_address, record_execution, Ledger, Receipt, ReceiptError, RecordExecution};

const PROGRAM: [u8; 32] = [3u8; 32];
const CALLER_A: [u8; 32] = [7u8; 32];
const CALLER_B: [u8; 32] = [8u8; 32];
const MINT_M: [u8; 32] = [9u8; 32];
const HASH_1: [u8; 32] = [0x11u8; 32];
const HASH_2: [u8; 32] = [0x22u8; 32];

#[test]
fn derivation_is_deterministic() {
    let first = derive_receipt_address(&PROGRAM, &CALLER_A, &MINT_M, 7);
    let second = derive_receipt_address(&PROGRAM, &CALLER_A, &MINT_M, 7);
    assert_eq!(first, second);
    let (addr, _) = first.expect("a candidate address exists for these seeds");
    assert_ne!(addr, CALLER_A);
    assert_ne!(addr, MINT_M);
}

#[test]
fn derivation_distinguishes_callers_and_epochs() {
    let (for_a, _) = derive_receipt_address(&PROGRAM, &CALLER_A, &MINT_M, 7).unwrap();
    let (for_b, _) = derive_receipt_address(&PROGRAM, &CALLER_B, &MINT_M, 7).unwrap();
    let (for_a8, _) = derive_receipt_address(&PROGRAM, &CALLER_A, &MINT_M, 8).unwrap();
    assert_ne!(for_a, for_b);
    assert_ne!(for_a, for_a8);
}

#[test]
fn derivation_matches_substrate_search() {
    let epoch: u32 = 42;
    let (addr, bump) = derive_receipt_address(&PROGRAM, &CALLER_A, &MINT_M, epoch).unwrap();
    let pid = solana_pubkey::Pubkey::new_from_array(PROGRAM);
    let epoch_bytes = epoch.to_le_bytes();
    let seeds: [&[u8]; 4] = [b"receipt", &CALLER_A, &MINT_M, &epoch_bytes];
    let (expected, expected_bump) = solana_pubkey::Pubkey::find_program_address(&seeds, &pid);
    assert_eq!(addr, expected.to_bytes());
    assert_eq!(bump, expected_bump);
}

#[test]
fn commit_up_succeeds_with_exact_fields() {
    let mut ledger = Ledger::new(PROGRAM);
    let ctx = RecordExecution { authority: CALLER_A, authority_is_signer: true, slot: 900, unix_ts: 1_700_000_000 };
    let rec = record_execution(&mut ledger, ctx, 7, 1, MINT_M, HASH_1).expect("first write succeeds");
    assert_eq!(rec.direction, 1);
    assert_eq!(rec.epoch, 7);
    assert_eq!(rec.authority, CALLER_A);
    assert_eq!(rec.position_mint, MINT_M);
    assert_eq!(rec.tx_sig_hash, HASH_1);
    assert_eq!(rec.slot, 900);
    assert_eq!(rec.unix_ts, 1_700_000_000);
    let (_, bump) = derive_receipt_address(&PROGRAM, &CALLER_A, &MINT_M, 7).unwrap();
    assert_eq!(rec.bump, bump);
    assert_eq!(ledger.len(), 1);
    assert_eq!(ledger.lookup(&CALLER_A, &MINT_M, 7), Some(rec));
}

#[test]
fn second_commit_for_same_key_is_rejected() {
    let mut ledger = Ledger::new(PROGRAM);
    let ctx = RecordExecution { authority: CALLER_A, authority_is_signer: true, slot: 900, unix_ts: 1_700_000_000 };
    let original = record_execution(&mut ledger, ctx, 7, 1, MINT_M, HASH_1).unwrap();
    let later = RecordExecution { authority: CALLER_A, authority_is_signer: true, slot: 901, unix_ts: 1_700_000_060 };
    let second = record_execution(&mut ledger, later, 7, 0, MINT_M, HASH_2);
    assert_eq!(second, Err(ReceiptError::DuplicateRecord));
    assert_eq!(ledger.len(), 1);
    assert_eq!(ledger.lookup(&CALLER_A, &MINT_M, 7), Some(original));
}

#[test]
fn invalid_direction_is_rejected_without_effect() {
    let mut ledger = Ledger::new(PROGRAM);
    let ctx = RecordExecution { authority: CALLER_A, authority_is_signer: true, slot: 900, unix_ts: 1_700_000_000 };
    let outcome = record_execution(&mut ledger, ctx, 8, 2, MINT_M, HASH_1);
    assert_eq!(outcome, Err(ReceiptError::InvalidDirection));
    assert_eq!(ledger.len(), 0);
    assert_eq!(ledger.lookup(&CALLER_A, &MINT_M, 8), None);
}

#[test]
fn valid_retry_succeeds_after_invalid_attempt() {
    let mut ledger = Ledger::new(PROGRAM);
    let ctx = RecordExecution { authority: CALLER_A, authority_is_signer: true, slot: 900, unix_ts: 1_700_000_000 };
    let rejected = record_execution(&mut ledger, ctx, 8, 2, MINT_M, HASH_1);
    assert_eq!(rejected, Err(ReceiptError::InvalidDirection));
    let retry = RecordExecution { authority: CALLER_A, authority_is_signer: true, slot: 902, unix_ts: 1_700_000_120 };
    let rec = record_execution(&mut ledger, retry, 8, 0, MINT_M, HASH_2).expect("the failed attempt left the address untouched");
    assert_eq!(rec.direction, 0);
    assert_eq!(rec.epoch, 8);
    assert_eq!(ledger.len(), 1);
}

#[test]
fn distinct_callers_share_an_asset_and_epoch() {
    let mut ledger = Ledger::new(PROGRAM);
    let ctx_a = RecordExecution { authority: CALLER_A, authority_is_signer: true, slot: 900, unix_ts: 1_700_000_000 };
    record_execution(&mut ledger, ctx_a, 7, 1, MINT_M, HASH_1).unwrap();
    let ctx_b = RecordExecution { authority: CALLER_B, authority_is_signer: true, slot: 905, unix_ts: 1_700_000_300 };
    let rec_b = record_execution(&mut ledger, ctx_b, 7, 1, MINT_M, HASH_2).expect("a different caller gets a different address");
    assert_eq!(rec_b.authority, CALLER_B);
    assert_eq!(ledger.len(), 2);
    assert_eq!(ledger.lookup(&CALLER_B, &MINT_M, 7), Some(rec_b));
}

#[test]
fn unverified_caller_is_rejected_without_effect() {
    let mut ledger = Ledger::new(PROGRAM);
    let ctx = RecordExecution { authority: CALLER_A, authority_is_signer: false, slot: 900, unix_ts: 1_700_000_000 };
    let outcome = record_execution(&mut ledger, ctx, 7, 1, MINT_M, HASH_1);
    assert_eq!(outcome, Err(ReceiptError::UnauthorizedCaller));
    assert_eq!(ledger.len(), 0);
}

#[test]
fn create_if_absent_is_first_writer_wins() {
    let mut ledger = Ledger::new(PROGRAM);
    let first = receipt::make_receipt(CALLER_A, MINT_M, 3, 0, HASH_1, 10, 1_000, 255).unwrap();
    assert!(ledger.create_if_absent(first));
    let second = receipt::make_receipt(CALLER_A, MINT_M, 3, 1, HASH_2, 11, 1_001, 255).unwrap();
    assert!(!ledger.create_if_absent(second));
    assert_eq!(ledger.len(), 1);
    assert_eq!(ledger.lookup(&CALLER_A, &MINT_M, 3), Some(first));
}

#[test]
fn make_receipt_validates_and_copies_fields() {
    let built = receipt::make_receipt(CALLER_A, MINT_M, 7, 1, HASH_1, 900, 1_700_000_000, 254).unwrap();
    let expected = Receipt {
        authority: CALLER_A,
        position_mint: MINT_M,
        epoch: 7,
        direction: 1,
        tx_sig_hash: HASH_1,
        slot: 900,
        unix_ts: 1_700_000_000,
        bump: 254,
    };
    assert_eq!(built, expected);
    assert_eq!(receipt::make_receipt(CALLER_A, MINT_M, 7, 3, HASH_1, 900, 1_700_000_000, 254), Err(ReceiptError::InvalidDirection));
}

#[test]
fn payload_layout_is_bit_exact() {
    let rec = Receipt {
        authority: [0xAAu8; 32],
        position_mint: [0xBBu8; 32],
        epoch: 0x0102_0304,
        direction: 1,
        tx_sig_hash: [0xCCu8; 32],
        slot: 0x1122_3344_5566_7788,
        unix_ts: -2,
        bump: 254,
    };
    let bytes = rec.payload_bytes();
    assert_eq!(bytes.len(), receipt::PAYLOAD_LEN);
    assert_eq!(bytes.len(), 118);
    let mut expected: Vec<u8> = Vec::new();
    expected.extend_from_slice(&[0xAAu8; 32]);
    expected.extend_from_slice(&[0xBBu8; 32]);
    expected.extend_from_slice(&[0x04, 0x03, 0x02, 0x01]);
    expected.push(1);
    expected.extend_from_slice(&[0xCCu8; 32]);
    expected.extend_from_slice(&[0x88, 0x77, 0x66, 0x55, 0x44, 0x33, 0x22, 0x11]);
    expected.extend_from_slice(&[0xFE, 0xFF, 0xFF, 0xFF, 0xFF, 0xFF, 0xFF, 0xFF]);
    expected.push(254);
    assert_eq!(bytes, expected);
    assert_eq!(Receipt::SPACE, 8 + 118);
}

#[test]
fn payload_matches_nonnegative_timestamp_encoding() {
    let rec = Receipt {
        authority: [0u8; 32],
        position_mint: [0u8; 32],
        epoch: 0,
        direction: 0,
        tx_sig_hash: [0u8; 32],
        slot: 0,
        unix_ts: 0x0102_0304_0506_0708,
        bump: 0,
    };
    let bytes = rec.payload_bytes();
    assert_eq!(&bytes[109..117], &[0x08, 0x07, 0x06, 0x05, 0x04, 0x03, 0x02, 0x01]);
}
