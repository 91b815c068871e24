use solvend::claims::{claim_earnings, ClaimRecord};
use solvend::errors::ErrorCode;
use solvend::keys::{pubkey_to_bytes, Pubkey};
use solvend::machine::{initialize_machine, MachineConfig};
use solvend::market::{
    attach_report_data, buy_report, initialize_treasury, submit_distribution_root, Report,
    ReportStatus, ReportType, Treasury,
};

const OWNER: Pubkey = Pubkey { w0: 1, w1: 1, w2: 1, w3: 1 };
const BUYER: Pubkey = Pubkey { w0: 2, w1: 2, w2: 2, w3: 2 };
const TOKEN: Pubkey = Pubkey { w0: 3, w1: 3, w2: 3, w3: 3 };
const TREASURY_TOKENS: Pubkey = Pubkey { w0: 5, w1: 5, w2: 5, w3: 5 };
const BUYER_TOKENS: Pubkey = Pubkey { w0: 6, w1: 6, w2: 6, w3: 6 };
const OWNER_TOKENS: Pubkey = Pubkey { w0: 7, w1: 7, w2: 7, w3: 7 };
const CLAIMANT: Pubkey = Pubkey { w0: 11, w1: 12, w2: 13, w3: 14 };
const CLAIMANT_TOKENS: Pubkey = Pubkey { w0: 15, w1: 16, w2: 17, w3: 18 };
const OTHER_CLAIMANT: Pubkey = Pubkey { w0: 21, w1: 22, w2: 23, w3: 24 };

#[allow(deprecated)]
fn keccak_pair(a: &[u8], b: &[u8]) -> Vec<u8> {
    solana_program::keccak::hashv(&[a, b]).to_bytes().to_vec()
}

fn combine(a: &Vec<u8>, b: &Vec<u8>) -> Vec<u8> {
    if a <= b {
        keccak_pair(a, b)
    } else {
        keccak_pair(b, a)
    }
}

fn claim_leaf(claimant: &Pubkey, amount: u64) -> Vec<u8> {
    keccak_pair(&pubkey_to_bytes(claimant), &amount.to_le_bytes())
}

/// A two-leaf distribution: CLAIMANT may draw 300,000 and OTHER_CLAIMANT
/// 250,000. Each leaf's proof is the other leaf.
fn two_leaf_distribution() -> (Vec<u8>, Vec<Vec<u8>>, Vec<Vec<u8>>) {
    let leaf_a = claim_leaf(&CLAIMANT, 300_000);
    let leaf_b = claim_leaf(&OTHER_CLAIMANT, 250_000);
    let root = combine(&leaf_a, &leaf_b);
    (root, vec![leaf_b], vec![leaf_a])
}

fn distribution_ready_report(root: Vec<u8>) -> (Report, Treasury, MachineConfig) {
    let mut machine_slot = None;
    initialize_machine(&mut machine_slot, OWNER, 1_000_000, TOKEN).unwrap();
    let m = machine_slot.unwrap();
    let mut treasury_slot = None;
    initialize_treasury(&mut treasury_slot, TREASURY_TOKENS).unwrap();
    let mut t = treasury_slot.unwrap();
    let mut report_slot = None;
    buy_report(
        &mut report_slot,
        &mut t,
        &m,
        BUYER,
        BUYER_TOKENS,
        OWNER_TOKENS,
        OWNER,
        ReportType::Daily,
        1,
        50_000,
    )
    .unwrap();
    let mut report = report_slot.unwrap();
    attach_report_data(&mut report, &m, OWNER, String::from("cidABC")).unwrap();
    submit_distribution_root(&mut report, &m, OWNER, root).unwrap();
    (report, t, m)
}

#[test]
fn claim_pays_out_and_draws_down_remaining() {
    let (root, proof_a, _) = two_leaf_distribution();
    let (mut report, treasury, _) = distribution_ready_report(root);
    assert_eq!(report.remaining_for_distribution, 900_000);

    let mut claim_slot: Option<ClaimRecord> = None;
    let transfer = claim_earnings(
        &mut report,
        &treasury,
        &mut claim_slot,
        CLAIMANT,
        CLAIMANT_TOKENS,
        300_000,
        &proof_a,
    )
    .unwrap();

    assert_eq!(transfer.from, TREASURY_TOKENS);
    assert_eq!(transfer.to, CLAIMANT_TOKENS);
    assert_eq!(transfer.amount, 300_000);
    assert!(transfer.treasury_authorized);

    assert_eq!(report.remaining_for_distribution, 600_000);
    let record = claim_slot.unwrap();
    assert_eq!(record.claimant, CLAIMANT);
    assert_eq!(record.report_id, 0);
    assert_eq!(record.amount, 300_000);
}

#[test]
fn repeat_claim_for_same_pair_fails_on_occupied_record() {
    let (root, proof_a, _) = two_leaf_distribution();
    let (mut report, treasury, _) = distribution_ready_report(root);
    let mut claim_slot: Option<ClaimRecord> = None;
    claim_earnings(
        &mut report, &treasury, &mut claim_slot, CLAIMANT, CLAIMANT_TOKENS, 300_000, &proof_a,
    )
    .unwrap();
    // The record now occupies the derived address; the same valid proof
    // cannot pass a second time.
    let again = claim_earnings(
        &mut report, &treasury, &mut claim_slot, CLAIMANT, CLAIMANT_TOKENS, 300_000, &proof_a,
    );
    assert_eq!(again, Err(ErrorCode::AccountAlreadyInUse));
    assert_eq!(report.remaining_for_distribution, 600_000);
}

#[test]
fn both_claimants_can_claim_their_own_share() {
    let (root, proof_a, proof_b) = two_leaf_distribution();
    let (mut report, treasury, _) = distribution_ready_report(root);
    let mut slot_a: Option<ClaimRecord> = None;
    claim_earnings(&mut report, &treasury, &mut slot_a, CLAIMANT, CLAIMANT_TOKENS, 300_000, &proof_a)
        .unwrap();
    let mut slot_b: Option<ClaimRecord> = None;
    claim_earnings(
        &mut report, &treasury, &mut slot_b, OTHER_CLAIMANT, CLAIMANT_TOKENS, 250_000, &proof_b,
    )
    .unwrap();
    assert_eq!(report.remaining_for_distribution, 350_000);
}

#[test]
fn claim_before_root_fails_distribution_not_ready() {
    let mut machine_slot = None;
    initialize_machine(&mut machine_slot, OWNER, 1_000_000, TOKEN).unwrap();
    let m = machine_slot.unwrap();
    let mut treasury_slot = None;
    initialize_treasury(&mut treasury_slot, TREASURY_TOKENS).unwrap();
    let mut t = treasury_slot.unwrap();
    let mut report_slot = None;
    buy_report(
        &mut report_slot, &mut t, &m, BUYER, BUYER_TOKENS, OWNER_TOKENS, OWNER,
        ReportType::Daily, 1, 1,
    )
    .unwrap();
    let mut report = report_slot.unwrap();
    let (_, proof_a, _) = two_leaf_distribution();
    let mut claim_slot: Option<ClaimRecord> = None;
    let r = claim_earnings(
        &mut report, &t, &mut claim_slot, CLAIMANT, CLAIMANT_TOKENS, 300_000, &proof_a,
    );
    assert_eq!(r, Err(ErrorCode::DistributionNotReady));
    assert!(claim_slot.is_none());
}

#[test]
fn claim_with_wrong_amount_fails_proof_check() {
    let (root, proof_a, _) = two_leaf_distribution();
    let (mut report, treasury, _) = distribution_ready_report(root);
    let mut claim_slot: Option<ClaimRecord> = None;
    let r = claim_earnings(
        &mut report, &treasury, &mut claim_slot, CLAIMANT, CLAIMANT_TOKENS, 300_001, &proof_a,
    );
    assert_eq!(r, Err(ErrorCode::InvalidMerkleProof));
    assert_eq!(report.remaining_for_distribution, 900_000);
    assert!(claim_slot.is_none());
}

#[test]
fn claim_by_wrong_claimant_fails_proof_check() {
    let (root, proof_a, _) = two_leaf_distribution();
    let (mut report, treasury, _) = distribution_ready_report(root);
    let mut claim_slot: Option<ClaimRecord> = None;
    let r = claim_earnings(
        &mut report, &treasury, &mut claim_slot, OTHER_CLAIMANT, CLAIMANT_TOKENS, 300_000, &proof_a,
    );
    assert_eq!(r, Err(ErrorCode::InvalidMerkleProof));
    assert!(claim_slot.is_none());
}

#[test]
fn claim_exceeding_remaining_balance_fails() {
    let leaf_a = claim_leaf(&CLAIMANT, 950_000);
    let leaf_b = claim_leaf(&OTHER_CLAIMANT, 250_000);
    let root = combine(&leaf_a, &leaf_b);
    // The tree promises 950,000, but only 900,000 remains distributable.
    let (mut report, treasury, _) = distribution_ready_report(root);
    let mut claim_slot: Option<ClaimRecord> = None;
    let r = claim_earnings(
        &mut report,
        &treasury,
        &mut claim_slot,
        CLAIMANT,
        CLAIMANT_TOKENS,
        950_000,
        &vec![leaf_b],
    );
    assert_eq!(r, Err(ErrorCode::InsufficientFundsForClaim));
    assert_eq!(report.remaining_for_distribution, 900_000);
}

#[test]
fn distribution_root_cannot_be_replaced_once_set() {
    // A hand-built report that is still Ready yet already carries a root:
    // the transition rejects a second root on its own, independent of the
    // status check.
    let mut report = Report {
        report_id: 0,
        buyer: BUYER,
        report_type: ReportType::Daily,
        timeframe_days: 1,
        paid_amount: 1_000_000,
        ipfs_cid: Some(String::from("cidABC")),
        status: ReportStatus::Ready,
        created_at: 1,
        remaining_for_distribution: 900_000,
        merkle_root: Some(vec![1u8; 32]),
    };
    let mut machine_slot = None;
    initialize_machine(&mut machine_slot, OWNER, 1_000_000, TOKEN).unwrap();
    let m = machine_slot.unwrap();
    let r = submit_distribution_root(&mut report, &m, OWNER, vec![2u8; 32]);
    assert_eq!(r, Err(ErrorCode::DistributionRootAlreadySet));
    assert_eq!(report.merkle_root, Some(vec![1u8; 32]));
}

#[test]
fn exact_remaining_balance_can_be_claimed_to_zero() {
    let leaf_a = claim_leaf(&CLAIMANT, 900_000);
    let leaf_b = claim_leaf(&OTHER_CLAIMANT, 1);
    let root = combine(&leaf_a, &leaf_b);
    let (mut report, treasury, _) = distribution_ready_report(root);
    let mut claim_slot: Option<ClaimRecord> = None;
    claim_earnings(
        &mut report,
        &treasury,
        &mut claim_slot,
        CLAIMANT,
        CLAIMANT_TOKENS,
        900_000,
        &vec![leaf_b],
    )
    .unwrap();
    assert_eq!(report.remaining_for_distribution, 0);
}
