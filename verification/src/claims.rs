use crate::errors::ErrorCode;
use crate::hashing::keccak_concat;
use crate::hashing::keccak_of;
use crate::keys::pubkey_bytes;
use crate::keys::pubkey_to_bytes;
use crate::keys::Pubkey;
use crate::market::report_wf;
use crate::market::Report;
use crate::market::ReportStatus;
use crate::market::TransferRequest;
use crate::market::Treasury;
use crate::merkle::hash_views;
use crate::merkle::merkle_fold;
use crate::merkle::verify_merkle_proof;
use vstd::bytes::spec_u64_to_le_bytes;
use vstd::bytes::u64_to_le_bytes;
use vstd::prelude::*;

verus! {

/// The record of one claimant's payout from one report. Its mere existence
/// at the derived address for (claimant, report id) blocks any second claim
/// for the same pair; there is no separate "already claimed" flag.
#[derive(Clone, Copy, Debug, PartialEq, Eq, Structural)]
pub struct ClaimRecord {
    pub claimant: Pubkey,
    pub report_id: u64,
    pub amount: u64,
}

/// The leaf a claim is verified against: the digest of the claimant's
/// 32-byte identity followed by the claimed amount in little-endian bytes.
pub open spec fn claim_leaf(claimant: Pubkey, amount: u64) -> Seq<u8> {
    keccak_of(pubkey_bytes(claimant) + spec_u64_to_le_bytes(amount))
}

/// The claim transition of a report: it fails when the claim record's
/// derived address is occupied (a claim for this pair already went through),
/// when no distribution root is set or the report is not open for
/// distribution, when the amount exceeds the remaining balance, or when the
/// proof does not reconstruct the root. Otherwise the remaining balance is
/// drawn down by the amount and the claim record is created.
pub open spec fn spec_claim_earnings(
    report: Report,
    slot: Option<ClaimRecord>,
    claimant: Pubkey,
    amount: u64,
    siblings: Seq<Seq<u8>>,
) -> Result<(Report, ClaimRecord), ErrorCode> {
    if slot is Some {
        Err(ErrorCode::AccountAlreadyInUse)
    } else {
        match report.merkle_root {
            None => Err(ErrorCode::DistributionNotReady),
            Some(root) => {
                if report.status != ReportStatus::DistributionReady {
                    Err(ErrorCode::DistributionNotReady)
                } else if amount > report.remaining_for_distribution {
                    Err(ErrorCode::InsufficientFundsForClaim)
                } else if merkle_fold(claim_leaf(claimant, amount), siblings) != root@ {
                    Err(ErrorCode::InvalidMerkleProof)
                } else {
                    Ok(
                        (
                            Report {
                                remaining_for_distribution: (report.remaining_for_distribution
                                    - amount) as u64,
                                ..report
                            },
                            ClaimRecord { claimant, report_id: report.report_id, amount },
                        ),
                    )
                }
            },
        }
    }
}

/// Claims earnings from a report following `spec_claim_earnings`: the leaf
/// for (claimant, amount) is rebuilt and the proof verified against the
/// stored root. On success the remaining balance is drawn down, the claim
/// record is written into the vacant slot, and the treasury-authorized
/// payout to the claimant's token account is returned for the host to
/// execute; the claim stands only if that payout succeeds.
pub fn claim_earnings(
    report: &mut Report,
    treasury: &Treasury,
    claim_slot: &mut Option<ClaimRecord>,
    claimant: Pubkey,
    claimant_token_account: Pubkey,
    amount: u64,
    siblings: &Vec<Vec<u8>>,
) -> (r: Result<TransferRequest, ErrorCode>)
    ensures
        match spec_claim_earnings(
            *old(report),
            *old(claim_slot),
            claimant,
            amount,
            hash_views(siblings@),
        ) {
            Ok((r2, rec)) => {
                &&& *final(report) == r2
                &&& *final(claim_slot) == Some(rec)
                &&& r == Ok::<TransferRequest, ErrorCode>(
                    TransferRequest {
                        from: treasury.token_account,
                        to: claimant_token_account,
                        amount,
                        treasury_authorized: true,
                    },
                )
                &&& report_wf(*old(report)) ==> report_wf(*final(report))
            },
            Err(code) => {
                &&& r == Err::<TransferRequest, ErrorCode>(code)
                &&& *final(report) == *old(report)
                &&& *final(claim_slot) == *old(claim_slot)
            },
        },
{
    if claim_slot.is_some() {
        return Err(ErrorCode::AccountAlreadyInUse);
    }
    if report.merkle_root.is_none() {
        return Err(ErrorCode::DistributionNotReady);
    }
    if !(report.status == ReportStatus::DistributionReady) {
        return Err(ErrorCode::DistributionNotReady);
    }
    if amount > report.remaining_for_distribution {
        return Err(ErrorCode::InsufficientFundsForClaim);
    }
    let claimant_bytes = pubkey_to_bytes(&claimant);
    let amount_bytes = u64_to_le_bytes(amount);
    let leaf = keccak_concat(&claimant_bytes, &amount_bytes);
    let verified = match &report.merkle_root {
        Some(root) => verify_merkle_proof(siblings, root, leaf),
        None => false,
    };
    if !verified {
        return Err(ErrorCode::InvalidMerkleProof);
    }
    let remaining = match report.remaining_for_distribution.checked_sub(amount) {
        Some(remaining) => remaining,
        None => {
            return Err(ErrorCode::CalculationOverflow);
        },
    };
    report.remaining_for_distribution = remaining;
    *claim_slot = Some(ClaimRecord { claimant, report_id: report.report_id, amount });
    Ok(
        TransferRequest {
            from: treasury.token_account,
            to: claimant_token_account,
            amount,
            treasury_authorized: true,
        },
    )
}

/// A report's remaining distributable balance never increases and never goes
/// below zero: a successful claim draws it down by exactly the claimed
/// amount, which the transition only admits up to the remaining balance.
pub proof fn lemma_claim_draws_down_remaining(
    report: Report,
    slot: Option<ClaimRecord>,
    claimant: Pubkey,
    amount: u64,
    siblings: Seq<Seq<u8>>,
)
    ensures
        spec_claim_earnings(report, slot, claimant, amount, siblings) matches Ok((r2, rec)) ==> {
            &&& r2.remaining_for_distribution == report.remaining_for_distribution - amount
            &&& r2.remaining_for_distribution <= report.remaining_for_distribution
            &&& r2.remaining_for_distribution >= 0
            &&& rec.amount == amount
        },
{
}

/// Double-claim prevention: a successful claim occupies the claim record's
/// derived address, so any second claim through the same slot fails with the
/// storage collision, whatever amount or proof it brings.
pub proof fn lemma_claim_at_most_once(
    report: Report,
    slot: Option<ClaimRecord>,
    claimant: Pubkey,
    amount: u64,
    siblings: Seq<Seq<u8>>,
    amount2: u64,
    siblings2: Seq<Seq<u8>>,
)
    ensures
        spec_claim_earnings(report, slot, claimant, amount, siblings) matches Ok((r2, rec))
            ==> spec_claim_earnings(r2, Some(rec), claimant, amount2, siblings2) == Err::<
            (Report, ClaimRecord),
            ErrorCode,
        >(ErrorCode::AccountAlreadyInUse),
{
}

} // verus!
