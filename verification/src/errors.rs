use vstd::prelude::*;

verus! {

/// Failure code of an operation. Every operation rejects as a whole with one
/// of these; no partial state change survives a failure.
#[derive(Clone, Copy, Debug, PartialEq, Eq, Structural)]
pub enum ErrorCode {
    /// A voucher's expiry timestamp was not strictly in the future.
    InvalidExpiry,
    /// The voucher was already redeemed.
    AlreadyRedeemed,
    /// The voucher's expiry timestamp has passed.
    VoucherExpired,
    /// Fewer than the required number of purchases for a reward mint.
    InsufficientPurchases,
    /// A reward mint is already recorded for this user.
    NftAlreadyMinted,
    /// No reward mint is recorded, so there is nothing to redeem.
    NoNftToRedeem,
    /// The report is not in pending status.
    ReportNotPending,
    /// The content locator exceeds the maximum length.
    CidTooLong,
    /// The report is not ready to receive a distribution root.
    ReportNotReady,
    /// A distribution root has already been set.
    DistributionRootAlreadySet,
    /// The report has no distribution root yet, so claims are not open.
    DistributionNotReady,
    /// The Merkle proof does not reconstruct the stored root.
    InvalidMerkleProof,
    /// The caller or a destination account does not match the machine owner.
    OwnerAccountMismatch,
    /// The claimed amount exceeds the report's remaining distributable balance.
    InsufficientFundsForClaim,
    /// Overflow or underflow in a share or balance computation.
    CalculationOverflow,
    /// A creation targeted a derived address that is already occupied; this is
    /// the host runtime's storage-collision rejection surfaced as a code.
    AccountAlreadyInUse,
}

impl ErrorCode {
    /// Human-readable message for the code.
    pub fn message(&self) -> &'static str {
        match self {
            ErrorCode::InvalidExpiry => "Invalid expiry timestamp",
            ErrorCode::AlreadyRedeemed => "Voucher already redeemed",
            ErrorCode::VoucherExpired => "Voucher has expired",
            ErrorCode::InsufficientPurchases => "Insufficient purchases for NFT mint",
            ErrorCode::NftAlreadyMinted => "NFT already minted for this user",
            ErrorCode::NoNftToRedeem => "No NFT to redeem",
            ErrorCode::ReportNotPending => "Report is not in pending status",
            ErrorCode::CidTooLong => "IPFS CID too long (max 64 chars)",
            ErrorCode::ReportNotReady => "Report not ready for distribution root",
            ErrorCode::DistributionRootAlreadySet => "Distribution root has already been set",
            ErrorCode::DistributionNotReady => "Distribution is not ready for claims",
            ErrorCode::InvalidMerkleProof => "Invalid Merkle Proof",
            ErrorCode::OwnerAccountMismatch => "Owner token account does not match machine owner",
            ErrorCode::InsufficientFundsForClaim => "Insufficient funds remaining for this claim",
            ErrorCode::CalculationOverflow => "Calculation overflow",
            ErrorCode::AccountAlreadyInUse => "Account address already in use",
        }
    }
}

} // verus!
