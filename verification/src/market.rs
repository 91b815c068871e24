use crate::errors::ErrorCode;
use crate::keys::Pubkey;
use crate::machine::MachineConfig;
use vstd::prelude::*;
use vstd::string::StrSliceExecFns;

verus! {

/// Maximum length, in characters, of a report's content locator.
pub const MAX_CID_LEN: usize = 64;

/// The percentage of a report's price paid out to the machine owner at
/// purchase; the remainder is escrowed for distribution.
pub const OWNER_SHARE_PERCENT: u64 = 10;

/// The kind of a purchasable report; each kind has a fixed price.
#[derive(Clone, Copy, Debug, PartialEq, Eq, Structural)]
pub enum ReportType {
    Daily,
    Weekly,
    Monthly,
}

/// The lifecycle status of a report. Transitions move strictly forward:
/// Pending, then Ready once content is attached, then DistributionReady once
/// a Merkle root is set; a report is implicitly distributed when its
/// remaining balance reaches zero.
#[derive(Clone, Copy, Debug, PartialEq, Eq, Structural)]
pub enum ReportStatus {
    Pending,
    Ready,
    DistributionReady,
    Distributed,
}

/// Singleton treasury: the token account that escrows report revenue, the
/// cumulative amount collected, and the counter that numbers reports.
#[derive(Clone, Copy, Debug, PartialEq, Eq, Structural)]
pub struct Treasury {
    pub token_account: Pubkey,
    pub total_collected: u64,
    pub report_count: u64,
}

/// A purchased report: its sequential id, buyer, kind, paid price, optional
/// content locator, status, creation time, the balance still distributable
/// to claimants, and the optional Merkle root that gates claims.
#[derive(Clone, Debug, PartialEq, Eq)]
pub struct Report {
    pub report_id: u64,
    pub buyer: Pubkey,
    pub report_type: ReportType,
    pub timeframe_days: u8,
    pub paid_amount: u64,
    pub ipfs_cid: Option<String>,
    pub status: ReportStatus,
    pub created_at: i64,
    pub remaining_for_distribution: u64,
    pub merkle_root: Option<Vec<u8>>,
}

/// A token movement for the host to execute: `amount` from the `from` token
/// account to the `to` token account. When `treasury_authorized` holds, the
/// treasury itself authorizes the movement via its derivation salt;
/// otherwise the `from` account's holder must have signed.
#[derive(Clone, Copy, Debug, PartialEq, Eq, Structural)]
pub struct TransferRequest {
    pub from: Pubkey,
    pub to: Pubkey,
    pub amount: u64,
    pub treasury_authorized: bool,
}

/// Notification emitted when a report is purchased.
#[derive(Clone, Copy, Debug, PartialEq, Eq, Structural)]
pub struct ReportPurchased {
    pub report_id: u64,
    pub buyer: Pubkey,
    pub report_type: ReportType,
    pub paid_amount: u64,
}

/// Notification emitted when a report's content is attached.
#[derive(Clone, Debug, PartialEq, Eq)]
pub struct ReportReady {
    pub report_id: u64,
    pub ipfs_cid: String,
}

/// The successful outcome of a report purchase: the two token movements the
/// host must execute, and the purchase notification. The purchase stands
/// only if both movements succeed; the host discards every state change of
/// the operation when either fails.
#[derive(Clone, Copy, Debug, PartialEq, Eq, Structural)]
pub struct ReportPurchase {
    pub debit_buyer: TransferRequest,
    pub pay_owner: TransferRequest,
    pub event: ReportPurchased,
}

/// The fixed price of each report kind, in minor units of the accepted
/// token.
pub open spec fn spec_report_price(report_type: ReportType) -> u64 {
    match report_type {
        ReportType::Daily => 1_000_000u64,
        ReportType::Weekly => 5_000_000u64,
        ReportType::Monthly => 20_000_000u64,
    }
}

/// The owner's cut of a report price. The quotient never exceeds the price,
/// so the cast is exact.
pub open spec fn spec_owner_share(price: u64) -> u64 {
    ((price * OWNER_SHARE_PERCENT) / 100) as u64
}

/// Well-formedness of a report, established at purchase and preserved by
/// every later transition: the escrowed remainder never exceeds the price
/// paid, the locator and the root track the status (a pending report has
/// neither, a ready one has only the locator, one open for distribution has
/// both), and a stored root is 32 bytes.
pub open spec fn report_wf(r: Report) -> bool {
    &&& r.remaining_for_distribution <= r.paid_amount
    &&& (r.status == ReportStatus::Pending ==> r.ipfs_cid is None && r.merkle_root is None)
    &&& (r.status == ReportStatus::Ready ==> r.ipfs_cid is Some && r.merkle_root is None)
    &&& (r.status == ReportStatus::DistributionReady ==> r.ipfs_cid is Some && r.merkle_root
        is Some)
    &&& (r.merkle_root matches Some(root) ==> root@.len() == 32)
}

/// Returns the fixed price of a report kind.
pub fn get_report_price(report_type: ReportType) -> (price: u64)
    ensures
        price == spec_report_price(report_type),
{
    match report_type {
        ReportType::Daily => 1_000_000,
        ReportType::Weekly => 5_000_000,
        ReportType::Monthly => 20_000_000,
    }
}

/// Creates the treasury singleton bound to one escrow token account, with
/// nothing collected and no reports yet. Fails if the treasury's derived
/// address is already occupied.
pub fn initialize_treasury(slot: &mut Option<Treasury>, token_account: Pubkey) -> (r: Result<
    (),
    ErrorCode,
>)
    ensures
        (*old(slot)) is Some ==> {
            &&& r == Err::<(), ErrorCode>(ErrorCode::AccountAlreadyInUse)
            &&& *final(slot) == *old(slot)
        },
        (*old(slot)) is None ==> {
            &&& r is Ok
            &&& *final(slot) == Some(
                Treasury { token_account, total_collected: 0u64, report_count: 0u64 },
            )
        },
{
    if slot.is_some() {
        return Err(ErrorCode::AccountAlreadyInUse);
    }
    *slot = Some(Treasury { token_account, total_collected: 0, report_count: 0 });
    Ok(())
}

/// Purchases a report of the given kind: requests the full price moved from
/// the buyer's token account into the treasury and the owner's cut moved
/// from the treasury to the owner's token account, creates the report in
/// pending status with the remainder escrowed for distribution, and numbers
/// it with the treasury's pre-increment counter, which makes ids unique and
/// append-only. `owner_token_account_holder` is the holder of the owner's
/// token account as the host read it; it must match the machine owner.
pub fn buy_report(
    report_slot: &mut Option<Report>,
    treasury: &mut Treasury,
    machine: &MachineConfig,
    buyer: Pubkey,
    buyer_token_account: Pubkey,
    owner_token_account: Pubkey,
    owner_token_account_holder: Pubkey,
    report_type: ReportType,
    timeframe_days: u8,
    now: i64,
) -> (r: Result<ReportPurchase, ErrorCode>)
    requires
        old(treasury).total_collected + spec_report_price(report_type) <= u64::MAX,
        old(treasury).report_count < u64::MAX,
    ensures
        (*old(report_slot)) is Some ==> {
            &&& r == Err::<ReportPurchase, ErrorCode>(ErrorCode::AccountAlreadyInUse)
            &&& *final(report_slot) == *old(report_slot)
            &&& *final(treasury) == *old(treasury)
        },
        (*old(report_slot)) is None && owner_token_account_holder != machine.owner ==> {
            &&& r == Err::<ReportPurchase, ErrorCode>(ErrorCode::OwnerAccountMismatch)
            &&& *final(report_slot) == *old(report_slot)
            &&& *final(treasury) == *old(treasury)
        },
        (*old(report_slot)) is None && owner_token_account_holder == machine.owner ==> {
            let price = spec_report_price(report_type);
            let share = spec_owner_share(price);
            &&& r == Ok::<ReportPurchase, ErrorCode>(
                ReportPurchase {
                    debit_buyer: TransferRequest {
                        from: buyer_token_account,
                        to: old(treasury).token_account,
                        amount: price,
                        treasury_authorized: false,
                    },
                    pay_owner: TransferRequest {
                        from: old(treasury).token_account,
                        to: owner_token_account,
                        amount: share,
                        treasury_authorized: true,
                    },
                    event: ReportPurchased {
                        report_id: old(treasury).report_count,
                        buyer,
                        report_type,
                        paid_amount: price,
                    },
                },
            )
            &&& *final(report_slot) == Some(
                Report {
                    report_id: old(treasury).report_count,
                    buyer,
                    report_type,
                    timeframe_days,
                    paid_amount: price,
                    ipfs_cid: None,
                    status: ReportStatus::Pending,
                    created_at: now,
                    remaining_for_distribution: (price - share) as u64,
                    merkle_root: None,
                },
            )
            &&& final(treasury).token_account == old(treasury).token_account
            &&& final(treasury).total_collected == old(treasury).total_collected + price
            &&& final(treasury).report_count == old(treasury).report_count + 1
            &&& (*final(report_slot)) matches Some(rep) && report_wf(rep)
        },
{
    if report_slot.is_some() {
        return Err(ErrorCode::AccountAlreadyInUse);
    }
    if !(owner_token_account_holder == machine.owner) {
        return Err(ErrorCode::OwnerAccountMismatch);
    }
    let price = get_report_price(report_type);
    let owner_share = match price.checked_mul(OWNER_SHARE_PERCENT) {
        Some(scaled) => match scaled.checked_div(100) {
            Some(share) => share,
            None => {
                return Err(ErrorCode::CalculationOverflow);
            },
        },
        None => {
            return Err(ErrorCode::CalculationOverflow);
        },
    };
    let debit_buyer = TransferRequest {
        from: buyer_token_account,
        to: treasury.token_account,
        amount: price,
        treasury_authorized: false,
    };
    let pay_owner = TransferRequest {
        from: treasury.token_account,
        to: owner_token_account,
        amount: owner_share,
        treasury_authorized: true,
    };
    let report = Report {
        report_id: treasury.report_count,
        buyer,
        report_type,
        timeframe_days,
        paid_amount: price,
        ipfs_cid: None,
        status: ReportStatus::Pending,
        created_at: now,
        remaining_for_distribution: price - owner_share,
        merkle_root: None,
    };
    let event = ReportPurchased {
        report_id: treasury.report_count,
        buyer,
        report_type,
        paid_amount: price,
    };
    *report_slot = Some(report);
    treasury.total_collected = treasury.total_collected + price;
    treasury.report_count = treasury.report_count + 1;
    Ok(ReportPurchase { debit_buyer, pay_owner, event })
}

/// Attaches a report's content locator. Restricted to the machine owner; the
/// report must still be pending and the locator at most `MAX_CID_LEN`
/// characters. On success the locator is stored, the status moves to Ready,
/// and a readiness notification is returned.
pub fn attach_report_data(
    report: &mut Report,
    machine: &MachineConfig,
    authority: Pubkey,
    ipfs_cid: String,
) -> (r: Result<ReportReady, ErrorCode>)
    ensures
        authority != machine.owner ==> {
            &&& r == Err::<ReportReady, ErrorCode>(ErrorCode::OwnerAccountMismatch)
            &&& *final(report) == *old(report)
        },
        authority == machine.owner && old(report).status != ReportStatus::Pending ==> {
            &&& r == Err::<ReportReady, ErrorCode>(ErrorCode::ReportNotPending)
            &&& *final(report) == *old(report)
        },
        authority == machine.owner && old(report).status == ReportStatus::Pending && ipfs_cid@.len()
            > MAX_CID_LEN ==> {
            &&& r == Err::<ReportReady, ErrorCode>(ErrorCode::CidTooLong)
            &&& *final(report) == *old(report)
        },
        authority == machine.owner && old(report).status == ReportStatus::Pending && ipfs_cid@.len()
            <= MAX_CID_LEN ==> {
            &&& r == Ok::<ReportReady, ErrorCode>(
                ReportReady { report_id: old(report).report_id, ipfs_cid },
            )
            &&& *final(report) == Report {
                ipfs_cid: Some(ipfs_cid),
                status: ReportStatus::Ready,
                ..*old(report)
            }
        },
        report_wf(*old(report)) ==> report_wf(*final(report)),
{
    if !(authority == machine.owner) {
        return Err(ErrorCode::OwnerAccountMismatch);
    }
    if !(report.status == ReportStatus::Pending) {
        return Err(ErrorCode::ReportNotPending);
    }
    if ipfs_cid.as_str().unicode_len() > MAX_CID_LEN {
        return Err(ErrorCode::CidTooLong);
    }
    report.ipfs_cid = Some(ipfs_cid.clone());
    report.status = ReportStatus::Ready;
    Ok(ReportReady { report_id: report.report_id, ipfs_cid })
}

/// Sets a report's distribution root. Restricted to the machine owner; the
/// report must be Ready and must not carry a root yet. On success the root
/// is stored and the status moves to DistributionReady, which unlocks
/// claims.
pub fn submit_distribution_root(
    report: &mut Report,
    machine: &MachineConfig,
    authority: Pubkey,
    merkle_root: Vec<u8>,
) -> (r: Result<(), ErrorCode>)
    requires
        merkle_root@.len() == 32,
    ensures
        authority != machine.owner ==> {
            &&& r == Err::<(), ErrorCode>(ErrorCode::OwnerAccountMismatch)
            &&& *final(report) == *old(report)
        },
        authority == machine.owner && old(report).status != ReportStatus::Ready ==> {
            &&& r == Err::<(), ErrorCode>(ErrorCode::ReportNotReady)
            &&& *final(report) == *old(report)
        },
        authority == machine.owner && old(report).status == ReportStatus::Ready && (old(
            report,
        ).merkle_root) is Some ==> {
            &&& r == Err::<(), ErrorCode>(ErrorCode::DistributionRootAlreadySet)
            &&& *final(report) == *old(report)
        },
        authority == machine.owner && old(report).status == ReportStatus::Ready && (old(
            report,
        ).merkle_root) is None ==> {
            &&& r is Ok
            &&& *final(report) == Report {
                merkle_root: Some(merkle_root),
                status: ReportStatus::DistributionReady,
                ..*old(report)
            }
        },
        report_wf(*old(report)) ==> report_wf(*final(report)),
{
    if !(authority == machine.owner) {
        return Err(ErrorCode::OwnerAccountMismatch);
    }
    if !(report.status == ReportStatus::Ready) {
        return Err(ErrorCode::ReportNotReady);
    }
    if report.merkle_root.is_some() {
        return Err(ErrorCode::DistributionRootAlreadySet);
    }
    report.merkle_root = Some(merkle_root);
    report.status = ReportStatus::DistributionReady;
    Ok(())
}

} // verus!
