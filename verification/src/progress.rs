use crate::errors::ErrorCode;
use crate::keys::Pubkey;
use crate::machine::MachineConfig;
use vstd::prelude::*;

verus! {

/// A user's purchase count never exceeds this cap; reaching it unlocks the
/// loyalty reward.
pub const PURCHASE_CAP: u8 = 10;

/// Per-user purchase progress toward the loyalty reward: a capped purchase
/// counter, the reward mint once assigned, the user's opt-in preference and
/// cumulative earnings.
#[derive(Clone, Copy, Debug, PartialEq, Eq)]
pub struct UserProgress {
    pub user: Pubkey,
    pub purchase_count: u8,
    pub nft_mint: Option<Pubkey>,
    pub opt_in: bool,
    pub total_earnings: u64,
}

/// Notification emitted when a user's progress is incremented.
#[derive(Clone, Copy, Debug, PartialEq, Eq, Structural)]
pub struct ProgressIncremented {
    pub user: Pubkey,
    pub new_count: u8,
}

/// The increment transition of a user's progress. A vacant record is lazily
/// initialized with the caller-supplied opt-in preference and zero earnings;
/// a count below the cap is incremented, and a count at the cap is left as
/// it is (the cap is silent, not an error). Restricted to the machine owner.
pub open spec fn spec_increment_progress(
    slot: Option<UserProgress>,
    owner: Pubkey,
    user: Pubkey,
    opt_in: bool,
    authority: Pubkey,
) -> Result<UserProgress, ErrorCode> {
    if authority != owner {
        Err(ErrorCode::OwnerAccountMismatch)
    } else {
        let p = match slot {
            None => UserProgress {
                user,
                purchase_count: 0u8,
                nft_mint: None,
                opt_in,
                total_earnings: 0u64,
            },
            Some(p) => p,
        };
        if p.purchase_count < PURCHASE_CAP {
            Ok(UserProgress { purchase_count: (p.purchase_count + 1) as u8, ..p })
        } else {
            Ok(p)
        }
    }
}

/// The reward-mint assignment transition: it fails on an unauthorized
/// caller, a count below the cap, or an already-assigned reward mint, and
/// otherwise records the mint. One-shot by construction.
pub open spec fn spec_set_nft_mint(
    p: UserProgress,
    owner: Pubkey,
    authority: Pubkey,
    nft_mint: Pubkey,
) -> Result<UserProgress, ErrorCode> {
    if authority != owner {
        Err(ErrorCode::OwnerAccountMismatch)
    } else if p.purchase_count < PURCHASE_CAP {
        Err(ErrorCode::InsufficientPurchases)
    } else if p.nft_mint is Some {
        Err(ErrorCode::NftAlreadyMinted)
    } else {
        Ok(UserProgress { nft_mint: Some(nft_mint), ..p })
    }
}

/// The reset transition: it fails on an unauthorized caller or when no
/// reward mint is recorded, and otherwise clears both the count and the
/// reward mint, permitting a new purchase cycle.
pub open spec fn spec_reset_progress(
    p: UserProgress,
    owner: Pubkey,
    authority: Pubkey,
) -> Result<UserProgress, ErrorCode> {
    if authority != owner {
        Err(ErrorCode::OwnerAccountMismatch)
    } else if p.nft_mint is None {
        Err(ErrorCode::NoNftToRedeem)
    } else {
        Ok(UserProgress { purchase_count: 0u8, nft_mint: None, ..p })
    }
}

/// Increments a user's progress following `spec_increment_progress`, and on
/// success also increments the machine's global sales counter within the
/// same transition and returns a progress notification.
pub fn increment_progress(
    slot: &mut Option<UserProgress>,
    machine: &mut MachineConfig,
    user: Pubkey,
    opt_in: bool,
    authority: Pubkey,
) -> (r: Result<ProgressIncremented, ErrorCode>)
    requires
        old(machine).total_sales < u64::MAX,
    ensures
        match spec_increment_progress(*old(slot), old(machine).owner, user, opt_in, authority) {
            Ok(p2) => {
                &&& *final(slot) == Some(p2)
                &&& r == Ok::<ProgressIncremented, ErrorCode>(
                    ProgressIncremented { user: p2.user, new_count: p2.purchase_count },
                )
                &&& final(machine).total_sales == old(machine).total_sales + 1
                &&& final(machine).owner == old(machine).owner
                &&& final(machine).token_mint == old(machine).token_mint
                &&& final(machine).price == old(machine).price
            },
            Err(code) => {
                &&& r == Err::<ProgressIncremented, ErrorCode>(code)
                &&& *final(slot) == *old(slot)
                &&& *final(machine) == *old(machine)
            },
        },
{
    if !(authority == machine.owner) {
        return Err(ErrorCode::OwnerAccountMismatch);
    }
    let mut p = match *slot {
        None => UserProgress { user, purchase_count: 0, nft_mint: None, opt_in, total_earnings: 0 },
        Some(p) => p,
    };
    if p.purchase_count < PURCHASE_CAP {
        p.purchase_count = p.purchase_count + 1;
    }
    machine.total_sales = machine.total_sales + 1;
    *slot = Some(p);
    Ok(ProgressIncremented { user: p.user, new_count: p.purchase_count })
}

/// Assigns the loyalty reward mint following `spec_set_nft_mint`.
pub fn set_nft_mint(
    progress: &mut UserProgress,
    machine: &MachineConfig,
    authority: Pubkey,
    nft_mint: Pubkey,
) -> (r: Result<(), ErrorCode>)
    ensures
        match spec_set_nft_mint(*old(progress), machine.owner, authority, nft_mint) {
            Ok(p2) => *final(progress) == p2 && r is Ok,
            Err(code) => {
                &&& r == Err::<(), ErrorCode>(code)
                &&& *final(progress) == *old(progress)
            },
        },
{
    if !(authority == machine.owner) {
        return Err(ErrorCode::OwnerAccountMismatch);
    }
    if progress.purchase_count < PURCHASE_CAP {
        return Err(ErrorCode::InsufficientPurchases);
    }
    if progress.nft_mint.is_some() {
        return Err(ErrorCode::NftAlreadyMinted);
    }
    progress.nft_mint = Some(nft_mint);
    Ok(())
}

/// Clears a user's progress after reward redemption following
/// `spec_reset_progress`.
pub fn reset_progress(
    progress: &mut UserProgress,
    machine: &MachineConfig,
    authority: Pubkey,
) -> (r: Result<(), ErrorCode>)
    ensures
        match spec_reset_progress(*old(progress), machine.owner, authority) {
            Ok(p2) => *final(progress) == p2 && r is Ok,
            Err(code) => {
                &&& r == Err::<(), ErrorCode>(code)
                &&& *final(progress) == *old(progress)
            },
        },
{
    if !(authority == machine.owner) {
        return Err(ErrorCode::OwnerAccountMismatch);
    }
    if progress.nft_mint.is_none() {
        return Err(ErrorCode::NoNftToRedeem);
    }
    progress.purchase_count = 0;
    progress.nft_mint = None;
    Ok(())
}

/// The purchase count stays within `[0, PURCHASE_CAP]`: every increment from
/// a record within the bound lands within the bound, and a fresh record
/// starts at 1.
pub proof fn lemma_increment_count_bounded(
    slot: Option<UserProgress>,
    owner: Pubkey,
    user: Pubkey,
    opt_in: bool,
    authority: Pubkey,
)
    requires
        slot matches Some(p) ==> p.purchase_count <= PURCHASE_CAP,
    ensures
        spec_increment_progress(slot, owner, user, opt_in, authority) matches Ok(p2)
            ==> p2.purchase_count <= PURCHASE_CAP,
        slot is None ==> (spec_increment_progress(slot, owner, user, opt_in, authority) matches Ok(
            p2,
        ) ==> p2.purchase_count == 1),
{
}

/// The reward mint cannot be assigned before the purchase count reaches the
/// cap: an authorized assignment on a count below the cap fails with
/// `InsufficientPurchases`.
pub proof fn lemma_set_nft_mint_needs_full_count(
    p: UserProgress,
    owner: Pubkey,
    authority: Pubkey,
    nft_mint: Pubkey,
)
    requires
        authority == owner,
        p.purchase_count < PURCHASE_CAP,
    ensures
        spec_set_nft_mint(p, owner, authority, nft_mint) == Err::<UserProgress, ErrorCode>(
            ErrorCode::InsufficientPurchases,
        ),
{
}

/// Reward-mint assignment is one-shot: after a successful assignment no
/// later assignment succeeds, and an authorized one fails precisely with
/// `NftAlreadyMinted`.
pub proof fn lemma_set_nft_mint_one_shot(
    p: UserProgress,
    owner: Pubkey,
    a1: Pubkey,
    a2: Pubkey,
    m1: Pubkey,
    m2: Pubkey,
)
    ensures
        spec_set_nft_mint(p, owner, a1, m1) matches Ok(p2) ==> !(spec_set_nft_mint(
            p2,
            owner,
            a2,
            m2,
        ) is Ok),
        spec_set_nft_mint(p, owner, a1, m1) matches Ok(p2) ==> (a2 == owner ==> spec_set_nft_mint(
            p2,
            owner,
            a2,
            m2,
        ) == Err::<UserProgress, ErrorCode>(ErrorCode::NftAlreadyMinted)),
{
}

/// Reset demands a recorded reward mint, and a successful reset clears both
/// the count and the mint, so that a following increment starts a fresh
/// cycle at count 1.
pub proof fn lemma_reset_starts_new_cycle(
    p: UserProgress,
    owner: Pubkey,
    authority: Pubkey,
    user: Pubkey,
    opt_in: bool,
)
    ensures
        (authority == owner && p.nft_mint is None) ==> spec_reset_progress(p, owner, authority)
            == Err::<UserProgress, ErrorCode>(ErrorCode::NoNftToRedeem),
        spec_reset_progress(p, owner, authority) matches Ok(p2) ==> {
            &&& p2.purchase_count == 0
            &&& p2.nft_mint is None
            &&& (spec_increment_progress(Some(p2), owner, user, opt_in, authority) matches Ok(p3)
                && p3.purchase_count == 1)
        },
{
}

} // verus!
