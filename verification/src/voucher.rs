use crate::errors::ErrorCode;
use crate::keys::Pubkey;
use crate::machine::MachineConfig;
use vstd::prelude::*;

verus! {

/// A per-purchase redemption token: bound to a user and a 32-byte commitment
/// hash, expiring at a fixed timestamp, usable exactly once. Kept forever as
/// an audit record.
#[derive(Clone, Debug)]
pub struct Voucher {
    pub user: Pubkey,
    pub hash_otp: Vec<u8>,
    pub expiry_ts: i64,
    pub redeemed: bool,
    pub is_free: bool,
    pub nonce: u64,
}

/// Notification emitted when a voucher is redeemed.
#[derive(Clone, Copy, Debug, PartialEq, Eq, Structural)]
pub struct VoucherRedeemed {
    pub user: Pubkey,
    pub timestamp: i64,
    pub is_free: bool,
}

/// The redemption transition of a voucher, given the machine owner, the
/// caller's identity and the current chain time: it fails on an unauthorized
/// caller, an already-redeemed voucher or a passed expiry, and otherwise
/// marks the voucher redeemed.
pub open spec fn spec_redeem_voucher(
    v: Voucher,
    owner: Pubkey,
    authority: Pubkey,
    now: i64,
) -> Result<Voucher, ErrorCode> {
    if authority != owner {
        Err(ErrorCode::OwnerAccountMismatch)
    } else if v.redeemed {
        Err(ErrorCode::AlreadyRedeemed)
    } else if now > v.expiry_ts {
        Err(ErrorCode::VoucherExpired)
    } else {
        Ok(Voucher { redeemed: true, ..v })
    }
}

/// Creates a voucher for `user` at a vacant derived address. Restricted to
/// the machine owner; the expiry must be strictly after the current chain
/// time `now`; the commitment hash is 32 bytes. The new voucher starts
/// unredeemed.
pub fn create_voucher(
    slot: &mut Option<Voucher>,
    machine: &MachineConfig,
    authority: Pubkey,
    user: Pubkey,
    hash_otp: Vec<u8>,
    expiry_ts: i64,
    is_free: bool,
    nonce: u64,
    now: i64,
) -> (r: Result<(), ErrorCode>)
    requires
        hash_otp@.len() == 32,
    ensures
        (*old(slot)) is Some ==> {
            &&& r == Err::<(), ErrorCode>(ErrorCode::AccountAlreadyInUse)
            &&& *final(slot) == *old(slot)
        },
        (*old(slot)) is None && authority != machine.owner ==> {
            &&& r == Err::<(), ErrorCode>(ErrorCode::OwnerAccountMismatch)
            &&& *final(slot) == *old(slot)
        },
        (*old(slot)) is None && authority == machine.owner && expiry_ts <= now ==> {
            &&& r == Err::<(), ErrorCode>(ErrorCode::InvalidExpiry)
            &&& *final(slot) == *old(slot)
        },
        (*old(slot)) is None && authority == machine.owner && expiry_ts > now ==> {
            &&& r is Ok
            &&& *final(slot) == Some(
                Voucher { user, hash_otp, expiry_ts, redeemed: false, is_free, nonce },
            )
        },
{
    if slot.is_some() {
        return Err(ErrorCode::AccountAlreadyInUse);
    }
    if !(authority == machine.owner) {
        return Err(ErrorCode::OwnerAccountMismatch);
    }
    if !(expiry_ts > now) {
        return Err(ErrorCode::InvalidExpiry);
    }
    *slot = Some(Voucher { user, hash_otp, expiry_ts, redeemed: false, is_free, nonce });
    Ok(())
}

/// Redeems a voucher at the current chain time `now`, following
/// `spec_redeem_voucher`: at most one redemption ever succeeds, and none
/// after expiry. On success the voucher is marked redeemed and a redemption
/// notification is returned; on failure the voucher is unchanged.
pub fn redeem_voucher(
    voucher: &mut Voucher,
    machine: &MachineConfig,
    authority: Pubkey,
    now: i64,
) -> (r: Result<VoucherRedeemed, ErrorCode>)
    ensures
        match spec_redeem_voucher(*old(voucher), machine.owner, authority, now) {
            Ok(v2) => {
                &&& *final(voucher) == v2
                &&& r == Ok::<VoucherRedeemed, ErrorCode>(
                    VoucherRedeemed {
                        user: old(voucher).user,
                        timestamp: now,
                        is_free: old(voucher).is_free,
                    },
                )
            },
            Err(code) => {
                &&& *final(voucher) == *old(voucher)
                &&& r == Err::<VoucherRedeemed, ErrorCode>(code)
            },
        },
{
    if !(authority == machine.owner) {
        return Err(ErrorCode::OwnerAccountMismatch);
    }
    if voucher.redeemed {
        return Err(ErrorCode::AlreadyRedeemed);
    }
    if now > voucher.expiry_ts {
        return Err(ErrorCode::VoucherExpired);
    }
    voucher.redeemed = true;
    Ok(VoucherRedeemed { user: voucher.user, timestamp: now, is_free: voucher.is_free })
}

/// Redemption succeeds at most once: once a redemption has gone through, no
/// later attempt succeeds, and an authorized later attempt fails precisely
/// with `AlreadyRedeemed`.
pub proof fn lemma_redeem_at_most_once(
    v: Voucher,
    owner: Pubkey,
    a1: Pubkey,
    a2: Pubkey,
    t1: i64,
    t2: i64,
)
    ensures
        spec_redeem_voucher(v, owner, a1, t1) matches Ok(v2) ==> !(spec_redeem_voucher(
            v2,
            owner,
            a2,
            t2,
        ) is Ok),
        spec_redeem_voucher(v, owner, a1, t1) matches Ok(v2) ==> (a2 == owner
            ==> spec_redeem_voucher(v2, owner, a2, t2) == Err::<Voucher, ErrorCode>(
            ErrorCode::AlreadyRedeemed,
        )),
{
}

/// Redemption after expiry fails with `VoucherExpired` even when the voucher
/// was never redeemed before.
pub proof fn lemma_redeem_after_expiry(v: Voucher, owner: Pubkey, authority: Pubkey, now: i64)
    requires
        authority == owner,
        !v.redeemed,
        now > v.expiry_ts,
    ensures
        spec_redeem_voucher(v, owner, authority, now) == Err::<Voucher, ErrorCode>(
            ErrorCode::VoucherExpired,
        ),
{
}

} // verus!
