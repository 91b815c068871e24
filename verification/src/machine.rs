use crate::errors::ErrorCode;
use crate::keys::Pubkey;
use vstd::prelude::*;

verus! {

/// Singleton machine configuration: the owner identity that gates every
/// restricted operation, the accepted token, the unit price, and the global
/// sales counter. Immutable after creation except for `total_sales`.
#[derive(Clone, Copy, Debug, PartialEq, Eq, Structural)]
pub struct MachineConfig {
    pub owner: Pubkey,
    pub token_mint: Pubkey,
    pub price: u64,
    pub total_sales: u64,
}

/// Creates the machine singleton with the given price and accepted token,
/// a zero sales counter, and the caller as owner. Fails if the machine's
/// derived address is already occupied.
pub fn initialize_machine(
    slot: &mut Option<MachineConfig>,
    owner: Pubkey,
    price: u64,
    token_mint: Pubkey,
) -> (r: Result<(), ErrorCode>)
    ensures
        (*old(slot)) is Some ==> {
            &&& r == Err::<(), ErrorCode>(ErrorCode::AccountAlreadyInUse)
            &&& *final(slot) == *old(slot)
        },
        (*old(slot)) is None ==> {
            &&& r is Ok
            &&& *final(slot) == Some(
                MachineConfig { owner, token_mint, price, total_sales: 0u64 },
            )
        },
{
    if slot.is_some() {
        return Err(ErrorCode::AccountAlreadyInUse);
    }
    *slot = Some(MachineConfig { owner, token_mint, price, total_sales: 0 });
    Ok(())
}

} // verus!
