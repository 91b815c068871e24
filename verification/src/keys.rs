use vstd::bytes::spec_u64_to_le_bytes;
use vstd::bytes::u64_to_le_bytes;
use vstd::prelude::*;

verus! {

/// A 32-byte account identity, held as four 64-bit words. The words are laid
/// out in little-endian order, so `pubkey_bytes` gives the identity's byte
/// representation, the one the claim leaf hash is computed over.
#[derive(Clone, Copy, Debug, Hash, PartialEq, Eq, Structural)]
pub struct Pubkey {
    pub w0: u64,
    pub w1: u64,
    pub w2: u64,
    pub w3: u64,
}

/// The 32-byte representation of an identity.
pub open spec fn pubkey_bytes(p: Pubkey) -> Seq<u8> {
    spec_u64_to_le_bytes(p.w0) + spec_u64_to_le_bytes(p.w1) + spec_u64_to_le_bytes(p.w2)
        + spec_u64_to_le_bytes(p.w3)
}

/// The identity's byte representation as a vector.
pub fn pubkey_to_bytes(p: &Pubkey) -> (r: Vec<u8>)
    ensures
        r@ == pubkey_bytes(*p),
        r@.len() == 32,
{
    let mut bytes = u64_to_le_bytes(p.w0);
    let mut part = u64_to_le_bytes(p.w1);
    bytes.append(&mut part);
    let mut part = u64_to_le_bytes(p.w2);
    bytes.append(&mut part);
    let mut part = u64_to_le_bytes(p.w3);
    bytes.append(&mut part);
    assert(bytes@ =~= pubkey_bytes(*p));
    bytes
}

} // verus!
