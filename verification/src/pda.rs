//! Program-derived addresses: the escrow account's address is derived from the
//! maker's address and a bump.
use vstd::prelude::*;
use crate::address::{Address, ESCROW_SEED, PROGRAM_ID};

verus! {

/// The address that the seeds `seeds` derive for `program_id`: the SHA-256 hash of
/// the seeds, the program id and the program-derived-address marker.
pub uninterp spec fn derived_address(seeds: Seq<Seq<u8>>, program_id: Seq<u8>) -> Seq<u8>;

/// Calls `pinocchio_pubkey::derive_address_const` with three seeds and no separate
/// bump. The contract only names the result: it is the address the seeds derive
/// for `program_id`, a function of the three seeds and the program id alone.
#[verifier::external_body]
fn derive_address_from_three_seeds(
    seed0: &[u8],
    seed1: &[u8],
    seed2: &[u8],
    program_id: &Address,
) -> (r: Address)
    ensures
        r@ == derived_address(seq![seed0@, seed1@, seed2@], program_id@),
{
    pinocchio_pubkey::derive_address_const(&[seed0, seed1, seed2], None, program_id)
}

/// The seeds of the escrow account made by `maker` with `bump`.
pub open spec fn escrow_seeds(maker: Seq<u8>, bump: u8) -> Seq<Seq<u8>> {
    seq![ESCROW_SEED@, maker, seq![bump]]
}

/// The address of the escrow account made by `maker` with `bump`.
pub open spec fn escrow_address_of(maker: Seq<u8>, bump: u8) -> Seq<u8> {
    derived_address(escrow_seeds(maker, bump), PROGRAM_ID@)
}

/// Derives the address of the escrow account that `maker` makes with `bump`.
pub fn derive_escrow_address(maker: &Address, bump: u8) -> (r: Address)
    ensures
        r@ == escrow_address_of(maker@, bump),
        r@ == derived_address(seq![ESCROW_SEED@, maker@, seq![bump]], PROGRAM_ID@),
{
    let bump_seed: [u8; 1] = [bump];
    let r = derive_address_from_three_seeds(
        ESCROW_SEED.as_slice(),
        maker.as_slice(),
        bump_seed.as_slice(),
        &PROGRAM_ID,
    );
    assert(bump_seed@ =~= seq![bump]);
    assert(seq![ESCROW_SEED@, maker@, bump_seed@] =~= escrow_seeds(maker@, bump));
    r
}

} // verus!
