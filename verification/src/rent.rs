//! The rent-exempt balance of a new account, from the cluster's rent sysvar.
use vstd::prelude::*;
use pinocchio::sysvars::rent::Rent;
use crate::error::ProgramError;

verus! {

/// The largest account data size the runtime permits (10 MiB).
pub const MAX_PERMITTED_DATA_LENGTH: usize = 10485760;

/// The largest rate per byte the rent sysvar accepts.
pub const MAX_LAMPORTS_PER_BYTE: u64 = 1759197129867;

/// The rent-exempt balance of an account of `space` data bytes at `rate` lamports
/// per byte: the account's bytes and its 128 bytes of storage overhead, each at `rate`.
pub open spec fn rent_at_rate(space: int, rate: u64) -> int {
    (128 + space) * rate
}

/// The rent sysvar, which the runtime provides.
#[verifier::external_type_specification]
#[verifier::external_body]
pub struct ExRent(Rent);

/// Calls `Rent::try_minimum_balance`. Its source refuses a data length above 10 MiB
/// and a rate per byte above `MAX_LAMPORTS_PER_BYTE`, and otherwise returns
/// `(128 + data_len) * rate`; the rate is the sysvar's private field. This contract
/// claims the refusal of a too-large length and that an accepted result is
/// `(128 + data_len)` times some rate not above that bound; which rate, and so which
/// result, is left unsaid, since it depends on the cluster.
#[verifier::external_body]
fn rent_try_minimum_balance(rent: &Rent, data_len: usize) -> (r: Option<u64>)
    ensures
        data_len > MAX_PERMITTED_DATA_LENGTH ==> r is None,
        r matches Some(v) ==> exists|rate: u64|
            rate <= MAX_LAMPORTS_PER_BYTE && v == #[trigger] rent_at_rate(data_len as int, rate),
{
    rent.try_minimum_balance(data_len).ok()
}

/// The balance an account of `space` data bytes needs to be exempt from rent.
/// The rent sysvar's only refusal is `InvalidArgument`, which a space above the
/// permitted maximum always meets.
pub fn rent_exempt_lamports(rent: &Rent, space: usize) -> (r: Result<u64, ProgramError>)
    ensures
        space > MAX_PERMITTED_DATA_LENGTH ==> r == Err::<u64, ProgramError>(
            ProgramError::InvalidArgument,
        ),
        r matches Err(e) ==> e == ProgramError::InvalidArgument,
        r matches Ok(v) ==> exists|rate: u64|
            rate <= MAX_LAMPORTS_PER_BYTE && v == #[trigger] rent_at_rate(space as int, rate),
{
    match rent_try_minimum_balance(rent, space) {
        Some(lamports) => Ok(lamports),
        None => Err(ProgramError::InvalidArgument),
    }
}

} // verus!
