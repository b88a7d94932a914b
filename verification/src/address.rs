//! 32-byte account addresses and the fixed addresses the program compares against.
use vstd::prelude::*;

verus! {

/// An account address (a public key), as raw bytes.
pub type Address = [u8; 32];

/// The address this program is deployed at.
pub const PROGRAM_ID: Address = [
    97, 9, 82, 115, 219, 165, 24, 26, 199, 202, 130, 230, 95, 228, 40, 10,
    73, 109, 227, 216, 49, 191, 39, 213, 219, 15, 144, 151, 132, 50, 12, 222,
];

/// The address of the SPL token program, which owns every token account.
pub const TOKEN_PROGRAM_ID: Address = [
    6, 221, 246, 225, 215, 101, 161, 147, 217, 203, 225, 70, 206, 235, 121, 172,
    28, 180, 133, 237, 95, 91, 55, 145, 58, 140, 245, 133, 126, 255, 0, 169,
];

/// The first seed of every escrow account address: the bytes of `"escrow"`.
pub const ESCROW_SEED: [u8; 6] = [101, 115, 99, 114, 111, 119];

/// Compares two addresses byte by byte.
pub fn address_eq(a: &Address, b: &Address) -> (r: bool)
    ensures
        r == (a@ == b@),
{
    let mut i: usize = 0;
    while i < 32
        invariant
            0 <= i <= 32,
            forall|j: int| 0 <= j < i ==> a@[j] == b@[j],
        decreases 32 - i,
    {
        if a[i] != b[i] {
            return false;
        }
        i = i + 1;
    }
    assert(a@ =~= b@);
    true
}

/// Reads the 32 bytes of `data` that start at `offset` as an address.
pub fn read_address(data: &[u8], offset: usize) -> (r: Address)
    requires
        offset + 32 <= data@.len(),
    ensures
        r@ == data@.subrange(offset as int, offset + 32),
{
    let mut out: Address = [0u8; 32];
    let len: usize = data.len();
    let mut i: usize = 0;
    while i < 32
        invariant
            0 <= i <= 32,
            len == data@.len(),
            offset + 32 <= data@.len(),
            forall|j: int| 0 <= j < i ==> out@[j] == data@[offset + j],
        decreases 32 - i,
    {
        out[i] = data[offset + i];
        i = i + 1;
    }
    assert(out@ =~= data@.subrange(offset as int, offset + 32));
    out
}

} // verus!
