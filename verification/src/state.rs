//! The escrow record kept in the escrow account's data, and the arguments of the
//! make instruction.
use vstd::prelude::*;
use vstd::bytes::{spec_u64_from_le_bytes, spec_u64_to_le_bytes, u64_from_le_bytes, u64_to_le_bytes};
use vstd::slice::{slice_subrange, slice_to_vec};
use crate::account::AccountSnapshot;
use crate::address::{Address, read_address};
use crate::error::ProgramError;

verus! {

/// The size of an escrow account's data: three addresses, two amounts and a bump.
pub const ESCROW_LEN: usize = 113;

/// The size of the encoded make arguments: a bump and two amounts.
pub const MAKE_ARGS_LEN: usize = 17;

/// The escrow record: who made the offer, which tokens it trades, how much of each,
/// and the bump with which the escrow account's address was derived.
///
/// Laid out in the account's data as `maker | mint_a | mint_b | amount_to_receive
/// | amount_to_give | bump`, the amounts in little-endian byte order.
#[derive(Debug, Clone, Copy, PartialEq, Eq)]
pub struct EscrowState {
    /// The wallet that made the offer.
    pub maker: Address,
    /// The mint of the tokens the maker deposits.
    pub mint_a: Address,
    /// The mint of the tokens the maker asks for.
    pub mint_b: Address,
    /// How many `mint_b` tokens the maker asks for.
    pub amount_to_receive: u64,
    /// How many `mint_a` tokens the maker deposits.
    pub amount_to_give: u64,
    /// The bump of the escrow account's address.
    pub bump: u8,
}

/// The bytes that record `s` in an escrow account.
pub open spec fn encode(s: EscrowState) -> Seq<u8> {
    s.maker@ + s.mint_a@ + s.mint_b@ + spec_u64_to_le_bytes(s.amount_to_receive)
        + spec_u64_to_le_bytes(s.amount_to_give) + seq![s.bump]
}

/// `b` is an escrow account's data and records exactly `s`.
pub open spec fn describes(s: EscrowState, b: Seq<u8>) -> bool {
    &&& b.len() == ESCROW_LEN
    &&& s.maker@ == b.subrange(0, 32)
    &&& s.mint_a@ == b.subrange(32, 64)
    &&& s.mint_b@ == b.subrange(64, 96)
    &&& s.amount_to_receive == spec_u64_from_le_bytes(b.subrange(96, 104))
    &&& s.amount_to_give == spec_u64_from_le_bytes(b.subrange(104, 112))
    &&& s.bump == b[112]
}

/// The amount asked for, as recorded in an escrow account's data.
pub open spec fn recorded_amount_to_receive(b: Seq<u8>) -> u64 {
    spec_u64_from_le_bytes(b.subrange(96, 104))
}

/// The amount deposited, as recorded in an escrow account's data.
pub open spec fn recorded_amount_to_give(b: Seq<u8>) -> u64 {
    spec_u64_from_le_bytes(b.subrange(104, 112))
}

/// The bump, as recorded in an escrow account's data.
pub open spec fn recorded_bump(b: Seq<u8>) -> u8 {
    b[112]
}

/// Decoding gives back what was encoded: the bytes that record `s` describe `s`.
pub proof fn lemma_encode_then_decode(s: EscrowState)
    ensures
        describes(s, encode(s)),
{
    vstd::bytes::lemma_auto_spec_u64_to_from_le_bytes();
    let b = encode(s);
    assert(b.subrange(0, 32) =~= s.maker@);
    assert(b.subrange(32, 64) =~= s.mint_a@);
    assert(b.subrange(64, 96) =~= s.mint_b@);
    assert(b.subrange(96, 104) =~= spec_u64_to_le_bytes(s.amount_to_receive));
    assert(b.subrange(104, 112) =~= spec_u64_to_le_bytes(s.amount_to_give));
}

/// Encoding gives back what was decoded: the bytes of an escrow account are the
/// encoding of the record they describe.
pub proof fn lemma_decode_then_encode(s: EscrowState, b: Seq<u8>)
    requires
        describes(s, b),
    ensures
        encode(s) == b,
{
    vstd::bytes::lemma_auto_spec_u64_to_from_le_bytes();
    assert(spec_u64_to_le_bytes(spec_u64_from_le_bytes(b.subrange(96, 104)))
        == b.subrange(96, 104));
    assert(spec_u64_to_le_bytes(spec_u64_from_le_bytes(b.subrange(104, 112)))
        == b.subrange(104, 112));
    assert(encode(s) =~= b);
}

/// An escrow account's data records at most one escrow state.
pub proof fn lemma_describes_unique(s1: EscrowState, s2: EscrowState, b: Seq<u8>)
    requires
        describes(s1, b),
        describes(s2, b),
    ensures
        s1 == s2,
{
    assert(s1.maker =~= s2.maker);
    assert(s1.mint_a =~= s2.mint_a);
    assert(s1.mint_b =~= s2.mint_b);
}

/// Appends all of `bytes` to `out`.
fn push_all(out: &mut Vec<u8>, bytes: &[u8])
    ensures
        final(out)@ == old(out)@ + bytes@,
{
    let mut tail = slice_to_vec(bytes);
    out.append(&mut tail);
}

impl EscrowState {
    /// The bytes that record this escrow in its account.
    pub fn to_bytes(&self) -> (r: Vec<u8>)
        ensures
            r@ == encode(*self),
            r@.len() == ESCROW_LEN,
            r@.subrange(0, 32) == self.maker@,
            r@.subrange(32, 64) == self.mint_a@,
            r@.subrange(64, 96) == self.mint_b@,
            spec_u64_from_le_bytes(r@.subrange(96, 104)) == self.amount_to_receive,
            spec_u64_from_le_bytes(r@.subrange(104, 112)) == self.amount_to_give,
            r@[112] == self.bump,
    {
        let mut out: Vec<u8> = Vec::new();
        push_all(&mut out, self.maker.as_slice());
        push_all(&mut out, self.mint_a.as_slice());
        push_all(&mut out, self.mint_b.as_slice());
        let mut receive = u64_to_le_bytes(self.amount_to_receive);
        out.append(&mut receive);
        let mut give = u64_to_le_bytes(self.amount_to_give);
        out.append(&mut give);
        out.push(self.bump);
        proof {
            lemma_encode_then_decode(*self);
        }
        assert(out@ =~= encode(*self));
        out
    }

    /// Reads the escrow recorded in an escrow account's data.
    pub fn from_bytes(data: &[u8]) -> (r: EscrowState)
        requires
            data@.len() == ESCROW_LEN,
        ensures
            describes(r, data@),
            r.maker@ == data@.subrange(0, 32),
            r.mint_a@ == data@.subrange(32, 64),
            r.mint_b@ == data@.subrange(64, 96),
            r.amount_to_receive == spec_u64_from_le_bytes(data@.subrange(96, 104)),
            r.amount_to_give == spec_u64_from_le_bytes(data@.subrange(104, 112)),
            r.bump == data@[112],
    {
        let maker = read_address(data, 0);
        let mint_a = read_address(data, 32);
        let mint_b = read_address(data, 64);
        let amount_to_receive: u64 = u64_from_le_bytes(slice_subrange(data, 96, 104));
        let amount_to_give: u64 = u64_from_le_bytes(slice_subrange(data, 104, 112));
        let bump: u8 = data[112];
        EscrowState { maker, mint_a, mint_b, amount_to_receive, amount_to_give, bump }
    }

    /// Reads the escrow recorded in `account`, whose data must be an escrow
    /// record's size.
    pub fn from_account_info(account: &AccountSnapshot) -> (r: Result<EscrowState, ProgramError>)
        ensures
            account.data@.len() != ESCROW_LEN ==> r == Err::<EscrowState, ProgramError>(
                ProgramError::InvalidAccountData,
            ),
            account.data@.len() == ESCROW_LEN ==> (r matches Ok(s) && describes(s, account.data@)),
    {
        if account.data.len() != ESCROW_LEN {
            return Err(ProgramError::InvalidAccountData);
        }
        Ok(EscrowState::from_bytes(account.data.as_slice()))
    }
}

/// The arguments of the make instruction.
#[derive(Debug, Clone, Copy, PartialEq, Eq, Structural)]
pub struct MakeArgs {
    /// The bump of the escrow account's address.
    pub bump: u8,
    /// How many tokens the maker asks for.
    pub amount_to_receive: u64,
    /// How many tokens the maker deposits.
    pub amount_to_give: u64,
}

/// The make arguments that `data` encodes, if it holds enough bytes: the bump in its
/// first byte, then the two amounts in little-endian byte order. Bytes after them are
/// ignored.
pub open spec fn decode_make_args(data: Seq<u8>) -> Option<MakeArgs> {
    if data.len() < MAKE_ARGS_LEN {
        None
    } else {
        Some(MakeArgs {
            bump: data[0],
            amount_to_receive: spec_u64_from_le_bytes(data.subrange(1, 9)),
            amount_to_give: spec_u64_from_le_bytes(data.subrange(9, 17)),
        })
    }
}

/// Calls `wincode::deserialize` for a `(u8, u64, u64)` tuple. wincode reads the
/// bincode layout with its default configuration (fixed-width little-endian
/// integers, fields in order) and, unlike `deserialize_exact`, accepts trailing
/// bytes; this contract claims that it succeeds exactly when `data` holds the 17
/// bytes of the tuple, and returns the byte and the two little-endian words they hold.
#[verifier::external_body]
fn wincode_deserialize_bump_and_amounts(data: &[u8]) -> (r: Option<(u8, u64, u64)>)
    ensures
        r is Some <==> data@.len() >= 17,
        r matches Some(v) ==> v.0 == data@[0] && v.1 == spec_u64_from_le_bytes(
            data@.subrange(1, 9),
        ) && v.2 == spec_u64_from_le_bytes(data@.subrange(9, 17)),
{
    wincode::deserialize::<(u8, u64, u64)>(data).ok()
}

impl MakeArgs {
    /// Decodes the make arguments from the instruction data.
    pub fn deserialize(data: &[u8]) -> (r: Option<MakeArgs>)
        ensures
            r == decode_make_args(data@),
            r is Some <==> data@.len() >= 17,
            r matches Some(a) ==> a.bump == data@[0] && a.amount_to_receive
                == spec_u64_from_le_bytes(data@.subrange(1, 9)) && a.amount_to_give
                == spec_u64_from_le_bytes(data@.subrange(9, 17)),
    {
        match wincode_deserialize_bump_and_amounts(data) {
            Some((bump, amount_to_receive, amount_to_give)) => Some(
                MakeArgs { bump, amount_to_receive, amount_to_give },
            ),
            None => None,
        }
    }
}

} // verus!
