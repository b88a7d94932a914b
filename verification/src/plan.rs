//! The steps an instruction takes once its accounts are validated: token movements,
//! account creation and closing. The runtime carries them out in order and stops at
//! the first step that fails.
use vstd::prelude::*;
use crate::address::Address;
use crate::state::EscrowState;

verus! {

/// The seeds with which the program signs for the escrow account:
/// `"escrow"`, the maker's address and the bump.
#[derive(Debug, Clone, Copy, PartialEq, Eq)]
pub struct EscrowSigner {
    /// The maker's address, the second seed.
    pub maker: Address,
    /// The bump, the third seed.
    pub bump: u8,
}

/// One step of an instruction. Accounts are named by their position in the
/// instruction's account list.
#[derive(Debug, Clone, Copy, PartialEq, Eq)]
pub enum Action {
    /// Moves `amount` tokens from token account `from` to token account `to`, with
    /// `authority` approving; the program signs for `authority` when `signer` is given.
    Transfer { from: usize, to: usize, authority: usize, amount: u64, signer: Option<EscrowSigner> },
    /// Closes token account `account`, sending its lamports to `destination`; the
    /// program signs for `authority`.
    CloseTokenAccount { account: usize, destination: usize, authority: usize, signer: EscrowSigner },
    /// Creates account `account` with `space` data bytes, owned by `owner` and funded
    /// by `funder` with the rent-exempt balance; the program signs for `account`.
    CreateEscrowAccount {
        funder: usize,
        account: usize,
        space: usize,
        owner: Address,
        signer: EscrowSigner,
    },
    /// Records `state` in the data of escrow account `account`.
    WriteEscrowState { account: usize, state: EscrowState },
    /// Creates the associated token account `account` of `wallet` for `mint`, funded
    /// by `funder`.
    CreateAssociatedTokenAccount {
        funder: usize,
        account: usize,
        wallet: usize,
        mint: usize,
        system_program: usize,
        token_program: usize,
    },
    /// Moves all lamports of `escrow` to `destination` and closes `escrow`.
    ReclaimEscrow { escrow: usize, destination: usize },
}

/// The balances after the escrow's lamports move to the destination: the
/// destination gains all of them, the escrow keeps none, and no lamport is created
/// or lost.
pub fn reclaim_lamports(destination_lamports: u64, escrow_lamports: u64) -> (r: (u64, u64))
    requires
        destination_lamports + escrow_lamports <= u64::MAX,
    ensures
        r.0 == destination_lamports + escrow_lamports,
        r.1 == 0,
        r.0 + r.1 == destination_lamports + escrow_lamports,
{
    (destination_lamports + escrow_lamports, 0)
}

} // verus!
