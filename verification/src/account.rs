//! The accounts an instruction receives, as plain values, and the token-account
//! fields the program reads from them.
use vstd::prelude::*;
use crate::address::{Address, TOKEN_PROGRAM_ID, address_eq, read_address};
use crate::error::ProgramError;

verus! {

/// The size of a token account's data.
pub const TOKEN_ACCOUNT_LEN: usize = 165;

/// What the program reads of one account passed to an instruction.
pub struct AccountSnapshot {
    /// The account's address.
    pub address: Address,
    /// The program that owns the account.
    pub owner: Address,
    /// Whether the account signed the transaction.
    pub is_signer: bool,
    /// The account's data.
    pub data: Vec<u8>,
}

/// The fields of a token account that the program checks.
#[derive(Debug, Clone, Copy, PartialEq, Eq)]
pub struct TokenAccount {
    /// The mint of the tokens the account holds.
    pub mint: Address,
    /// The wallet the account belongs to.
    pub owner: Address,
}

/// The error with which reading `a` as a token account fails, if any: data of the
/// wrong size, or an owner other than the token program.
pub open spec fn token_account_error(a: AccountSnapshot) -> Option<ProgramError> {
    if a.data@.len() != TOKEN_ACCOUNT_LEN {
        Some(ProgramError::InvalidAccountData)
    } else if a.owner@ != TOKEN_PROGRAM_ID@ {
        Some(ProgramError::IncorrectProgramId)
    } else {
        None
    }
}

/// The mint recorded in a token account's data (its first 32 bytes).
pub open spec fn token_mint(a: AccountSnapshot) -> Seq<u8> {
    a.data@.subrange(0, 32)
}

/// The wallet recorded in a token account's data (its second 32 bytes).
pub open spec fn token_owner(a: AccountSnapshot) -> Seq<u8> {
    a.data@.subrange(32, 64)
}

impl TokenAccount {
    /// Reads `account` as a token account: its data must be a token account's size
    /// and the token program must own it.
    pub fn from_account(account: &AccountSnapshot) -> (r: Result<TokenAccount, ProgramError>)
        ensures
            match token_account_error(*account) {
                Some(e) => r == Err::<TokenAccount, ProgramError>(e),
                None => r matches Ok(t) && t.mint@ == token_mint(*account)
                    && t.owner@ == token_owner(*account),
            },
            account.data@.len() != 165 ==> r == Err::<TokenAccount, ProgramError>(
                ProgramError::InvalidAccountData,
            ),
            account.data@.len() == 165 && account.owner@ != TOKEN_PROGRAM_ID@ ==> r == Err::<
                TokenAccount,
                ProgramError,
            >(ProgramError::IncorrectProgramId),
            account.data@.len() == 165 && account.owner@ == TOKEN_PROGRAM_ID@ ==> (r matches Ok(t)
                && t.mint@ == account.data@.subrange(0, 32) && t.owner@ == account.data@.subrange(
                32,
                64,
            )),
    {
        if account.data.len() != TOKEN_ACCOUNT_LEN {
            return Err(ProgramError::InvalidAccountData);
        }
        if !address_eq(&account.owner, &TOKEN_PROGRAM_ID) {
            return Err(ProgramError::IncorrectProgramId);
        }
        let mint = read_address(account.data.as_slice(), 0);
        let owner = read_address(account.data.as_slice(), 32);
        Ok(TokenAccount { mint, owner })
    }
}

} // verus!
