//! The program's instructions: which accounts they expect, what they check, and
//! the steps they take.
use vstd::prelude::*;
use crate::account::{AccountSnapshot, TokenAccount, token_account_error, token_mint, token_owner};
use crate::address::{address_eq, Address, PROGRAM_ID};
use vstd::slice::slice_subrange;
use crate::pda::{derive_escrow_address, escrow_address_of};
use crate::error::{Failure, ProgramError};
use crate::plan::{Action, EscrowSigner};
use crate::state::{
    EscrowState, MakeArgs, ESCROW_LEN, decode_make_args, recorded_amount_to_give, recorded_amount_to_receive, recorded_bump,
};

verus! {

/// The outcome of an instruction, with its steps as a sequence.
pub open spec fn outcome_of<E>(r: Result<Vec<Action>, E>) -> Result<Seq<Action>, E> {
    match r {
        Ok(plan) => Ok(plan@),
        Err(e) => Err(e),
    }
}

// ---------------------------------------------------------------- refund

/// The steps of a refund: the vault returns the deposit to the maker's token
/// account, the vault is closed, and the escrow's lamports go back to the maker.
///
/// Accounts: maker, mint_a, escrow, vault, maker_ata_a, then programs.
pub open spec fn refund_plan(accounts: Seq<AccountSnapshot>) -> Seq<Action> {
    let signer = EscrowSigner { maker: accounts[0].address, bump: recorded_bump(accounts[2].data@) };
    seq![
        Action::Transfer {
            from: 3,
            to: 4,
            authority: 2,
            amount: recorded_amount_to_give(accounts[2].data@),
            signer: Some(signer),
        },
        Action::CloseTokenAccount { account: 3, destination: 0, authority: 2, signer: signer },
        Action::ReclaimEscrow { escrow: 2, destination: 0 },
    ]
}

/// What a refund does with `accounts`: the first failing check's error, or its steps.
pub open spec fn refund_outcome(accounts: Seq<AccountSnapshot>) -> Result<Seq<Action>, ProgramError> {
    if accounts.len() < 7 {
        Err(ProgramError::NotEnoughAccountKeys)
    } else if !accounts[0].is_signer {
        Err(ProgramError::MissingRequiredSignature)
    } else if accounts[2].data@.len() != ESCROW_LEN {
        Err(ProgramError::InvalidAccountData)
    } else if token_account_error(accounts[4]) is Some {
        Err(token_account_error(accounts[4])->0)
    } else if token_owner(accounts[4]) != accounts[0].address@ {
        Err(ProgramError::InvalidAccountOwner)
    } else if token_mint(accounts[4]) != accounts[1].address@ {
        Err(ProgramError::InvalidAccountData)
    } else {
        Ok(refund_plan(accounts))
    }
}

/// Refunds an open escrow to its maker, who must sign.
pub fn process_refund_ixn(accounts: &[AccountSnapshot]) -> (r: Result<Vec<Action>, ProgramError>)
    ensures
        outcome_of(r) == refund_outcome(accounts@),
{
    if accounts.len() < 7 {
        return Err(ProgramError::NotEnoughAccountKeys);
    }
    let maker = &accounts[0];
    let mint_a = &accounts[1];
    let escrow = &accounts[2];
    let maker_ata_a = &accounts[4];
    if !maker.is_signer {
        return Err(ProgramError::MissingRequiredSignature);
    }
    let escrow_state = match EscrowState::from_account_info(escrow) {
        Ok(s) => s,
        Err(e) => return Err(e),
    };
    let maker_ata_a_state = match TokenAccount::from_account(maker_ata_a) {
        Ok(t) => t,
        Err(e) => return Err(e),
    };
    if !address_eq(&maker_ata_a_state.owner, &maker.address) {
        return Err(ProgramError::InvalidAccountOwner);
    }
    if !address_eq(&maker_ata_a_state.mint, &mint_a.address) {
        return Err(ProgramError::InvalidAccountData);
    }
    let signer = EscrowSigner { maker: maker.address, bump: escrow_state.bump };
    let mut plan: Vec<Action> = Vec::new();
    plan.push(
        Action::Transfer {
            from: 3,
            to: 4,
            authority: 2,
            amount: escrow_state.amount_to_give,
            signer: Some(signer),
        },
    );
    plan.push(Action::CloseTokenAccount { account: 3, destination: 0, authority: 2, signer });
    plan.push(Action::ReclaimEscrow { escrow: 2, destination: 0 });
    assert(plan@ =~= refund_plan(accounts@));
    Ok(plan)
}

// ---------------------------------------------------------------- take

/// The steps of a take: the taker pays the maker's ask, the vault releases the
/// deposit to the taker, the vault is closed, and the escrow's lamports go back to
/// the maker.
///
/// Accounts: taker, maker, mint_a, mint_b, escrow, vault, taker_ata_a, taker_ata_b,
/// maker_ata_b, then programs.
pub open spec fn take_plan(accounts: Seq<AccountSnapshot>) -> Seq<Action> {
    let signer = EscrowSigner { maker: accounts[1].address, bump: recorded_bump(accounts[4].data@) };
    seq![
        Action::Transfer {
            from: 7,
            to: 8,
            authority: 0,
            amount: recorded_amount_to_receive(accounts[4].data@),
            signer: None,
        },
        Action::Transfer {
            from: 5,
            to: 6,
            authority: 4,
            amount: recorded_amount_to_give(accounts[4].data@),
            signer: Some(signer),
        },
        Action::CloseTokenAccount { account: 5, destination: 1, authority: 4, signer: signer },
        Action::ReclaimEscrow { escrow: 4, destination: 1 },
    ]
}

/// What a take does with `accounts`: the first failing check's error, or its steps.
pub open spec fn take_outcome(accounts: Seq<AccountSnapshot>) -> Result<Seq<Action>, ProgramError> {
    if accounts.len() < 11 {
        Err(ProgramError::NotEnoughAccountKeys)
    } else if !accounts[0].is_signer {
        Err(ProgramError::MissingRequiredSignature)
    } else if accounts[4].data@.len() != ESCROW_LEN {
        Err(ProgramError::InvalidAccountData)
    } else if token_account_error(accounts[8]) is Some {
        Err(token_account_error(accounts[8])->0)
    } else if token_account_error(accounts[6]) is Some {
        Err(token_account_error(accounts[6])->0)
    } else if token_account_error(accounts[7]) is Some {
        Err(token_account_error(accounts[7])->0)
    } else if token_owner(accounts[7]) != accounts[0].address@ {
        Err(ProgramError::IllegalOwner)
    } else if token_mint(accounts[6]) != accounts[2].address@ {
        Err(ProgramError::InvalidAccountData)
    } else if token_mint(accounts[7]) != accounts[3].address@ {
        Err(ProgramError::InvalidAccountData)
    } else if token_mint(accounts[8]) != accounts[3].address@ {
        Err(ProgramError::InvalidAccountData)
    } else {
        Ok(take_plan(accounts))
    }
}

/// Takes an open escrow: the taker, who must sign, pays the maker's ask and receives
/// the maker's deposit.
pub fn process_take_v2_ixn(accounts: &[AccountSnapshot]) -> (r: Result<Vec<Action>, ProgramError>)
    ensures
        outcome_of(r) == take_outcome(accounts@),
{
    if accounts.len() < 11 {
        return Err(ProgramError::NotEnoughAccountKeys);
    }
    let taker = &accounts[0];
    let maker = &accounts[1];
    let mint_a = &accounts[2];
    let mint_b = &accounts[3];
    let escrow_account = &accounts[4];
    let taker_ata_a = &accounts[6];
    let taker_ata_b = &accounts[7];
    let maker_ata_b = &accounts[8];
    if !taker.is_signer {
        return Err(ProgramError::MissingRequiredSignature);
    }
    let escrow_state = match EscrowState::from_account_info(escrow_account) {
        Ok(s) => s,
        Err(e) => return Err(e),
    };
    let maker_ata_b_state = match TokenAccount::from_account(maker_ata_b) {
        Ok(t) => t,
        Err(e) => return Err(e),
    };
    let taker_ata_a_state = match TokenAccount::from_account(taker_ata_a) {
        Ok(t) => t,
        Err(e) => return Err(e),
    };
    let taker_ata_b_state = match TokenAccount::from_account(taker_ata_b) {
        Ok(t) => t,
        Err(e) => return Err(e),
    };
    if !address_eq(&taker_ata_b_state.owner, &taker.address) {
        return Err(ProgramError::IllegalOwner);
    }
    if !address_eq(&taker_ata_a_state.mint, &mint_a.address) {
        return Err(ProgramError::InvalidAccountData);
    }
    if !address_eq(&taker_ata_b_state.mint, &mint_b.address) {
        return Err(ProgramError::InvalidAccountData);
    }
    if !address_eq(&maker_ata_b_state.mint, &mint_b.address) {
        return Err(ProgramError::InvalidAccountData);
    }
    let signer = EscrowSigner { maker: maker.address, bump: escrow_state.bump };
    let mut plan: Vec<Action> = Vec::new();
    plan.push(
        Action::Transfer {
            from: 7,
            to: 8,
            authority: 0,
            amount: escrow_state.amount_to_receive,
            signer: None,
        },
    );
    plan.push(
        Action::Transfer {
            from: 5,
            to: 6,
            authority: 4,
            amount: escrow_state.amount_to_give,
            signer: Some(signer),
        },
    );
    plan.push(Action::CloseTokenAccount { account: 5, destination: 1, authority: 4, signer });
    plan.push(Action::ReclaimEscrow { escrow: 4, destination: 1 });
    assert(plan@ =~= take_plan(accounts@));
    Ok(plan)
}

// ---------------------------------------------------------------- make

/// The signer seeds and the escrow record of a make by the maker `accounts[0]`.
pub open spec fn make_signer(accounts: Seq<AccountSnapshot>, args: MakeArgs) -> EscrowSigner {
    EscrowSigner { maker: accounts[0].address, bump: args.bump }
}

/// The escrow record a make writes: the maker, the two mints, the two amounts, and
/// as bump the first byte of the instruction data.
pub open spec fn made_state(accounts: Seq<AccountSnapshot>, args: MakeArgs, data: Seq<u8>) -> EscrowState {
    EscrowState {
        maker: accounts[0].address,
        mint_a: accounts[1].address,
        mint_b: accounts[2].address,
        amount_to_receive: args.amount_to_receive,
        amount_to_give: args.amount_to_give,
        bump: data[0],
    }
}

/// The steps of a make: the escrow account is created and records the offer, the
/// vault (the escrow's token account for `mint_a`) is created, and the maker
/// deposits `amount_to_give` into it.
///
/// Accounts: maker, mint_a, mint_b, escrow, maker_ata_a, vault, system program,
/// token program, then others.
pub open spec fn make_plan(accounts: Seq<AccountSnapshot>, args: MakeArgs, data: Seq<u8>) -> Seq<Action> {
    seq![
        Action::CreateEscrowAccount {
            funder: 0,
            account: 3,
            space: ESCROW_LEN,
            owner: PROGRAM_ID,
            signer: make_signer(accounts, args),
        },
        Action::WriteEscrowState { account: 3, state: made_state(accounts, args, data) },
        Action::CreateAssociatedTokenAccount {
            funder: 0,
            account: 5,
            wallet: 3,
            mint: 1,
            system_program: 6,
            token_program: 7,
        },
        Action::Transfer {
            from: 4,
            to: 5,
            authority: 0,
            amount: args.amount_to_give,
            signer: None,
        },
    ]
}

/// What a make does once its accounts and arguments have passed their checks and
/// the address that the maker and the bump derive is `escrow_pda`: it aborts unless
/// that is the escrow account's address, refuses an escrow account the program
/// already owns, and otherwise takes its steps.
pub open spec fn make_outcome_at(
    accounts: Seq<AccountSnapshot>,
    data: Seq<u8>,
    args: MakeArgs,
    escrow_pda: Seq<u8>,
) -> Result<Seq<Action>, Failure> {
    if escrow_pda != accounts[3].address@ {
        Err(Failure::EscrowAddressMismatch)
    } else if accounts[3].owner@ == PROGRAM_ID@ {
        Err(Failure::Error(ProgramError::IllegalOwner))
    } else {
        Ok(make_plan(accounts, args, data))
    }
}

/// What a make does with `accounts` and the instruction data `data`.
pub open spec fn make_outcome(accounts: Seq<AccountSnapshot>, data: Seq<u8>) -> Result<Seq<Action>, Failure> {
    if accounts.len() < 8 {
        Err(Failure::Error(ProgramError::NotEnoughAccountKeys))
    } else if token_account_error(accounts[4]) is Some {
        Err(Failure::Error(token_account_error(accounts[4])->0))
    } else if token_owner(accounts[4]) != accounts[0].address@ {
        Err(Failure::Error(ProgramError::IllegalOwner))
    } else if token_mint(accounts[4]) != accounts[1].address@ {
        Err(Failure::Error(ProgramError::InvalidAccountData))
    } else if decode_make_args(data) is None {
        Err(Failure::Error(ProgramError::InvalidInstructionData))
    } else {
        let args = decode_make_args(data)->0;
        make_outcome_at(accounts, data, args, escrow_address_of(accounts[0].address@, args.bump))
    }
}

/// The second half of a make: given the checked accounts, the decoded arguments and
/// the address `escrow_pda` derived from the maker and the bump, compares it with
/// the escrow account's address, refuses an escrow account the program already owns,
/// and lists the steps.
pub fn make_with_escrow_address(
    accounts: &[AccountSnapshot],
    data: &[u8],
    args: MakeArgs,
    escrow_pda: &Address,
) -> (r: Result<Vec<Action>, Failure>)
    requires
        accounts.len() >= 8,
        decode_make_args(data@) == Some(args),
    ensures
        outcome_of(r) == make_outcome_at(accounts@, data@, args, escrow_pda@),
{
    let maker = &accounts[0];
    let mint_a = &accounts[1];
    let mint_b = &accounts[2];
    let escrow_account = &accounts[3];
    if !address_eq(escrow_pda, &escrow_account.address) {
        return Err(Failure::EscrowAddressMismatch);
    }
    if address_eq(&escrow_account.owner, &PROGRAM_ID) {
        return Err(Failure::Error(ProgramError::IllegalOwner));
    }
    let signer = EscrowSigner { maker: maker.address, bump: args.bump };
    let state = EscrowState {
        maker: maker.address,
        mint_a: mint_a.address,
        mint_b: mint_b.address,
        amount_to_receive: args.amount_to_receive,
        amount_to_give: args.amount_to_give,
        bump: data[0],
    };
    let mut plan: Vec<Action> = Vec::new();
    plan.push(
        Action::CreateEscrowAccount {
            funder: 0,
            account: 3,
            space: ESCROW_LEN,
            owner: PROGRAM_ID,
            signer,
        },
    );
    plan.push(Action::WriteEscrowState { account: 3, state });
    plan.push(
        Action::CreateAssociatedTokenAccount {
            funder: 0,
            account: 5,
            wallet: 3,
            mint: 1,
            system_program: 6,
            token_program: 7,
        },
    );
    plan.push(
        Action::Transfer { from: 4, to: 5, authority: 0, amount: args.amount_to_give, signer: None },
    );
    assert(plan@ =~= make_plan(accounts@, args, data@));
    Ok(plan)
}

/// Opens an escrow: records the maker's offer in the escrow account at the address
/// derived from the maker and the bump, and moves the maker's deposit into a vault
/// the escrow owns.
pub fn process_make_ixn_v2(accounts: &[AccountSnapshot], data: &[u8]) -> (r: Result<Vec<Action>, Failure>)
    ensures
        outcome_of(r) == make_outcome(accounts@, data@),
{
    if accounts.len() < 8 {
        return Err(Failure::Error(ProgramError::NotEnoughAccountKeys));
    }
    let maker = &accounts[0];
    let mint_a = &accounts[1];
    let maker_ata = &accounts[4];
    let maker_ata_state = match TokenAccount::from_account(maker_ata) {
        Ok(t) => t,
        Err(e) => return Err(Failure::Error(e)),
    };
    if !address_eq(&maker_ata_state.owner, &maker.address) {
        return Err(Failure::Error(ProgramError::IllegalOwner));
    }
    if !address_eq(&maker_ata_state.mint, &mint_a.address) {
        return Err(Failure::Error(ProgramError::InvalidAccountData));
    }
    let args = match MakeArgs::deserialize(data) {
        Some(a) => a,
        None => return Err(Failure::Error(ProgramError::InvalidInstructionData)),
    };
    let escrow_account_pda: Address = derive_escrow_address(&maker.address, args.bump);
    make_with_escrow_address(accounts, data, args, &escrow_account_pda)
}

// ---------------------------------------------------------------- dispatch

/// The program's instructions, named by the first byte of the instruction data.
#[derive(Debug, Clone, Copy, PartialEq, Eq, Structural)]
pub enum EscrowInstructions {
    /// Discriminator 0: open an escrow.
    Make,
    /// Discriminator 1: take an escrow.
    Take,
    /// Discriminator 2: refund an escrow.
    Refund,
    /// Discriminator 3: open an escrow, with the same accounts and data as make.
    MakeV2,
    /// Discriminator 4: reserved; not served.
    TakeV2,
    /// Discriminator 5: reserved; not served.
    RefundV2,
}

/// The instruction a discriminator names, if any.
pub open spec fn instruction_of(discriminator: u8) -> Option<EscrowInstructions> {
    if discriminator == 0 {
        Some(EscrowInstructions::Make)
    } else if discriminator == 1 {
        Some(EscrowInstructions::Take)
    } else if discriminator == 2 {
        Some(EscrowInstructions::Refund)
    } else if discriminator == 3 {
        Some(EscrowInstructions::MakeV2)
    } else if discriminator == 4 {
        Some(EscrowInstructions::TakeV2)
    } else if discriminator == 5 {
        Some(EscrowInstructions::RefundV2)
    } else {
        None
    }
}

impl EscrowInstructions {
    /// The instruction `discriminator` names; an unknown one is invalid instruction data.
    pub fn try_from(discriminator: &u8) -> (r: Result<EscrowInstructions, ProgramError>)
        ensures
            match instruction_of(*discriminator) {
                Some(i) => r == Ok::<EscrowInstructions, ProgramError>(i),
                None => r == Err::<EscrowInstructions, ProgramError>(
                    ProgramError::InvalidInstructionData,
                ),
            },
    {
        match *discriminator {
            0 => Ok(EscrowInstructions::Make),
            1 => Ok(EscrowInstructions::Take),
            2 => Ok(EscrowInstructions::Refund),
            3 => Ok(EscrowInstructions::MakeV2),
            4 => Ok(EscrowInstructions::TakeV2),
            5 => Ok(EscrowInstructions::RefundV2),
            _ => Err(ProgramError::InvalidInstructionData),
        }
    }
}

/// A refund or take outcome, with its error as an instruction failure.
pub open spec fn as_failure(o: Result<Seq<Action>, ProgramError>) -> Result<Seq<Action>, Failure> {
    match o {
        Ok(plan) => Ok(plan),
        Err(e) => Err(Failure::Error(e)),
    }
}

/// What the program does with `accounts` and `instruction_data`: the first byte
/// selects the instruction and the rest is its data. Make (0), take (1), refund (2)
/// and the second make (3) are served; the second take (4), the second refund (5),
/// every other byte, and empty data are invalid instruction data.
pub open spec fn instruction_outcome(accounts: Seq<AccountSnapshot>, instruction_data: Seq<u8>) -> Result<Seq<Action>, Failure> {
    if instruction_data.len() == 0 {
        Err(Failure::Error(ProgramError::InvalidInstructionData))
    } else if instruction_data[0] == 0 {
        make_outcome(accounts, instruction_data.subrange(1, instruction_data.len() as int))
    } else if instruction_data[0] == 1 {
        as_failure(take_outcome(accounts))
    } else if instruction_data[0] == 2 {
        as_failure(refund_outcome(accounts))
    } else if instruction_data[0] == 3 {
        make_outcome(accounts, instruction_data.subrange(1, instruction_data.len() as int))
    } else {
        Err(Failure::Error(ProgramError::InvalidInstructionData))
    }
}

/// The program's entry point: checks that it runs as this program, decodes the
/// instruction and hands it to its handler.
pub fn process_instruction(
    program_id: &Address,
    accounts: &[AccountSnapshot],
    instruction_data: &[u8],
) -> (r: Result<Vec<Action>, Failure>)
    requires
        program_id@ == PROGRAM_ID@,
    ensures
        outcome_of(r) == instruction_outcome(accounts@, instruction_data@),
{
    if instruction_data.len() == 0 {
        return Err(Failure::Error(ProgramError::InvalidInstructionData));
    }
    let discriminator = &instruction_data[0];
    let data = slice_subrange(instruction_data, 1, instruction_data.len());
    let instruction = match EscrowInstructions::try_from(discriminator) {
        Ok(i) => i,
        Err(e) => return Err(Failure::Error(e)),
    };
    match instruction {
        EscrowInstructions::Make => process_make_ixn_v2(accounts, data),
        EscrowInstructions::Take => match process_take_v2_ixn(accounts) {
            Ok(plan) => Ok(plan),
            Err(e) => Err(Failure::Error(e)),
        },
        EscrowInstructions::Refund => match process_refund_ixn(accounts) {
            Ok(plan) => Ok(plan),
            Err(e) => Err(Failure::Error(e)),
        },
        EscrowInstructions::MakeV2 => process_make_ixn_v2(accounts, data),
        _ => Err(Failure::Error(ProgramError::InvalidInstructionData)),
    }
}

} // verus!
