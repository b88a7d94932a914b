use escrow::account::{AccountSnapshot, TokenAccount, TOKEN_ACCOUNT_LEN};
use escrow::address::{address_eq, read_address, Address, ESCROW_SEED, PROGRAM_ID, TOKEN_PROGRAM_ID};
use escrow::error::{Failure, ProgramError};
use escrow::instructions::{
    make_with_escrow_address, process_instruction, process_make_ixn_v2, process_refund_ixn, process_take_v2_ixn,
    EscrowInstructions,
};
use escrow::pda::derive_escrow_address;
use escrow::plan::{reclaim_lamports, Action};
use escrow::rent::{rent_exempt_lamports, MAX_PERMITTED_DATA_LENGTH};
use escrow::state::{EscrowState, MakeArgs, ESCROW_LEN};
use pinocchio::sysvars::rent::Rent;

const SYSTEM_PROGRAM: Address = [0u8; 32];

fn addr(b: u8) -> Address {
    [b; 32]
}

fn plain(address: Address, signer: bool) -> AccountSnapshot {
    AccountSnapshot { address, owner: SYSTEM_PROGRAM, is_signer: signer, data: Vec::new() }
}

fn token_account(address: Address, mint: &Address, owner: &Address) -> AccountSnapshot {
    let mut data = vec![0u8; TOKEN_ACCOUNT_LEN];
    data[0..32].copy_from_slice(mint);
    data[32..64].copy_from_slice(owner);
    AccountSnapshot { address, owner: TOKEN_PROGRAM_ID, is_signer: false, data }
}

const MAKER: u8 = 7;
const TAKER: u8 = 8;
const MINT_A: u8 = 10;
const MINT_B: u8 = 11;
const BUMP: u8 = 253;

fn state() -> EscrowState {
    EscrowState {
        maker: addr(MAKER),
        mint_a: addr(MINT_A),
        mint_b: addr(MINT_B),
        amount_to_receive: 42,
        amount_to_give: 0x0102_0304_0506_0708,
        bump: BUMP,
    }
}

fn escrow_address() -> Address {
    derive_escrow_address(&addr(MAKER), BUMP)
}

fn escrow_account() -> AccountSnapshot {
    AccountSnapshot {
        address: escrow_address(),
        owner: PROGRAM_ID,
        is_signer: false,
        data: state().to_bytes(),
    }
}

fn make_data() -> Vec<u8> {
    let mut data = vec![BUMP];
    data.extend_from_slice(&42u64.to_le_bytes());
    data.extend_from_slice(&0x0102_0304_0506_0708u64.to_le_bytes());
    data
}

fn make_accounts() -> Vec<AccountSnapshot> {
    vec![
        plain(addr(MAKER), true),
        plain(addr(MINT_A), false),
        plain(addr(MINT_B), false),
        plain(escrow_address(), false),
        token_account(addr(20), &addr(MINT_A), &addr(MAKER)),
        plain(addr(30), false),
        plain(SYSTEM_PROGRAM, false),
        plain(TOKEN_PROGRAM_ID, false),
        plain(addr(40), false),
    ]
}

fn take_accounts() -> Vec<AccountSnapshot> {
    vec![
        plain(addr(TAKER), true),
        plain(addr(MAKER), false),
        plain(addr(MINT_A), false),
        plain(addr(MINT_B), false),
        escrow_account(),
        token_account(addr(30), &addr(MINT_A), &escrow_address()),
        token_account(addr(22), &addr(MINT_A), &addr(TAKER)),
        token_account(addr(23), &addr(MINT_B), &addr(TAKER)),
        token_account(addr(21), &addr(MINT_B), &addr(MAKER)),
        plain(TOKEN_PROGRAM_ID, false),
        plain(SYSTEM_PROGRAM, false),
        plain(addr(40), false),
    ]
}

fn refund_accounts() -> Vec<AccountSnapshot> {
    vec![
        plain(addr(MAKER), true),
        plain(addr(MINT_A), false),
        escrow_account(),
        token_account(addr(30), &addr(MINT_A), &escrow_address()),
        token_account(addr(20), &addr(MINT_A), &addr(MAKER)),
        plain(TOKEN_PROGRAM_ID, false),
        plain(SYSTEM_PROGRAM, false),
        plain(addr(40), false),
    ]
}

fn refund_error(accounts: &[AccountSnapshot]) -> ProgramError {
    process_refund_ixn(accounts).expect_err("refund should fail")
}

fn take_error(accounts: &[AccountSnapshot]) -> ProgramError {
    process_take_v2_ixn(accounts).expect_err("take should fail")
}

fn make_failure(accounts: &[AccountSnapshot], data: &[u8]) -> Failure {
    process_make_ixn_v2(accounts, data).expect_err("make should fail")
}

// ----- fixed addresses ----- //

#[test]
fn program_id_is_the_declared_address() {
    let declared = pinocchio::Address::from_str_const("7XnntXKF78m6UiSjHZ4aB6vkPakCnS8VcN1688J6LJQV");
    assert_eq!(declared.to_bytes(), PROGRAM_ID);
}

#[test]
fn token_program_id_is_the_token_crate_id() {
    assert_eq!(pinocchio_token::ID.to_bytes(), TOKEN_PROGRAM_ID);
}

#[test]
fn escrow_seed_is_escrow() {
    assert_eq!(&ESCROW_SEED, b"escrow");
}

#[test]
fn address_helpers() {
    assert!(address_eq(&addr(3), &addr(3)));
    let mut other = addr(3);
    other[31] = 4;
    assert!(!address_eq(&addr(3), &other));
    let data: Vec<u8> = (0u8..70).collect();
    let read = read_address(&data, 5);
    assert_eq!(read[0], 5);
    assert_eq!(read[31], 36);
}

// ----- escrow record ----- //

#[test]
fn escrow_record_layout() {
    let bytes = state().to_bytes();
    assert_eq!(bytes.len(), ESCROW_LEN);
    assert_eq!(&bytes[0..32], &addr(MAKER));
    assert_eq!(&bytes[32..64], &addr(MINT_A));
    assert_eq!(&bytes[64..96], &addr(MINT_B));
    assert_eq!(&bytes[96..104], &42u64.to_le_bytes());
    assert_eq!(&bytes[104..112], &[8, 7, 6, 5, 4, 3, 2, 1]);
    assert_eq!(bytes[112], BUMP);
}

#[test]
fn escrow_record_round_trip() {
    let bytes = state().to_bytes();
    assert_eq!(EscrowState::from_bytes(&bytes), state());
    let raw: Vec<u8> = (0..ESCROW_LEN as u32).map(|i| (i * 7 % 251) as u8).collect();
    assert_eq!(EscrowState::from_bytes(&raw).to_bytes(), raw);
}

#[test]
fn escrow_record_needs_its_exact_size() {
    let mut account = escrow_account();
    account.data.push(0);
    assert_eq!(EscrowState::from_account_info(&account), Err(ProgramError::InvalidAccountData));
    account.data.truncate(ESCROW_LEN - 1);
    assert_eq!(EscrowState::from_account_info(&account), Err(ProgramError::InvalidAccountData));
    assert_eq!(EscrowState::from_account_info(&escrow_account()), Ok(state()));
}

// ----- make arguments ----- //

#[test]
fn make_args_decode() {
    assert_eq!(
        MakeArgs::deserialize(&make_data()),
        Some(MakeArgs { bump: BUMP, amount_to_receive: 42, amount_to_give: 0x0102_0304_0506_0708 })
    );
    let mut longer = make_data();
    longer.push(9);
    assert_eq!(MakeArgs::deserialize(&longer), MakeArgs::deserialize(&make_data()));
    assert_eq!(MakeArgs::deserialize(&make_data()[..16]), None);
    assert_eq!(MakeArgs::deserialize(&[]), None);
}

// ----- token accounts ----- //

#[test]
fn token_account_checks() {
    let good = token_account(addr(1), &addr(2), &addr(3));
    assert_eq!(TokenAccount::from_account(&good), Ok(TokenAccount { mint: addr(2), owner: addr(3) }));
    let mut short = good.data.clone();
    short.pop();
    let short_account = AccountSnapshot { address: addr(1), owner: TOKEN_PROGRAM_ID, is_signer: false, data: short };
    assert_eq!(TokenAccount::from_account(&short_account), Err(ProgramError::InvalidAccountData));
    let foreign = AccountSnapshot { address: addr(1), owner: addr(9), is_signer: false, data: good.data.clone() };
    assert_eq!(TokenAccount::from_account(&foreign), Err(ProgramError::IncorrectProgramId));
}

// ----- derived addresses and rent ----- //

#[test]
fn escrow_address_is_the_seed_hash() {
    let expected: Address = [
        198, 115, 65, 103, 64, 88, 45, 74, 224, 0, 173, 79, 79, 86, 77, 159, 253, 134, 233, 139,
        114, 86, 197, 170, 18, 157, 197, 7, 6, 179, 251, 107,
    ];
    assert_eq!(derive_escrow_address(&addr(7), 254), expected);
    assert_ne!(derive_escrow_address(&addr(7), 253), expected);
}

#[test]
fn rent_exempt_balance() {
    let rent = Rent::from_bytes(&6960u64.to_le_bytes()).unwrap();
    assert_eq!(rent_exempt_lamports(&rent, ESCROW_LEN), Ok((128 + 113) * 6960));
    assert_eq!(rent_exempt_lamports(&rent, 0), Ok(128 * 6960));
    assert_eq!(
        rent_exempt_lamports(&rent, MAX_PERMITTED_DATA_LENGTH + 1),
        Err(ProgramError::InvalidArgument)
    );
    let steep = Rent::from_bytes(&u64::MAX.to_le_bytes()).unwrap();
    assert_eq!(rent_exempt_lamports(&steep, ESCROW_LEN), Err(ProgramError::InvalidArgument));
}

#[test]
fn reclaim_conserves_lamports() {
    assert_eq!(reclaim_lamports(1_000, 2_500), (3_500, 0));
    assert_eq!(reclaim_lamports(0, 0), (0, 0));
    assert_eq!(reclaim_lamports(u64::MAX - 5, 5), (u64::MAX, 0));
}

// ----- dispatch ----- //

#[test]
fn discriminators() {
    assert_eq!(EscrowInstructions::try_from(&0), Ok(EscrowInstructions::Make));
    assert_eq!(EscrowInstructions::try_from(&1), Ok(EscrowInstructions::Take));
    assert_eq!(EscrowInstructions::try_from(&2), Ok(EscrowInstructions::Refund));
    assert_eq!(EscrowInstructions::try_from(&3), Ok(EscrowInstructions::MakeV2));
    assert_eq!(EscrowInstructions::try_from(&4), Ok(EscrowInstructions::TakeV2));
    assert_eq!(EscrowInstructions::try_from(&5), Ok(EscrowInstructions::RefundV2));
    assert_eq!(EscrowInstructions::try_from(&6), Err(ProgramError::InvalidInstructionData));
}

#[test]
fn dispatch_by_first_byte() {
    let invalid = Err(Failure::Error(ProgramError::InvalidInstructionData));
    assert_eq!(process_instruction(&PROGRAM_ID, &refund_accounts(), &[]), invalid);
    for d in 4u8..=255 {
        assert_eq!(process_instruction(&PROGRAM_ID, &refund_accounts(), &[d]), invalid);
    }
    assert_eq!(
        process_instruction(&PROGRAM_ID, &take_accounts(), &[1]),
        process_take_v2_ixn(&take_accounts()).map_err(Failure::Error)
    );
    assert!(process_instruction(&PROGRAM_ID, &take_accounts(), &[1]).is_ok());
    assert_eq!(
        process_instruction(&PROGRAM_ID, &refund_accounts(), &[2]),
        process_refund_ixn(&refund_accounts()).map_err(Failure::Error)
    );
    assert!(process_instruction(&PROGRAM_ID, &refund_accounts(), &[2, 9, 9]).is_ok());
    for d in [0u8, 3u8] {
        let mut make = vec![d];
        make.extend_from_slice(&make_data());
        assert_eq!(
            process_instruction(&PROGRAM_ID, &make_accounts(), &make),
            process_make_ixn_v2(&make_accounts(), &make_data())
        );
        assert!(process_instruction(&PROGRAM_ID, &make_accounts(), &make).is_ok());
    }
    // A refund through the entry point still checks the maker's signature.
    let mut unsigned = refund_accounts();
    unsigned[0].is_signer = false;
    assert_eq!(
        process_instruction(&PROGRAM_ID, &unsigned, &[2]),
        Err(Failure::Error(ProgramError::MissingRequiredSignature))
    );
}

#[test]
fn fewest_accounts_suffice() {
    assert!(process_refund_ixn(&refund_accounts()[..7]).is_ok());
    assert!(process_take_v2_ixn(&take_accounts()[..11]).is_ok());
    assert!(process_make_ixn_v2(&make_accounts()[..8], &make_data()).is_ok());
    let mut unsigned = refund_accounts();
    unsigned.truncate(7);
    unsigned[0].is_signer = false;
    assert_eq!(refund_error(&unsigned), ProgramError::MissingRequiredSignature);
    let mut unsigned_take = take_accounts();
    unsigned_take.truncate(11);
    unsigned_take[0].is_signer = false;
    assert_eq!(take_error(&unsigned_take), ProgramError::MissingRequiredSignature);
    let mut others_ata = make_accounts();
    others_ata.truncate(8);
    others_ata[4] = token_account(addr(20), &addr(MINT_A), &addr(TAKER));
    assert_eq!(make_failure(&others_ata, &make_data()), Failure::Error(ProgramError::IllegalOwner));
}

// ----- refund ----- //

#[test]
fn refund_errors() {
    assert_eq!(refund_error(&refund_accounts()[..6]), ProgramError::NotEnoughAccountKeys);

    let mut unsigned = refund_accounts();
    unsigned[0].is_signer = false;
    assert_eq!(refund_error(&unsigned), ProgramError::MissingRequiredSignature);

    let mut bad_escrow = refund_accounts();
    bad_escrow[2].data.pop();
    assert_eq!(refund_error(&bad_escrow), ProgramError::InvalidAccountData);

    let mut short_ata = refund_accounts();
    short_ata[4].data.pop();
    assert_eq!(refund_error(&short_ata), ProgramError::InvalidAccountData);

    let mut foreign_ata = refund_accounts();
    foreign_ata[4].owner = addr(99);
    assert_eq!(refund_error(&foreign_ata), ProgramError::IncorrectProgramId);

    let mut others_ata = refund_accounts();
    others_ata[4] = token_account(addr(20), &addr(MINT_A), &addr(TAKER));
    assert_eq!(refund_error(&others_ata), ProgramError::InvalidAccountOwner);

    let mut wrong_mint = refund_accounts();
    wrong_mint[4] = token_account(addr(20), &addr(MINT_B), &addr(MAKER));
    assert_eq!(refund_error(&wrong_mint), ProgramError::InvalidAccountData);
}

#[test]
fn refund_signs_for_the_escrow_it_settles() {
    let plan = process_refund_ixn(&refund_accounts()).unwrap();
    match plan[0] {
        Action::Transfer { authority: 2, signer: Some(signer), amount, .. } => {
            assert_eq!(derive_escrow_address(&signer.maker, signer.bump), escrow_address());
            assert_eq!(amount, 0x0102_0304_0506_0708);
        }
        ref other => panic!("unexpected first step {:?}", other),
    }
    assert_eq!(plan[2], Action::ReclaimEscrow { escrow: 2, destination: 0 });
}

// ----- take ----- //

#[test]
fn take_errors() {
    assert_eq!(take_error(&take_accounts()[..10]), ProgramError::NotEnoughAccountKeys);

    let mut unsigned = take_accounts();
    unsigned[0].is_signer = false;
    assert_eq!(take_error(&unsigned), ProgramError::MissingRequiredSignature);

    let mut bad_escrow = take_accounts();
    bad_escrow[4].data.clear();
    assert_eq!(take_error(&bad_escrow), ProgramError::InvalidAccountData);

    let mut foreign_maker_ata = take_accounts();
    foreign_maker_ata[8].owner = addr(99);
    assert_eq!(take_error(&foreign_maker_ata), ProgramError::IncorrectProgramId);

    let mut foreign_taker_ata_a = take_accounts();
    foreign_taker_ata_a[6].owner = addr(99);
    assert_eq!(take_error(&foreign_taker_ata_a), ProgramError::IncorrectProgramId);

    let mut short_taker_ata_b = take_accounts();
    short_taker_ata_b[7].data.pop();
    assert_eq!(take_error(&short_taker_ata_b), ProgramError::InvalidAccountData);

    let mut others_ata_b = take_accounts();
    others_ata_b[7] = token_account(addr(23), &addr(MINT_B), &addr(MAKER));
    assert_eq!(take_error(&others_ata_b), ProgramError::IllegalOwner);

    let mut wrong_mint_a = take_accounts();
    wrong_mint_a[6] = token_account(addr(22), &addr(MINT_B), &addr(TAKER));
    assert_eq!(take_error(&wrong_mint_a), ProgramError::InvalidAccountData);

    let mut wrong_mint_b = take_accounts();
    wrong_mint_b[7] = token_account(addr(23), &addr(MINT_A), &addr(TAKER));
    assert_eq!(take_error(&wrong_mint_b), ProgramError::InvalidAccountData);

    let mut wrong_maker_mint = take_accounts();
    wrong_maker_mint[8] = token_account(addr(21), &addr(MINT_A), &addr(MAKER));
    assert_eq!(take_error(&wrong_maker_mint), ProgramError::InvalidAccountData);
}

#[test]
fn take_checks_in_order() {
    // An unsigned take with a broken escrow reports the missing signature first.
    let mut accounts = take_accounts();
    accounts[0].is_signer = false;
    accounts[4].data.clear();
    assert_eq!(take_error(&accounts), ProgramError::MissingRequiredSignature);
    // The maker's token account is read before the taker's.
    let mut accounts = take_accounts();
    accounts[8].owner = addr(99);
    accounts[6].data.pop();
    assert_eq!(take_error(&accounts), ProgramError::IncorrectProgramId);
}

// ----- make ----- //

#[test]
fn make_errors() {
    assert_eq!(
        make_failure(&make_accounts()[..7], &make_data()),
        Failure::Error(ProgramError::NotEnoughAccountKeys)
    );

    let mut foreign_ata = make_accounts();
    foreign_ata[4].owner = addr(99);
    assert_eq!(make_failure(&foreign_ata, &make_data()), Failure::Error(ProgramError::IncorrectProgramId));

    let mut others_ata = make_accounts();
    others_ata[4] = token_account(addr(20), &addr(MINT_A), &addr(TAKER));
    assert_eq!(make_failure(&others_ata, &make_data()), Failure::Error(ProgramError::IllegalOwner));

    let mut wrong_mint = make_accounts();
    wrong_mint[4] = token_account(addr(20), &addr(MINT_B), &addr(MAKER));
    assert_eq!(make_failure(&wrong_mint, &make_data()), Failure::Error(ProgramError::InvalidAccountData));

    assert_eq!(
        make_failure(&make_accounts(), &make_data()[..16]),
        Failure::Error(ProgramError::InvalidInstructionData)
    );

    let mut other_bump = make_data();
    other_bump[0] = BUMP - 1;
    assert_eq!(make_failure(&make_accounts(), &other_bump), Failure::EscrowAddressMismatch);

    let mut reopened = make_accounts();
    reopened[3].owner = PROGRAM_ID;
    assert_eq!(make_failure(&reopened, &make_data()), Failure::Error(ProgramError::IllegalOwner));
}

#[test]
fn take_and_refund_read_what_make_wrote() {
    let plan = process_make_ixn_v2(&make_accounts(), &make_data()).unwrap();
    let written = match plan[1] {
        Action::WriteEscrowState { account: 3, state } => state,
        ref other => panic!("unexpected second step {:?}", other),
    };
    assert_eq!(written, state());
    assert_eq!(derive_escrow_address(&written.maker, written.bump), escrow_address());

    let mut take = take_accounts();
    take[4].data = written.to_bytes();
    let taken = process_take_v2_ixn(&take).unwrap();
    assert!(matches!(taken[0], Action::Transfer { amount: 42, signer: None, .. }));
    assert!(matches!(taken[1], Action::Transfer { amount: 0x0102_0304_0506_0708, .. }));

    let mut refund = refund_accounts();
    refund[2].data = written.to_bytes();
    let refunded = process_refund_ixn(&refund).unwrap();
    assert!(matches!(refunded[0], Action::Transfer { amount: 0x0102_0304_0506_0708, .. }));
}

#[test]
fn make_second_half_on_given_addresses() {
    let args = MakeArgs::deserialize(&make_data()).unwrap();
    let accounts = make_accounts();
    assert_eq!(
        make_with_escrow_address(&accounts, &make_data(), args, &addr(99)),
        Err(Failure::EscrowAddressMismatch)
    );
    let plan = make_with_escrow_address(&accounts, &make_data(), args, &escrow_address()).unwrap();
    assert_eq!(plan.len(), 4);
    assert_eq!(plan[1], Action::WriteEscrowState { account: 3, state: state() });
    assert_eq!(plan[3], Action::Transfer { from: 4, to: 5, authority: 0, amount: 0x0102_0304_0506_0708, signer: None });
    let mut owned = make_accounts();
    owned[3].owner = PROGRAM_ID;
    assert_eq!(
        make_with_escrow_address(&owned, &make_data(), args, &escrow_address()),
        Err(Failure::Error(ProgramError::IllegalOwner))
    );
}
