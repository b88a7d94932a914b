use escrow::account::{AccountSnapshot, TOKEN_ACCOUNT_LEN};
use escrow::address::{Address, PROGRAM_ID, TOKEN_PROGRAM_ID};
use escrow::instructions::process_instruction;
use escrow::pda::derive_escrow_address;
use escrow::plan::{Action, EscrowSigner};
use escrow::state::{EscrowState, ESCROW_LEN};

const SYSTEM_PROGRAM: Address = [0u8; 32];
const AMOUNT_TO_GIVE: u64 = 500_000_000;
const AMOUNT_TO_RECEIVE: u64 = 100_000_000;

fn addr(b: u8) -> Address {
    [b; 32]
}

fn plain(address: Address, signer: bool) -> AccountSnapshot {
    AccountSnapshot { address, owner: SYSTEM_PROGRAM, is_signer: signer, data: Vec::new() }
}

fn token_data(mint: &Address, owner: &Address, amount: u64) -> Vec<u8> {
    let mut data = vec![0u8; TOKEN_ACCOUNT_LEN];
    data[0..32].copy_from_slice(mint);
    data[32..64].copy_from_slice(owner);
    data[64..72].copy_from_slice(&amount.to_le_bytes());
    data
}

fn token_account(address: Address, mint: &Address, owner: &Address, amount: u64) -> AccountSnapshot {
    AccountSnapshot {
        address,
        owner: TOKEN_PROGRAM_ID,
        is_signer: false,
        data: token_data(mint, owner, amount),
    }
}

struct Parties {
    maker: Address,
    taker: Address,
    mint_a: Address,
    mint_b: Address,
    maker_ata_a: Address,
    maker_ata_b: Address,
    taker_ata_a: Address,
    taker_ata_b: Address,
    vault: Address,
    bump: u8,
    escrow: Address,
}

fn parties() -> Parties {
    let maker = addr(7);
    let bump = 254;
    Parties {
        maker,
        taker: addr(8),
        mint_a: addr(10),
        mint_b: addr(11),
        maker_ata_a: addr(20),
        maker_ata_b: addr(21),
        taker_ata_a: addr(22),
        taker_ata_b: addr(23),
        vault: addr(30),
        bump,
        escrow: derive_escrow_address(&maker, bump),
    }
}

fn make_data(p: &Parties) -> Vec<u8> {
    let mut data = vec![p.bump];
    data.extend_from_slice(&AMOUNT_TO_RECEIVE.to_le_bytes());
    data.extend_from_slice(&AMOUNT_TO_GIVE.to_le_bytes());
    data
}

fn make_accounts(p: &Parties) -> Vec<AccountSnapshot> {
    vec![
        plain(p.maker, true),
        plain(p.mint_a, false),
        plain(p.mint_b, false),
        plain(p.escrow, false),
        token_account(p.maker_ata_a, &p.mint_a, &p.maker, AMOUNT_TO_GIVE),
        plain(p.vault, false),
        plain(SYSTEM_PROGRAM, false),
        plain(TOKEN_PROGRAM_ID, false),
        plain(addr(40), false),
    ]
}

fn recorded_state(p: &Parties) -> EscrowState {
    EscrowState {
        maker: p.maker,
        mint_a: p.mint_a,
        mint_b: p.mint_b,
        amount_to_receive: AMOUNT_TO_RECEIVE,
        amount_to_give: AMOUNT_TO_GIVE,
        bump: p.bump,
    }
}

fn escrow_account(p: &Parties) -> AccountSnapshot {
    AccountSnapshot {
        address: p.escrow,
        owner: PROGRAM_ID,
        is_signer: false,
        data: recorded_state(p).to_bytes(),
    }
}

fn take_accounts(p: &Parties) -> Vec<AccountSnapshot> {
    vec![
        plain(p.taker, true),
        plain(p.maker, false),
        plain(p.mint_a, false),
        plain(p.mint_b, false),
        escrow_account(p),
        token_account(p.vault, &p.mint_a, &p.escrow, AMOUNT_TO_GIVE),
        token_account(p.taker_ata_a, &p.mint_a, &p.taker, 0),
        token_account(p.taker_ata_b, &p.mint_b, &p.taker, AMOUNT_TO_RECEIVE),
        token_account(p.maker_ata_b, &p.mint_b, &p.maker, 0),
        plain(TOKEN_PROGRAM_ID, false),
        plain(SYSTEM_PROGRAM, false),
        plain(addr(40), false),
    ]
}

fn refund_accounts(p: &Parties) -> Vec<AccountSnapshot> {
    vec![
        plain(p.maker, true),
        plain(p.mint_a, false),
        escrow_account(p),
        token_account(p.vault, &p.mint_a, &p.escrow, AMOUNT_TO_GIVE),
        token_account(p.maker_ata_a, &p.mint_a, &p.maker, 0),
        plain(TOKEN_PROGRAM_ID, false),
        plain(SYSTEM_PROGRAM, false),
        plain(addr(40), false),
    ]
}

fn with_discriminator(d: u8, data: &[u8]) -> Vec<u8> {
    let mut v = vec![d];
    v.extend_from_slice(data);
    v
}

fn expected_make_plan(p: &Parties) -> Vec<Action> {
    let signer = EscrowSigner { maker: p.maker, bump: p.bump };
    vec![
        Action::CreateEscrowAccount { funder: 0, account: 3, space: ESCROW_LEN, owner: PROGRAM_ID, signer },
        Action::WriteEscrowState { account: 3, state: recorded_state(p) },
        Action::CreateAssociatedTokenAccount {
            funder: 0,
            account: 5,
            wallet: 3,
            mint: 1,
            system_program: 6,
            token_program: 7,
        },
        Action::Transfer { from: 4, to: 5, authority: 0, amount: AMOUNT_TO_GIVE, signer: None },
    ]
}

// ----- end-to-end scenarios ----- //

#[test]
fn test_make() {
    let p = parties();
    let data = with_discriminator(0, &make_data(&p));
    let plan = process_instruction(&PROGRAM_ID, &make_accounts(&p), &data).expect("make failed");
    assert_eq!(plan, expected_make_plan(&p));
}

#[test]
fn test_take() {
    let p = parties();
    let plan = process_instruction(&PROGRAM_ID, &take_accounts(&p), &[1]).expect("take failed");
    let signer = EscrowSigner { maker: p.maker, bump: p.bump };
    assert_eq!(
        plan,
        vec![
            Action::Transfer { from: 7, to: 8, authority: 0, amount: AMOUNT_TO_RECEIVE, signer: None },
            Action::Transfer { from: 5, to: 6, authority: 4, amount: AMOUNT_TO_GIVE, signer: Some(signer) },
            Action::CloseTokenAccount { account: 5, destination: 1, authority: 4, signer },
            Action::ReclaimEscrow { escrow: 4, destination: 1 },
        ]
    );
}

#[test]
fn test_refund() {
    let p = parties();
    let plan = process_instruction(&PROGRAM_ID, &refund_accounts(&p), &[2]).expect("refund failed");
    let signer = EscrowSigner { maker: p.maker, bump: p.bump };
    assert_eq!(
        plan,
        vec![
            Action::Transfer { from: 3, to: 4, authority: 2, amount: AMOUNT_TO_GIVE, signer: Some(signer) },
            Action::CloseTokenAccount { account: 3, destination: 0, authority: 2, signer },
            Action::ReclaimEscrow { escrow: 2, destination: 0 },
        ]
    );
}

#[test]
fn test_make_v2() {
    let p = parties();
    let mut data = wincode::serialize(&(p.bump, AMOUNT_TO_RECEIVE, AMOUNT_TO_GIVE)).expect("serialize");
    data.insert(0, 3);
    let plan = process_instruction(&PROGRAM_ID, &make_accounts(&p), &data).expect("make v2 failed");
    assert_eq!(plan, expected_make_plan(&p));
}
