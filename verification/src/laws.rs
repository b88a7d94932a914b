//! Properties that relate the instructions to one another: what a make records is
//! what a later take or refund reads back, the program signs only for the escrow
//! account a make created, and an escrow is settled only with the right parties'
//! consent and accounts, and after a make the maker can always refund and a taker
//! with the right accounts can always take.
use vstd::prelude::*;
use vstd::bytes::spec_u64_from_le_bytes;
use crate::account::AccountSnapshot;
use crate::address::{ESCROW_SEED, PROGRAM_ID, TOKEN_PROGRAM_ID};
use crate::error::{Failure, ProgramError};
use crate::instructions::{
    instruction_of, EscrowInstructions, as_failure, instruction_outcome, made_state, make_outcome, refund_outcome, refund_plan,
    take_outcome, take_plan,
};
use crate::pda::{derived_address, escrow_address_of};
use crate::address::Address;
use crate::plan::{Action, EscrowSigner};
use crate::state::{decode_make_args, describes, encode, EscrowState, lemma_encode_then_decode, MakeArgs};

verus! {

/// The make arguments of a make that went ahead.
pub open spec fn made_args(data: Seq<u8>) -> MakeArgs {
    decode_make_args(data)->0
}

/// A make that goes ahead records its maker and bump, and the escrow account it
/// writes to is the one that the maker's address and that bump derive: the seeds the
/// program later signs with name exactly this account.
pub proof fn law_make_records_the_deriving_seeds(accounts: Seq<AccountSnapshot>, data: Seq<u8>)
    requires
        make_outcome(accounts, data) is Ok,
    ensures
        ({
            let s = made_state(accounts, made_args(data), data);
            &&& s.maker@ == accounts[0].address@
            &&& s.bump == made_args(data).bump
            &&& derived_address(seq![ESCROW_SEED@, s.maker@, seq![s.bump]], PROGRAM_ID@) == accounts[3].address@
            &&& make_outcome(accounts, data)->Ok_0[1] == (Action::WriteEscrowState {
                account: 3,
                state: s,
            })
        }),
{
}

/// A make never overwrites an escrow account the program already owns.
pub proof fn law_make_never_reopens_an_escrow(accounts: Seq<AccountSnapshot>, data: Seq<u8>)
    requires
        accounts[3].owner@ == PROGRAM_ID@,
    ensures
        make_outcome(accounts, data) is Err,
{
}

/// What a make records, a take reads back: when the escrow account holds the record a
/// make wrote, the taker pays exactly the amount the maker asked for, receives exactly
/// the amount the maker deposited, and the program signs with the make's bump.
pub proof fn law_take_reads_what_make_wrote(
    make_accounts: Seq<AccountSnapshot>,
    data: Seq<u8>,
    take_accounts: Seq<AccountSnapshot>,
)
    requires
        make_outcome(make_accounts, data) is Ok,
        take_accounts[4].data@ == encode(made_state(make_accounts, made_args(data), data)),
        take_outcome(take_accounts) is Ok,
    ensures
        ({
            let made = make_outcome(make_accounts, data)->Ok_0;
            let taken = take_outcome(take_accounts)->Ok_0;
            &&& made[3] matches Action::Transfer { amount: deposit, .. }
            &&& taken[0] matches Action::Transfer { amount: paid, to: 8, from: 7, .. }
                && paid == made_args(data).amount_to_receive
            &&& taken[1] matches Action::Transfer { amount: released, from: 5, to: 6, .. }
                && released == deposit
            &&& taken[1] matches Action::Transfer { signer: Some(sig), .. }
                && sig.bump == made_args(data).bump
        }),
{
    lemma_encode_then_decode(made_state(make_accounts, made_args(data), data));
}

/// What a make records, a refund reads back: the vault returns exactly the maker's
/// deposit, and the program signs with the make's bump.
pub proof fn law_refund_returns_the_deposit(
    make_accounts: Seq<AccountSnapshot>,
    data: Seq<u8>,
    refund_accounts: Seq<AccountSnapshot>,
)
    requires
        make_outcome(make_accounts, data) is Ok,
        refund_accounts[2].data@ == encode(made_state(make_accounts, made_args(data), data)),
        refund_outcome(refund_accounts) is Ok,
    ensures
        ({
            let made = make_outcome(make_accounts, data)->Ok_0;
            let refunded = refund_outcome(refund_accounts)->Ok_0;
            &&& made[3] matches Action::Transfer { amount: deposit, .. }
            &&& refunded[0] matches Action::Transfer { amount: returned, from: 3, to: 4, .. }
                && returned == deposit
            &&& refunded[0] matches Action::Transfer { signer: Some(sig), .. }
                && sig.bump == made_args(data).bump
        }),
{
    lemma_encode_then_decode(made_state(make_accounts, made_args(data), data));
}

/// The program signs a refund only for the escrow account a make created: when the
/// refund names the same maker and escrow account as the make, and the escrow holds
/// the make's record, the seeds of every signed step derive the escrow account's
/// address, the authority of those steps.
pub proof fn law_refund_signs_for_the_made_escrow(
    make_accounts: Seq<AccountSnapshot>,
    data: Seq<u8>,
    refund_accounts: Seq<AccountSnapshot>,
)
    requires
        make_outcome(make_accounts, data) is Ok,
        refund_accounts[0].address@ == make_accounts[0].address@,
        refund_accounts[2].address@ == make_accounts[3].address@,
        refund_accounts[2].data@ == encode(made_state(make_accounts, made_args(data), data)),
        refund_outcome(refund_accounts) is Ok,
    ensures
        ({
            let refunded = refund_outcome(refund_accounts)->Ok_0;
            &&& refunded[0] matches Action::Transfer { authority: 2, signer: Some(sig), .. }
                && derived_address(seq![ESCROW_SEED@, sig.maker@, seq![sig.bump]], PROGRAM_ID@)
                == refund_accounts[2].address@
            &&& refunded[1] matches Action::CloseTokenAccount { authority: 2, signer: sig, .. }
                && derived_address(seq![ESCROW_SEED@, sig.maker@, seq![sig.bump]], PROGRAM_ID@)
                == refund_accounts[2].address@
        }),
{
    lemma_encode_then_decode(made_state(make_accounts, made_args(data), data));
}

/// The program signs a take only for the escrow account a make created: when the
/// take names the same maker and escrow account as the make, and the escrow holds the
/// make's record, the seeds of every signed step derive the escrow account's address,
/// the authority of those steps.
pub proof fn law_take_signs_for_the_made_escrow(
    make_accounts: Seq<AccountSnapshot>,
    data: Seq<u8>,
    take_accounts: Seq<AccountSnapshot>,
)
    requires
        make_outcome(make_accounts, data) is Ok,
        take_accounts[1].address@ == make_accounts[0].address@,
        take_accounts[4].address@ == make_accounts[3].address@,
        take_accounts[4].data@ == encode(made_state(make_accounts, made_args(data), data)),
        take_outcome(take_accounts) is Ok,
    ensures
        ({
            let taken = take_outcome(take_accounts)->Ok_0;
            &&& taken[1] matches Action::Transfer { authority: 4, signer: Some(sig), .. }
                && derived_address(seq![ESCROW_SEED@, sig.maker@, seq![sig.bump]], PROGRAM_ID@)
                == take_accounts[4].address@
            &&& taken[2] matches Action::CloseTokenAccount { authority: 4, signer: sig, .. }
                && derived_address(seq![ESCROW_SEED@, sig.maker@, seq![sig.bump]], PROGRAM_ID@)
                == take_accounts[4].address@
        }),
{
    lemma_encode_then_decode(made_state(make_accounts, made_args(data), data));
}

/// A refund goes ahead only with the maker's signature, pays only into a token
/// account of the maker for `mint_a`, and ends the escrow: the vault is closed and the
/// escrow's lamports return to the maker.
pub proof fn law_refund_settles_with_the_maker(accounts: Seq<AccountSnapshot>)
    requires
        refund_outcome(accounts) is Ok,
    ensures
        accounts[0].is_signer,
        accounts[4].data@.subrange(32, 64) == accounts[0].address@,
        accounts[4].data@.subrange(0, 32) == accounts[1].address@,
        ({
            let plan = refund_outcome(accounts)->Ok_0;
            &&& plan.len() == 3
            &&& plan[1] matches Action::CloseTokenAccount { account: 3, destination: 0, .. }
            &&& plan[2] == (Action::ReclaimEscrow { escrow: 2, destination: 0 })
        }),
{
}

/// A take goes ahead only with the taker's signature and only between token accounts
/// of the right mints (the taker's own account for `mint_b`), and it ends the escrow:
/// the vault is closed and the escrow's lamports return to the maker.
pub proof fn law_take_settles_with_the_taker(accounts: Seq<AccountSnapshot>)
    requires
        take_outcome(accounts) is Ok,
    ensures
        accounts[0].is_signer,
        accounts[7].data@.subrange(32, 64) == accounts[0].address@,
        accounts[6].data@.subrange(0, 32) == accounts[2].address@,
        accounts[7].data@.subrange(0, 32) == accounts[3].address@,
        accounts[8].data@.subrange(0, 32) == accounts[3].address@,
        ({
            let plan = take_outcome(accounts)->Ok_0;
            &&& plan.len() == 4
            &&& plan[2] matches Action::CloseTokenAccount { account: 5, destination: 1, .. }
            &&& plan[3] == (Action::ReclaimEscrow { escrow: 4, destination: 1 })
        }),
{
}

/// The first byte of the instruction data chooses the instruction and the rest is
/// its data: 0 and 3 open an escrow, 1 takes one, 2 refunds one; empty data and
/// every other first byte are refused as invalid instruction data, whatever the
/// accounts.
pub proof fn law_dispatch_by_first_byte(
    accounts: Seq<AccountSnapshot>,
    instruction_data: Seq<u8>,
)
    ensures
        ({
            let rest = instruction_data.subrange(1, instruction_data.len() as int);
            let out = instruction_outcome(accounts, instruction_data);
            &&& instruction_data.len() == 0 ==> out == Err::<Seq<Action>, Failure>(
                Failure::Error(ProgramError::InvalidInstructionData),
            )
            &&& instruction_data.len() > 0 && (instruction_data[0] == 0 || instruction_data[0] == 3)
                ==> out == make_outcome(accounts, rest)
            &&& instruction_data.len() > 0 && instruction_data[0] == 1 ==> out == as_failure(
                take_outcome(accounts),
            )
            &&& instruction_data.len() > 0 && instruction_data[0] == 2 ==> out == as_failure(
                refund_outcome(accounts),
            )
            &&& instruction_data.len() > 0 && instruction_data[0] > 3 ==> out
                == Err::<Seq<Action>, Failure>(Failure::Error(ProgramError::InvalidInstructionData))
        }),
{
}

/// After a make, the maker can always get the deposit back: a refund signed by the
/// maker, naming the make's mint A, an escrow account holding the make's record, and
/// a token account that passed the make's checks (the same wallet and mint), goes
/// ahead and returns exactly the deposit.
pub proof fn law_refund_after_make_succeeds(
    make_accounts: Seq<AccountSnapshot>,
    data: Seq<u8>,
    refund_accounts: Seq<AccountSnapshot>,
)
    requires
        make_outcome(make_accounts, data) is Ok,
        refund_accounts.len() >= 7,
        refund_accounts[0].address@ == make_accounts[0].address@,
        refund_accounts[0].is_signer,
        refund_accounts[1].address@ == make_accounts[1].address@,
        refund_accounts[2].data@ == encode(made_state(make_accounts, made_args(data), data)),
        (refund_accounts[4].data@.len() == 165 && refund_accounts[4].owner@ == TOKEN_PROGRAM_ID@),
        refund_accounts[4].data@.subrange(32, 64) == make_accounts[4].data@.subrange(32, 64),
        refund_accounts[4].data@.subrange(0, 32) == make_accounts[4].data@.subrange(0, 32),
    ensures
        refund_outcome(refund_accounts) == Ok::<Seq<Action>, ProgramError>(refund_plan(refund_accounts)),
        ({
            let made = make_outcome(make_accounts, data)->Ok_0;
            let refunded = refund_outcome(refund_accounts)->Ok_0;
            &&& made[3] matches Action::Transfer { amount: deposit, .. }
            &&& refunded[0] matches Action::Transfer { amount: returned, from: 3, to: 4, .. }
                && returned == deposit
        }),
{
    lemma_encode_then_decode(made_state(make_accounts, made_args(data), data));
}

/// After a make, a taker with the right accounts can always take it: a take signed by
/// the taker, naming the make's two mints, an escrow account holding the make's
/// record, and token accounts that are the taker's for mint B, and are for mint A and
/// mint B as their places require, goes ahead; the taker pays exactly the ask and
/// receives exactly the deposit.
pub proof fn law_take_after_make_succeeds(
    make_accounts: Seq<AccountSnapshot>,
    data: Seq<u8>,
    take_accounts: Seq<AccountSnapshot>,
)
    requires
        make_outcome(make_accounts, data) is Ok,
        take_accounts.len() >= 11,
        take_accounts[0].is_signer,
        take_accounts[2].address@ == make_accounts[1].address@,
        take_accounts[3].address@ == make_accounts[2].address@,
        take_accounts[4].data@ == encode(made_state(make_accounts, made_args(data), data)),
        (take_accounts[6].data@.len() == 165 && take_accounts[6].owner@ == TOKEN_PROGRAM_ID@),
        (take_accounts[7].data@.len() == 165 && take_accounts[7].owner@ == TOKEN_PROGRAM_ID@),
        (take_accounts[8].data@.len() == 165 && take_accounts[8].owner@ == TOKEN_PROGRAM_ID@),
        take_accounts[7].data@.subrange(32, 64) == take_accounts[0].address@,
        take_accounts[6].data@.subrange(0, 32) == make_accounts[1].address@,
        take_accounts[7].data@.subrange(0, 32) == make_accounts[2].address@,
        take_accounts[8].data@.subrange(0, 32) == make_accounts[2].address@,
    ensures
        take_outcome(take_accounts) == Ok::<Seq<Action>, ProgramError>(take_plan(take_accounts)),
        ({
            let made = make_outcome(make_accounts, data)->Ok_0;
            let taken = take_outcome(take_accounts)->Ok_0;
            &&& made[3] matches Action::Transfer { amount: deposit, .. }
            &&& taken[0] matches Action::Transfer { amount: paid, from: 7, to: 8, .. }
                && paid == made_args(data).amount_to_receive
            &&& taken[1] matches Action::Transfer { amount: released, from: 5, to: 6, .. }
                && released == deposit
        }),
{
    lemma_encode_then_decode(made_state(make_accounts, made_args(data), data));
}

// ---------------------------------------------------------------- in raw terms
//
// The laws below describe each operation by the bytes and addresses of its inputs
// alone: token accounts by the bytes of their data, escrow records by their byte
// layout, and the escrow address by the seeds it is derived from.

/// `a` has the shape of a token account: 165 bytes of data, owned by the token program.
pub open spec fn is_token_shaped(a: AccountSnapshot) -> bool {
    a.data@.len() == 165 && a.owner@ == TOKEN_PROGRAM_ID@
}

/// The mint a token account holds tokens of: the first 32 bytes of its data.
pub open spec fn mint_bytes(a: AccountSnapshot) -> Seq<u8> {
    a.data@.subrange(0, 32)
}

/// The wallet a token account belongs to: bytes 32 to 64 of its data.
pub open spec fn wallet_bytes(a: AccountSnapshot) -> Seq<u8> {
    a.data@.subrange(32, 64)
}

/// The little-endian word at `offset` in `b`.
pub open spec fn word_at(b: Seq<u8>, offset: int) -> u64 {
    spec_u64_from_le_bytes(b.subrange(offset, offset + 8))
}

/// The address of the escrow that `maker` opens with `bump`: the address derived for
/// this program from the seeds `"escrow"`, the maker's 32 address bytes in order, and
/// the bump byte.
pub open spec fn pda_of(maker: Seq<u8>, bump: u8) -> Seq<u8> {
    derived_address(
        seq![seq![101u8, 115u8, 99u8, 114u8, 111u8, 119u8], maker, seq![bump]],
        PROGRAM_ID@,
    )
}

/// The program's signature for the escrow of `maker` and `bump`.
pub open spec fn signer_for(maker: Address, bump: u8) -> EscrowSigner {
    EscrowSigner { maker: maker, bump: bump }
}

/// The first seed is the six bytes of `"escrow"`.
pub proof fn law_escrow_seed_spells_escrow()
    ensures
        ESCROW_SEED@ == seq![101u8, 115u8, 99u8, 114u8, 111u8, 119u8],
{
    assert(ESCROW_SEED@ =~= seq![101u8, 115u8, 99u8, 114u8, 111u8, 119u8]);
}

/// The escrow address of a maker and a bump is the address derived from exactly the
/// seeds `"escrow"`, the maker's address bytes in order, and the bump: the same seeds
/// the program signs with.
pub proof fn law_escrow_address_is_derived_from_maker_and_bump(maker: Seq<u8>, bump: u8)
    ensures
        escrow_address_of(maker, bump) == pda_of(maker, bump),
        escrow_address_of(maker, bump) == derived_address(
            seq![ESCROW_SEED@, maker, seq![bump]],
            PROGRAM_ID@,
        ),
{
    law_escrow_seed_spells_escrow();
}

/// An escrow record is 113 bytes: the maker's, mint A's and mint B's address bytes in
/// order, the amount asked and the amount deposited as little-endian words, and the
/// bump.
pub proof fn law_escrow_record_layout(s: EscrowState)
    ensures
        encode(s).len() == 113,
        encode(s).subrange(0, 32) == s.maker@,
        encode(s).subrange(32, 64) == s.mint_a@,
        encode(s).subrange(64, 96) == s.mint_b@,
        word_at(encode(s), 96) == s.amount_to_receive,
        word_at(encode(s), 104) == s.amount_to_give,
        encode(s)[112] == s.bump,
{
    lemma_encode_then_decode(s);
}

/// Reading an escrow record takes each field from its place in the layout.
pub proof fn law_escrow_record_read(s: EscrowState, b: Seq<u8>)
    requires
        describes(s, b),
    ensures
        b.len() == 113,
        s.maker@ == b.subrange(0, 32),
        s.mint_a@ == b.subrange(32, 64),
        s.mint_b@ == b.subrange(64, 96),
        s.amount_to_receive == word_at(b, 96),
        s.amount_to_give == word_at(b, 104),
        s.bump == b[112],
{
}

/// A make goes ahead whatever the two amounts, once its token account is the maker's
/// for mint A, its data holds the bump and the two amounts, and its escrow account is
/// the one the maker and the bump derive and is not yet the program's. It then creates
/// the escrow account, records the maker, the mints, the amounts as encoded and the
/// first data byte as bump, creates the vault, and moves the amount to give from the
/// maker's token account into the vault.
pub proof fn law_make_goes_ahead(accounts: Seq<AccountSnapshot>, data: Seq<u8>)
    requires
        accounts.len() >= 8,
        is_token_shaped(accounts[4]),
        wallet_bytes(accounts[4]) == accounts[0].address@,
        mint_bytes(accounts[4]) == accounts[1].address@,
        data.len() >= 17,
        accounts[3].address@ == pda_of(accounts[0].address@, data[0]),
        accounts[3].owner@ != PROGRAM_ID@,
    ensures
        make_outcome(accounts, data) == Ok::<Seq<Action>, Failure>(
            seq![
                Action::CreateEscrowAccount {
                    funder: 0,
                    account: 3,
                    space: 113,
                    owner: PROGRAM_ID,
                    signer: signer_for(accounts[0].address, data[0]),
                },
                Action::WriteEscrowState {
                    account: 3,
                    state: EscrowState {
                        maker: accounts[0].address,
                        mint_a: accounts[1].address,
                        mint_b: accounts[2].address,
                        amount_to_receive: word_at(data, 1),
                        amount_to_give: word_at(data, 9),
                        bump: data[0],
                    },
                },
                Action::CreateAssociatedTokenAccount {
                    funder: 0,
                    account: 5,
                    wallet: 3,
                    mint: 1,
                    system_program: 6,
                    token_program: 7,
                },
                Action::Transfer {
                    from: 4,
                    to: 5,
                    authority: 0,
                    amount: word_at(data, 9),
                    signer: None,
                },
            ],
        ),
{
    law_escrow_address_is_derived_from_maker_and_bump(accounts[0].address@, data[0]);
    assert(make_outcome(accounts, data)->Ok_0 =~= seq![
        Action::CreateEscrowAccount {
            funder: 0,
            account: 3,
            space: 113,
            owner: PROGRAM_ID,
            signer: signer_for(accounts[0].address, data[0]),
        },
        Action::WriteEscrowState {
            account: 3,
            state: EscrowState {
                maker: accounts[0].address,
                mint_a: accounts[1].address,
                mint_b: accounts[2].address,
                amount_to_receive: word_at(data, 1),
                amount_to_give: word_at(data, 9),
                bump: data[0],
            },
        },
        Action::CreateAssociatedTokenAccount {
            funder: 0,
            account: 5,
            wallet: 3,
            mint: 1,
            system_program: 6,
            token_program: 7,
        },
        Action::Transfer { from: 4, to: 5, authority: 0, amount: word_at(data, 9), signer: None },
    ]);
}

/// A make is refused, with this error, at the first check its inputs fail: too few
/// accounts; a maker token account of the wrong size or owner program; one of another
/// wallet or another mint; data too short for the bump and two amounts; an escrow
/// account at another address than the one derived (the program aborts); an escrow
/// account the program already owns.
pub proof fn law_make_refusals(accounts: Seq<AccountSnapshot>, data: Seq<u8>)
    ensures
        accounts.len() < 8 ==> make_outcome(accounts, data) == Err::<Seq<Action>, Failure>(
            Failure::Error(ProgramError::NotEnoughAccountKeys),
        ),
        accounts.len() >= 8 && accounts[4].data@.len() != 165 ==> make_outcome(accounts, data)
            == Err::<Seq<Action>, Failure>(Failure::Error(ProgramError::InvalidAccountData)),
        accounts.len() >= 8 && accounts[4].data@.len() == 165 && accounts[4].owner@
            != TOKEN_PROGRAM_ID@ ==> make_outcome(accounts, data) == Err::<Seq<Action>, Failure>(
            Failure::Error(ProgramError::IncorrectProgramId),
        ),
        accounts.len() >= 8 && is_token_shaped(accounts[4]) && wallet_bytes(accounts[4])
            != accounts[0].address@ ==> make_outcome(accounts, data) == Err::<Seq<Action>, Failure>(
            Failure::Error(ProgramError::IllegalOwner),
        ),
        accounts.len() >= 8 && is_token_shaped(accounts[4]) && wallet_bytes(accounts[4])
            == accounts[0].address@ && mint_bytes(accounts[4]) != accounts[1].address@
            ==> make_outcome(accounts, data) == Err::<Seq<Action>, Failure>(
            Failure::Error(ProgramError::InvalidAccountData),
        ),
        accounts.len() >= 8 && is_token_shaped(accounts[4]) && wallet_bytes(accounts[4])
            == accounts[0].address@ && mint_bytes(accounts[4]) == accounts[1].address@
            && data.len() < 17 ==> make_outcome(accounts, data) == Err::<Seq<Action>, Failure>(
            Failure::Error(ProgramError::InvalidInstructionData),
        ),
        accounts.len() >= 8 && is_token_shaped(accounts[4]) && wallet_bytes(accounts[4])
            == accounts[0].address@ && mint_bytes(accounts[4]) == accounts[1].address@
            && data.len() >= 17 && accounts[3].address@ != pda_of(accounts[0].address@, data[0])
            ==> make_outcome(accounts, data) == Err::<Seq<Action>, Failure>(
            Failure::EscrowAddressMismatch,
        ),
        accounts.len() >= 8 && is_token_shaped(accounts[4]) && wallet_bytes(accounts[4])
            == accounts[0].address@ && mint_bytes(accounts[4]) == accounts[1].address@
            && data.len() >= 17 && accounts[3].address@ == pda_of(accounts[0].address@, data[0])
            && accounts[3].owner@ == PROGRAM_ID@ ==> make_outcome(accounts, data) == Err::<
            Seq<Action>,
            Failure,
        >(Failure::Error(ProgramError::IllegalOwner)),
{
    if data.len() >= 17 {
        law_escrow_address_is_derived_from_maker_and_bump(accounts[0].address@, data[0]);
    }
}

/// A refund by the signing maker, with an escrow record of the right size and the
/// maker's own token account for mint A, goes ahead: the vault returns the recorded
/// deposit to that token account under the program's signature for the maker's
/// escrow with the recorded bump, the vault is closed to the maker, and the escrow's
/// lamports go back to the maker.
pub proof fn law_refund_goes_ahead(accounts: Seq<AccountSnapshot>)
    requires
        accounts.len() >= 7,
        accounts[0].is_signer,
        accounts[2].data@.len() == 113,
        is_token_shaped(accounts[4]),
        wallet_bytes(accounts[4]) == accounts[0].address@,
        mint_bytes(accounts[4]) == accounts[1].address@,
    ensures
        refund_outcome(accounts) == Ok::<Seq<Action>, ProgramError>(
            seq![
                Action::Transfer {
                    from: 3,
                    to: 4,
                    authority: 2,
                    amount: word_at(accounts[2].data@, 104),
                    signer: Some(signer_for(accounts[0].address, accounts[2].data@[112])),
                },
                Action::CloseTokenAccount {
                    account: 3,
                    destination: 0,
                    authority: 2,
                    signer: signer_for(accounts[0].address, accounts[2].data@[112]),
                },
                Action::ReclaimEscrow { escrow: 2, destination: 0 },
            ],
        ),
{
    assert(refund_outcome(accounts)->Ok_0 =~= seq![
        Action::Transfer {
            from: 3,
            to: 4,
            authority: 2,
            amount: word_at(accounts[2].data@, 104),
            signer: Some(signer_for(accounts[0].address, accounts[2].data@[112])),
        },
        Action::CloseTokenAccount {
            account: 3,
            destination: 0,
            authority: 2,
            signer: signer_for(accounts[0].address, accounts[2].data@[112]),
        },
        Action::ReclaimEscrow { escrow: 2, destination: 0 },
    ]);
}

/// A refund is refused, with this error, at the first check its inputs fail: too few
/// accounts; no signature from the maker; an escrow record of the wrong size; a token
/// account of the wrong size or owner program; one of another wallet; one of another
/// mint.
pub proof fn law_refund_refusals(accounts: Seq<AccountSnapshot>)
    ensures
        accounts.len() < 7 ==> refund_outcome(accounts) == Err::<Seq<Action>, ProgramError>(
            ProgramError::NotEnoughAccountKeys,
        ),
        accounts.len() >= 7 && !accounts[0].is_signer ==> refund_outcome(accounts) == Err::<
            Seq<Action>,
            ProgramError,
        >(ProgramError::MissingRequiredSignature),
        accounts.len() >= 7 && accounts[0].is_signer && accounts[2].data@.len() != 113
            ==> refund_outcome(accounts) == Err::<Seq<Action>, ProgramError>(
            ProgramError::InvalidAccountData,
        ),
        accounts.len() >= 7 && accounts[0].is_signer && accounts[2].data@.len() == 113
            && accounts[4].data@.len() != 165 ==> refund_outcome(accounts) == Err::<
            Seq<Action>,
            ProgramError,
        >(ProgramError::InvalidAccountData),
        accounts.len() >= 7 && accounts[0].is_signer && accounts[2].data@.len() == 113
            && accounts[4].data@.len() == 165 && accounts[4].owner@ != TOKEN_PROGRAM_ID@
            ==> refund_outcome(accounts) == Err::<Seq<Action>, ProgramError>(
            ProgramError::IncorrectProgramId,
        ),
        accounts.len() >= 7 && accounts[0].is_signer && accounts[2].data@.len() == 113
            && is_token_shaped(accounts[4]) && wallet_bytes(accounts[4]) != accounts[0].address@
            ==> refund_outcome(accounts) == Err::<Seq<Action>, ProgramError>(
            ProgramError::InvalidAccountOwner,
        ),
        accounts.len() >= 7 && accounts[0].is_signer && accounts[2].data@.len() == 113
            && is_token_shaped(accounts[4]) && wallet_bytes(accounts[4]) == accounts[0].address@
            && mint_bytes(accounts[4]) != accounts[1].address@ ==> refund_outcome(accounts)
            == Err::<Seq<Action>, ProgramError>(ProgramError::InvalidAccountData),
{
}

/// A take by the signing taker, with an escrow record of the right size, a maker token
/// account for mint B, a taker token account for mint A, and the taker's own token
/// account for mint B, goes ahead: the taker pays the recorded ask from its mint B
/// account into the maker's, approving it itself; the vault releases the recorded
/// deposit to the taker under the program's signature for the maker's escrow with the
/// recorded bump; the vault is closed to the maker; the escrow's lamports go back to
/// the maker.
pub proof fn law_take_goes_ahead(accounts: Seq<AccountSnapshot>)
    requires
        accounts.len() >= 11,
        accounts[0].is_signer,
        accounts[4].data@.len() == 113,
        is_token_shaped(accounts[6]),
        is_token_shaped(accounts[7]),
        is_token_shaped(accounts[8]),
        wallet_bytes(accounts[7]) == accounts[0].address@,
        mint_bytes(accounts[6]) == accounts[2].address@,
        mint_bytes(accounts[7]) == accounts[3].address@,
        mint_bytes(accounts[8]) == accounts[3].address@,
    ensures
        take_outcome(accounts) == Ok::<Seq<Action>, ProgramError>(
            seq![
                Action::Transfer {
                    from: 7,
                    to: 8,
                    authority: 0,
                    amount: word_at(accounts[4].data@, 96),
                    signer: None,
                },
                Action::Transfer {
                    from: 5,
                    to: 6,
                    authority: 4,
                    amount: word_at(accounts[4].data@, 104),
                    signer: Some(signer_for(accounts[1].address, accounts[4].data@[112])),
                },
                Action::CloseTokenAccount {
                    account: 5,
                    destination: 1,
                    authority: 4,
                    signer: signer_for(accounts[1].address, accounts[4].data@[112]),
                },
                Action::ReclaimEscrow { escrow: 4, destination: 1 },
            ],
        ),
{
    assert(take_outcome(accounts)->Ok_0 =~= seq![
        Action::Transfer {
            from: 7,
            to: 8,
            authority: 0,
            amount: word_at(accounts[4].data@, 96),
            signer: None,
        },
        Action::Transfer {
            from: 5,
            to: 6,
            authority: 4,
            amount: word_at(accounts[4].data@, 104),
            signer: Some(signer_for(accounts[1].address, accounts[4].data@[112])),
        },
        Action::CloseTokenAccount {
            account: 5,
            destination: 1,
            authority: 4,
            signer: signer_for(accounts[1].address, accounts[4].data@[112]),
        },
        Action::ReclaimEscrow { escrow: 4, destination: 1 },
    ]);
}

/// A take is refused, with this error, at the first check its inputs fail: too few
/// accounts; no signature from the taker; an escrow record of the wrong size; the
/// maker's mint B account, then the taker's mint A account, then the taker's mint B
/// account not shaped as a token account; the taker's mint B account of another
/// wallet; any of the three of another mint.
pub proof fn law_take_refusals(accounts: Seq<AccountSnapshot>)
    ensures
        accounts.len() < 11 ==> take_outcome(accounts) == Err::<Seq<Action>, ProgramError>(
            ProgramError::NotEnoughAccountKeys,
        ),
        accounts.len() >= 11 && !accounts[0].is_signer ==> take_outcome(accounts) == Err::<
            Seq<Action>,
            ProgramError,
        >(ProgramError::MissingRequiredSignature),
        accounts.len() >= 11 && accounts[0].is_signer && accounts[4].data@.len() != 113
            ==> take_outcome(accounts) == Err::<Seq<Action>, ProgramError>(
            ProgramError::InvalidAccountData,
        ),
        accounts.len() >= 11 && accounts[0].is_signer && accounts[4].data@.len() == 113
            && accounts[8].data@.len() != 165 ==> take_outcome(accounts) == Err::<
            Seq<Action>,
            ProgramError,
        >(ProgramError::InvalidAccountData),
        accounts.len() >= 11 && accounts[0].is_signer && accounts[4].data@.len() == 113
            && accounts[8].data@.len() == 165 && accounts[8].owner@ != TOKEN_PROGRAM_ID@
            ==> take_outcome(accounts) == Err::<Seq<Action>, ProgramError>(
            ProgramError::IncorrectProgramId,
        ),
        accounts.len() >= 11 && accounts[0].is_signer && accounts[4].data@.len() == 113
            && is_token_shaped(accounts[8]) && accounts[6].data@.len() != 165
            ==> take_outcome(accounts) == Err::<Seq<Action>, ProgramError>(
            ProgramError::InvalidAccountData,
        ),
        accounts.len() >= 11 && accounts[0].is_signer && accounts[4].data@.len() == 113
            && is_token_shaped(accounts[8]) && accounts[6].data@.len() == 165
            && accounts[6].owner@ != TOKEN_PROGRAM_ID@ ==> take_outcome(accounts) == Err::<
            Seq<Action>,
            ProgramError,
        >(ProgramError::IncorrectProgramId),
        accounts.len() >= 11 && accounts[0].is_signer && accounts[4].data@.len() == 113
            && is_token_shaped(accounts[8]) && is_token_shaped(accounts[6])
            && accounts[7].data@.len() != 165 ==> take_outcome(accounts) == Err::<
            Seq<Action>,
            ProgramError,
        >(ProgramError::InvalidAccountData),
        accounts.len() >= 11 && accounts[0].is_signer && accounts[4].data@.len() == 113
            && is_token_shaped(accounts[8]) && is_token_shaped(accounts[6])
            && accounts[7].data@.len() == 165 && accounts[7].owner@ != TOKEN_PROGRAM_ID@
            ==> take_outcome(accounts) == Err::<Seq<Action>, ProgramError>(
            ProgramError::IncorrectProgramId,
        ),
        accounts.len() >= 11 && accounts[0].is_signer && accounts[4].data@.len() == 113
            && is_token_shaped(accounts[8]) && is_token_shaped(accounts[6]) && is_token_shaped(
            accounts[7],
        ) && wallet_bytes(accounts[7]) != accounts[0].address@ ==> take_outcome(accounts)
            == Err::<Seq<Action>, ProgramError>(ProgramError::IllegalOwner),
        accounts.len() >= 11 && accounts[0].is_signer && accounts[4].data@.len() == 113
            && is_token_shaped(accounts[8]) && is_token_shaped(accounts[6]) && is_token_shaped(
            accounts[7],
        ) && wallet_bytes(accounts[7]) == accounts[0].address@ && (mint_bytes(accounts[6])
            != accounts[2].address@ || mint_bytes(accounts[7]) != accounts[3].address@
            || mint_bytes(accounts[8]) != accounts[3].address@) ==> take_outcome(accounts)
            == Err::<Seq<Action>, ProgramError>(ProgramError::InvalidAccountData),
{
}

/// The discriminators name the instructions in order, 0 to 5, and no byte above 5
/// names one.
pub proof fn law_discriminators_in_order(d: u8)
    ensures
        d == 0 <==> instruction_of(d) == Some(EscrowInstructions::Make),
        d == 1 <==> instruction_of(d) == Some(EscrowInstructions::Take),
        d == 2 <==> instruction_of(d) == Some(EscrowInstructions::Refund),
        d == 3 <==> instruction_of(d) == Some(EscrowInstructions::MakeV2),
        d == 4 <==> instruction_of(d) == Some(EscrowInstructions::TakeV2),
        d == 5 <==> instruction_of(d) == Some(EscrowInstructions::RefundV2),
        d > 5 <==> instruction_of(d) is None,
{
}

} // verus!
