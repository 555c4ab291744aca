use vstd::prelude::*;
use crate::bytes::{le_bytes, le_value};
use crate::error::{CodecError, ProcessError, RaffleProgramError};
use crate::pda::{PdaSeed, program_address};
use crate::processor::{
    spec_process, AccountModel, CommandModel, PendingModel, PlanModel, spec_collect_fee, spec_config_plan,
    spec_counter_plan, spec_draw_winner, spec_fee_account_plan, spec_init_config,
    spec_init_fee_account, spec_init_raffle, spec_init_raffle_counter, spec_publish_winner,
    spec_raffle_plan, spec_set_config, spec_update_fee,
};
use crate::state::{ConfigModel, Fee, InitPda, RaffleCounter, RaffleModel};

verus! {

// What each instruction's decisions give, stated directly over their inputs.

/// The account at `authority` signs and is listed in the configuration stored in
/// the program-owned account at `config`.
pub open spec fn authority_signs(a: Seq<AccountModel>, p: Seq<u8>, authority: int, config: int) -> bool {
    &&& a[config].owner == p
    &&& a[authority].is_signer
    &&& ConfigModel::from_slice(a[config].data) is Ok
    &&& ({
        let c = ConfigModel::from_slice(a[config].data)->Ok_0;
        let k = a[authority].key;
        k == c.authority_1 || k == c.authority_2 || k == c.authority_3 || k == c.authority_4
    })
}

/// The configuration with the keys of four accounts as its authorities, in order.
pub open spec fn keys_config(a: Seq<AccountModel>, first: int) -> ConfigModel {
    ConfigModel {
        authority_1: a[first].key,
        authority_2: a[first + 1].key,
        authority_3: a[first + 2].key,
        authority_4: a[first + 3].key,
    }
}

/// Finishing a raffle creation with eight bytes of returned data stores the
/// raffle that the instruction described, numbered by the advanced counter,
/// initialized by the recorded initializer, unpublished and with no winner's
/// address, whose winner's number is the whole 64-bit little-endian number of the
/// data modulo the number of participants; then it stores the advanced counter.
/// Any other length of returned data is refused as a layout failure.
pub proof fn lemma_draw_winner_outcome(pending: PendingModel, data: Seq<u8>)
    ensures
        data.len() == 8 ==> spec_draw_winner(pending, data) == Ok::<Seq<CommandModel>, ProcessError>(
            seq![
                CommandModel::WriteRaffle {
                    account: pending.raffle_account,
                    raffle: RaffleModel {
                        participants_hash: pending.init.participants_hash,
                        initializer: pending.initializer,
                        raffle_no: pending.counter.number_of_raffles,
                        number_of_participants: pending.init.number_of_participants,
                        winner_no: (le_value(data) % pending.init.number_of_participants) as u64,
                        winner_wallet: Seq::new(32, |_i: int| 0u8),
                        raffle_name: pending.init.raffle_name,
                        is_published: 0,
                    },
                },
                CommandModel::WriteCounter {
                    account: pending.counter_account,
                    counter: pending.counter,
                },
            ],
        ),
        data.len() < 8 ==> spec_draw_winner(pending, data) == Err::<Seq<CommandModel>, ProcessError>(
            ProcessError::Codec(CodecError::UnexpectedLength),
        ),
        data.len() > 8 ==> spec_draw_winner(pending, data) == Err::<Seq<CommandModel>, ProcessError>(
            ProcessError::Codec(CodecError::NotAllBytesRead),
        ),
{
}

/// Once the address search has found the raffle's address, creating a raffle
/// creates the raffle account (position 1) there, paid by the initializer
/// (position 0), with the rent-exempt balance of 153 bytes, 153 bytes and the
/// program as owner, signed with the seeds of the advanced counter's number; pays
/// the stored fee from the initializer to the fee account (position 5) through the
/// system program (position 7); asks the randomness program (position 6) for a
/// number; and records the instruction's raffle unchanged, the initializer's and
/// the randomness program's addresses and the advanced counter. Without an address
/// it fails.
pub proof fn lemma_raffle_plan_outcome(
    a: Seq<AccountModel>,
    p: Seq<u8>,
    init: RaffleModel,
    fee: Fee,
    next: RaffleCounter,
    found: Option<(Seq<u8>, u8)>,
)
    ensures
        found is None ==> spec_raffle_plan(a, p, init, fee, next, found) == Err::<
            PlanModel,
            ProcessError,
        >(ProcessError::NoProgramAddress),
        found matches Some((address, bump)) ==> spec_raffle_plan(a, p, init, fee, next, found)
            == Ok::<PlanModel, ProcessError>(
            PlanModel {
                commands: seq![
                    CommandModel::CreateAccount {
                        payer: 0,
                        account: 1,
                        address,
                        seed: PdaSeed::Raffle { number: next.number_of_raffles },
                        bump,
                        lamports: ((128 + 153) * 3480 * 2) as u64,
                        space: 153,
                        owner: p,
                    },
                    CommandModel::Transfer { from: 0, to: 5, system_program: 7, lamports: fee.fee },
                    CommandModel::RequestRandomness {
                        initializer: 0,
                        entropy: 3,
                        rng_fee: 4,
                        system_program: 7,
                        rng_program: 6,
                    },
                ],
                pending: Some(
                    PendingModel {
                        raffle_account: 1,
                        counter_account: 2,
                        rng_program: a[6].key,
                        initializer: a[0].key,
                        init,
                        counter: next,
                    },
                ),
            },
        ),
{
}

/// Creating a raffle succeeds exactly when at least eight accounts are given, the
/// initializer signs, the fee account holds a fee other than zero and the counter
/// account an initialized counter below the largest number, both owned by the
/// program, and the search finds the address for the next number; it then decides
/// what `lemma_raffle_plan_outcome` describes, with the instruction's raffle, the
/// stored fee and the counter advanced by one.
pub proof fn lemma_init_raffle_outcome(a: Seq<AccountModel>, p: Seq<u8>, init: RaffleModel)
    ensures
        spec_init_raffle(a, p, init) is Ok <==> {
            &&& a.len() >= 8
            &&& a[0].is_signer
            &&& Fee::from_slice(a[5].data) is Ok && Fee::from_slice(a[5].data)->Ok_0.fee != 0
            &&& RaffleCounter::from_slice(a[2].data) is Ok
            &&& RaffleCounter::from_slice(a[2].data)->Ok_0.initialized == 1
            &&& RaffleCounter::from_slice(a[2].data)->Ok_0.number_of_raffles < u64::MAX
            &&& a[2].owner == p && a[5].owner == p
            &&& program_address(
                PdaSeed::Raffle {
                    number: (RaffleCounter::from_slice(a[2].data)->Ok_0.number_of_raffles
                        + 1) as u64,
                }.seeds(),
                p,
            ) is Some
        },
        spec_init_raffle(a, p, init) is Ok ==> {
            let stored = RaffleCounter::from_slice(a[2].data)->Ok_0;
            let next = RaffleCounter {
                initialized: 1,
                number_of_raffles: (stored.number_of_raffles + 1) as u64,
            };
            spec_init_raffle(a, p, init) == spec_raffle_plan(
                a,
                p,
                init,
                Fee::from_slice(a[5].data)->Ok_0,
                next,
                program_address(PdaSeed::Raffle { number: next.number_of_raffles }.seeds(), p),
            )
        },
        spec_init_raffle(a, p, init) is Ok ==> (spec_init_raffle(a, p, init)->Ok_0.pending
            matches Some(pending) && pending.init == init && pending.initializer == a[0].key
            && pending.rng_program == a[6].key),
{
}

/// Once the address search has found the configuration's address: where the
/// program does not own the configuration account (position 4) yet, it is created
/// there, paid by the first authority, with the rent-exempt balance of 128 bytes,
/// and then, if the first authority signs, the keys of the first four accounts
/// are stored as the authorities in order, else the instruction fails; where the
/// program owns it already, the same keys are stored if the first authority
/// signs, and it fails at once otherwise. Without an address it fails.
pub proof fn lemma_config_plan_outcome(
    a: Seq<AccountModel>,
    p: Seq<u8>,
    found: Option<(Seq<u8>, u8)>,
)
    requires
        a.len() >= 5,
    ensures
        found is None ==> spec_config_plan(a, p, found) == Err::<PlanModel, ProcessError>(
            ProcessError::NoProgramAddress,
        ),
        found matches Some((address, bump)) ==> {
            let create = CommandModel::CreateAccount {
                payer: 0,
                account: 4,
                address,
                seed: PdaSeed::Config,
                bump,
                lamports: ((128 + 128) * 3480 * 2) as u64,
                space: 128,
                owner: p,
            };
            let write = CommandModel::WriteConfig { account: 4, config: keys_config(a, 0) };
            let fail = CommandModel::Fail {
                error: ProcessError::Program(RaffleProgramError::NotSignerAuth),
            };
            &&& (a[4].owner != p && a[0].is_signer) ==> spec_config_plan(a, p, found) == Ok::<
                PlanModel,
                ProcessError,
            >(PlanModel { commands: seq![create, write], pending: None })
            &&& (a[4].owner != p && !a[0].is_signer) ==> spec_config_plan(a, p, found) == Ok::<
                PlanModel,
                ProcessError,
            >(PlanModel { commands: seq![create, fail], pending: None })
            &&& (a[4].owner == p && a[0].is_signer) ==> spec_config_plan(a, p, found) == Ok::<
                PlanModel,
                ProcessError,
            >(PlanModel { commands: seq![write], pending: None })
            &&& (a[4].owner == p && !a[0].is_signer) ==> spec_config_plan(a, p, found) == Err::<
                PlanModel,
                ProcessError,
            >(ProcessError::Program(RaffleProgramError::NotSignerAuth))
        },
{
}

/// Initializing the configuration searches the address from the seed "config" and
/// then decides what `lemma_config_plan_outcome` describes; with fewer than five
/// accounts it fails.
pub proof fn lemma_init_config_outcome(a: Seq<AccountModel>, p: Seq<u8>)
    ensures
        a.len() < 5 ==> spec_init_config(a, p) == Err::<PlanModel, ProcessError>(
            ProcessError::NotEnoughAccountKeys,
        ),
        a.len() >= 5 ==> spec_init_config(a, p) == spec_config_plan(
            a,
            p,
            program_address(PdaSeed::Config.seeds(), p),
        ),
{
}

/// Once the address search has found the counter's address, creating the counter
/// creates the counter account (position 1) there, paid by position 0, with the
/// rent-exempt balance of 9 bytes, and stores an initialized counter at zero.
pub proof fn lemma_counter_plan_outcome(p: Seq<u8>, found: Option<(Seq<u8>, u8)>)
    ensures
        found is None ==> spec_counter_plan(p, found) == Err::<PlanModel, ProcessError>(
            ProcessError::NoProgramAddress,
        ),
        found matches Some((address, bump)) ==> spec_counter_plan(p, found) == Ok::<
            PlanModel,
            ProcessError,
        >(
            PlanModel {
                commands: seq![
                    CommandModel::CreateAccount {
                        payer: 0,
                        account: 1,
                        address,
                        seed: PdaSeed::Counter,
                        bump,
                        lamports: ((128 + 9) * 3480 * 2) as u64,
                        space: 9,
                        owner: p,
                    },
                    CommandModel::WriteCounter {
                        account: 1,
                        counter: RaffleCounter { initialized: 1, number_of_raffles: 0 },
                    },
                ],
                pending: None,
            },
        ),
{
}

/// Creating the counter needs two accounts and the address for the seed "counter".
pub proof fn lemma_init_counter_outcome(a: Seq<AccountModel>, p: Seq<u8>)
    ensures
        a.len() < 2 ==> spec_init_raffle_counter(a, p) == Err::<PlanModel, ProcessError>(
            ProcessError::NotEnoughAccountKeys,
        ),
        a.len() >= 2 ==> spec_init_raffle_counter(a, p) == spec_counter_plan(
            p,
            program_address(PdaSeed::Counter.seeds(), p),
        ),
{
}

/// Once the address search has found the fee account's address, creating it
/// creates the fee account (position 1) there with the lamports and 8 bytes that
/// the instruction asks for, paid by the authority, and stores a fee of 250000.
pub proof fn lemma_fee_account_plan_outcome(
    p: Seq<u8>,
    data: InitPda,
    found: Option<(Seq<u8>, u8)>,
)
    ensures
        found is None ==> spec_fee_account_plan(p, data, found) == Err::<PlanModel, ProcessError>(
            ProcessError::NoProgramAddress,
        ),
        found matches Some((address, bump)) ==> spec_fee_account_plan(p, data, found) == Ok::<
            PlanModel,
            ProcessError,
        >(
            PlanModel {
                commands: seq![
                    CommandModel::CreateAccount {
                        payer: 0,
                        account: 1,
                        address,
                        seed: PdaSeed::Fee,
                        bump,
                        lamports: data.lamports,
                        space: 8,
                        owner: p,
                    },
                    CommandModel::WriteFee { account: 1, fee: Fee { fee: 250000 } },
                ],
                pending: None,
            },
        ),
{
}

/// Creating the fee account succeeds exactly when at least three accounts are
/// given, the authority (position 0) signs and is listed in the configuration of
/// the program-owned account at position 2, and the address for the seed "fee" is
/// found; it then decides what `lemma_fee_account_plan_outcome` describes.
pub proof fn lemma_init_fee_account_outcome(a: Seq<AccountModel>, p: Seq<u8>, data: InitPda)
    ensures
        spec_init_fee_account(a, p, data) is Ok <==> a.len() >= 3 && authority_signs(a, p, 0, 2)
            && program_address(PdaSeed::Fee.seeds(), p) is Some,
        (a.len() >= 3 && authority_signs(a, p, 0, 2)) ==> spec_init_fee_account(a, p, data)
            == spec_fee_account_plan(p, data, program_address(PdaSeed::Fee.seeds(), p)),
{
}

/// Changing the fee succeeds exactly when at least three accounts are given and
/// the authority (position 0) signs and is listed in the configuration of the
/// program-owned account at position 2; it then only stores, in the fee account
/// (position 1), the fee that the instruction carries.
pub proof fn lemma_update_fee_outcome(a: Seq<AccountModel>, p: Seq<u8>, data: Fee)
    ensures
        spec_update_fee(a, p, data) is Ok <==> a.len() >= 3 && authority_signs(a, p, 0, 2),
        spec_update_fee(a, p, data) is Ok ==> spec_update_fee(a, p, data) == Ok::<
            PlanModel,
            ProcessError,
        >(PlanModel { commands: seq![CommandModel::WriteFee { account: 1, fee: data }], pending: None }),
{
}

/// Replacing the configuration succeeds exactly when at least six accounts are
/// given and the authority (position 0) signs and is listed in the configuration
/// of the program-owned account at position 5; it then only stores there the keys
/// of the accounts at positions 1 to 4 as the authorities, in order, whichever
/// keys they are.
pub proof fn lemma_set_config_outcome(a: Seq<AccountModel>, p: Seq<u8>)
    ensures
        spec_set_config(a, p) is Ok <==> a.len() >= 6 && authority_signs(a, p, 0, 5),
        spec_set_config(a, p) is Ok ==> spec_set_config(a, p) == Ok::<PlanModel, ProcessError>(
            PlanModel {
                commands: seq![CommandModel::WriteConfig { account: 5, config: keys_config(a, 1) }],
                pending: None,
            },
        ),
{
}

/// Collecting fees succeeds exactly when at least three accounts are given, the
/// authority signs and is listed, and the fee account holds at least 2500000
/// lamports; it then moves everything above 2500000 to the authority.
pub proof fn lemma_collect_fee_outcome(a: Seq<AccountModel>, p: Seq<u8>)
    ensures
        spec_collect_fee(a, p) is Ok <==> a.len() >= 3 && authority_signs(a, p, 0, 2)
            && a[1].lamports >= 2500000,
        spec_collect_fee(a, p) is Ok ==> spec_collect_fee(a, p) == Ok::<PlanModel, ProcessError>(
            PlanModel {
                commands: seq![
                    CommandModel::MoveLamports {
                        from: 1,
                        to: 0,
                        amount: (a[1].lamports - 2500000) as u64,
                    },
                ],
                pending: None,
            },
        ),
{
}

/// Publishing the winner succeeds exactly when at least three accounts are given,
/// the program owns the raffle account (position 1), it holds a raffle whose
/// initializer is the signing account at position 0; it then stores that raffle
/// with the winner account's (position 2) address and marked published, all
/// other fields as they were.
pub proof fn lemma_publish_winner_outcome(a: Seq<AccountModel>, p: Seq<u8>)
    ensures
        spec_publish_winner(a, p) is Ok <==> {
            &&& a.len() >= 3
            &&& a[1].owner == p
            &&& RaffleModel::from_slice(a[1].data) is Ok
            &&& RaffleModel::from_slice(a[1].data)->Ok_0.initializer == a[0].key
            &&& a[0].is_signer
        },
        spec_publish_winner(a, p) is Ok ==> {
            let r = RaffleModel::from_slice(a[1].data)->Ok_0;
            spec_publish_winner(a, p) == Ok::<PlanModel, ProcessError>(
                PlanModel {
                    commands: seq![
                        CommandModel::WriteRaffle {
                            account: 1,
                            raffle: RaffleModel {
                                participants_hash: r.participants_hash,
                                initializer: r.initializer,
                                raffle_no: r.raffle_no,
                                number_of_participants: r.number_of_participants,
                                winner_no: r.winner_no,
                                winner_wallet: a[2].key,
                                raffle_name: r.raffle_name,
                                is_published: 1,
                            },
                        },
                    ],
                    pending: None,
                },
            )
        },
{
}

/// Instruction data is dispatched by its first byte: 0 creates a raffle described
/// by the 153 bytes that follow, 1 publishes the winner, 2 creates the counter, 3
/// creates the fee account with the bump byte, the little-endian lamports and the
/// last byte that follow, 4 initializes the configuration, 5 replaces it, 6
/// changes the fee to the little-endian number that follows, and 7 collects fees.
pub proof fn lemma_process_dispatch(p: Seq<u8>, a: Seq<AccountModel>, rest: Seq<u8>)
    ensures
        rest.len() == 153 ==> spec_process(p, a, seq![0u8] + rest) == spec_init_raffle(
            a,
            p,
            RaffleModel {
                participants_hash: rest.subrange(0, 32),
                initializer: rest.subrange(32, 64),
                raffle_no: le_value(rest.subrange(64, 72)),
                number_of_participants: le_value(rest.subrange(72, 80)),
                winner_no: le_value(rest.subrange(80, 88)),
                winner_wallet: rest.subrange(88, 120),
                raffle_name: rest.subrange(120, 152),
                is_published: rest[152],
            },
        ),
        spec_process(p, a, seq![1u8] + rest) == spec_publish_winner(a, p),
        spec_process(p, a, seq![2u8] + rest) == spec_init_raffle_counter(a, p),
        rest.len() == 10 ==> spec_process(p, a, seq![3u8] + rest) == spec_init_fee_account(
            a,
            p,
            InitPda { bump: rest[0], lamports: le_value(rest.subrange(1, 9)), no: rest[9] },
        ),
        spec_process(p, a, seq![4u8] + rest) == spec_init_config(a, p),
        spec_process(p, a, seq![5u8] + rest) == spec_set_config(a, p),
        rest.len() == 8 ==> spec_process(p, a, seq![6u8] + rest) == spec_update_fee(
            a,
            p,
            Fee { fee: le_value(rest) },
        ),
        spec_process(p, a, seq![7u8] + rest) == spec_collect_fee(a, p),
{
    assert((seq![0u8] + rest).drop_first() =~= rest);
    assert((seq![1u8] + rest).drop_first() =~= rest);
    assert((seq![2u8] + rest).drop_first() =~= rest);
    assert((seq![3u8] + rest).drop_first() =~= rest);
    assert((seq![4u8] + rest).drop_first() =~= rest);
    assert((seq![5u8] + rest).drop_first() =~= rest);
    assert((seq![6u8] + rest).drop_first() =~= rest);
    assert((seq![7u8] + rest).drop_first() =~= rest);
}

/// A stored raffle is, in order: the participants' hash, the initializer's
/// address, the little-endian raffle number, number of participants and winner's
/// number, the winner's address, the name, and the published flag; reading 153
/// bytes takes each field from those positions.
pub proof fn lemma_raffle_field_positions(m: RaffleModel, s: Seq<u8>)
    requires
        m.wf(),
    ensures
        m.layout() == m.participants_hash + m.initializer + le_bytes(m.raffle_no) + le_bytes(
            m.number_of_participants,
        ) + le_bytes(m.winner_no) + m.winner_wallet + m.raffle_name + seq![m.is_published],
        s.len() == 153 ==> RaffleModel::from_slice(s) == Ok::<RaffleModel, CodecError>(
            RaffleModel {
                participants_hash: s.subrange(0, 32),
                initializer: s.subrange(32, 64),
                raffle_no: le_value(s.subrange(64, 72)),
                number_of_participants: le_value(s.subrange(72, 80)),
                winner_no: le_value(s.subrange(80, 88)),
                winner_wallet: s.subrange(88, 120),
                raffle_name: s.subrange(120, 152),
                is_published: s[152],
            },
        ),
{
}

/// A stored configuration is its four authorities' addresses in order, and
/// reading 128 bytes takes them from those positions; a stored counter is its
/// flag byte and its little-endian count; a stored fee is its little-endian amount.
pub proof fn lemma_record_field_positions(c: ConfigModel, r: RaffleCounter, f: Fee, s: Seq<u8>)
    ensures
        c.layout() == c.authority_1 + c.authority_2 + c.authority_3 + c.authority_4,
        s.len() == 128 ==> ConfigModel::from_slice(s) == Ok::<ConfigModel, CodecError>(
            ConfigModel {
                authority_1: s.subrange(0, 32),
                authority_2: s.subrange(32, 64),
                authority_3: s.subrange(64, 96),
                authority_4: s.subrange(96, 128),
            },
        ),
        r.layout() == seq![r.initialized] + le_bytes(r.number_of_raffles),
        s.len() == 9 ==> RaffleCounter::from_slice(s) == Ok::<RaffleCounter, CodecError>(
            RaffleCounter { initialized: s[0], number_of_raffles: le_value(s.subrange(1, 9)) },
        ),
        f.layout() == le_bytes(f.fee),
        s.len() == 8 ==> Fee::from_slice(s) == Ok::<Fee, CodecError>(Fee { fee: le_value(s) }),
{
}

/// A configuration lists exactly its four authorities.
pub proof fn lemma_lists_exactly_the_authorities(c: ConfigModel, key: Seq<u8>)
    ensures
        c.lists(key) <==> (key == c.authority_1 || key == c.authority_2 || key == c.authority_3
            || key == c.authority_4),
{
}

/// The error codes are the positions of the errors in their declaration: invalid
/// instruction 0, arithmetic 1, invalid counter 2, invalid authority 3, invalid
/// raffle 4, initializer not signer 5, invalid configuration 6, authority not
/// signer 7, invalid initializer 8, invalid fee 9.
pub proof fn lemma_error_code_values()
    ensures
        crate::error::spec_error_code(RaffleProgramError::InvalidInstruction) == 0,
        crate::error::spec_error_code(RaffleProgramError::ArithmeticError) == 1,
        crate::error::spec_error_code(RaffleProgramError::InvalidCounter) == 2,
        crate::error::spec_error_code(RaffleProgramError::InvalidAuth) == 3,
        crate::error::spec_error_code(RaffleProgramError::InvalidRaffle) == 4,
        crate::error::spec_error_code(RaffleProgramError::InitializerNotSigner) == 5,
        crate::error::spec_error_code(RaffleProgramError::InvalidConfig) == 6,
        crate::error::spec_error_code(RaffleProgramError::NotSignerAuth) == 7,
        crate::error::spec_error_code(RaffleProgramError::InvalidInitializer) == 8,
        crate::error::spec_error_code(RaffleProgramError::InvalidFee) == 9,
{
}

} // verus!
