use vstd::prelude::*;
use crate::error::{CodecError, ProcessError, RaffleProgramError};
use crate::instruction::{InstructionModel, spec_unpack};
use crate::pda::{PdaSeed, program_address};
use crate::processor::{
    spec_process, AccountModel, CommandModel, FEE_ACCOUNT_RESERVE, PendingModel, PlanModel, no_winner,
    spec_collect_fee, spec_draw_winner, spec_init_fee_account, spec_init_raffle,
    spec_publish_winner, spec_set_config, spec_update_fee,
};
use crate::execution::{apply_command, apply_commands, run_instruction, zeros};
use crate::state::{
    ConfigModel, Fee, InitPda, RaffleCounter, RaffleModel, lemma_counter_roundtrip,
    lemma_raffle_parse_exact, lemma_raffle_roundtrip,
};

verus! {

/// The account at `authority` signs and is listed in the configuration stored in
/// the program-owned account at `config`.
pub open spec fn is_authorized(a: Seq<AccountModel>, p: Seq<u8>, authority: int, config: int) -> bool {
    &&& a[config].owner == p
    &&& a[authority].is_signer
    &&& ConfigModel::from_slice(a[config].data) is Ok
    &&& ConfigModel::from_slice(a[config].data)->Ok_0.lists(a[authority].key)
}

/// Only an authority listed in the stored configuration, and signing, can replace
/// the configuration, create the fee account, change the fee or collect fees.
pub proof fn lemma_administration_needs_authority(
    a: Seq<AccountModel>,
    p: Seq<u8>,
    init: InitPda,
    fee: Fee,
)
    ensures
        spec_set_config(a, p) is Ok ==> is_authorized(a, p, 0, 5),
        spec_init_fee_account(a, p, init) is Ok ==> is_authorized(a, p, 0, 2),
        spec_update_fee(a, p, fee) is Ok ==> is_authorized(a, p, 0, 2),
        spec_collect_fee(a, p) is Ok ==> is_authorized(a, p, 0, 2),
{
}

/// Publishing succeeds only for the raffle's own initializer, signing, on a
/// program-owned raffle; the stored bytes change only in the winner's address,
/// which becomes the winner account's, and in the published flag, which becomes 1.
pub proof fn lemma_publish_changes_only_the_winner(a: Seq<AccountModel>, p: Seq<u8>)
    requires
        a.len() >= 3,
        a[2].key.len() == 32,
    ensures
        spec_publish_winner(a, p) is Ok ==> {
            let stored = RaffleModel::from_slice(a[1].data)->Ok_0;
            &&& a[0].is_signer
            &&& a[1].owner == p
            &&& RaffleModel::from_slice(a[1].data) is Ok
            &&& stored.initializer == a[0].key
            &&& spec_publish_winner(a, p)->Ok_0.commands.len() == 1
            &&& spec_publish_winner(a, p)->Ok_0.commands[0] matches CommandModel::WriteRaffle {
                account,
                raffle,
            } && account == 1 && raffle.layout() == a[1].data.subrange(0, 88) + a[2].key
                + a[1].data.subrange(120, 152) + seq![1u8]
        },
{
    if spec_publish_winner(a, p) is Ok {
        let s = a[1].data;
        lemma_raffle_parse_exact(s);
        let stored = RaffleModel::parse(s);
        let written = RaffleModel { winner_wallet: a[2].key, is_published: 1, ..stored };
        assert(stored.layout() =~= s);
        assert(written.layout() =~= s.subrange(0, 88) + a[2].key + s.subrange(120, 152) + seq![
            1u8,
        ]);
    }
}

/// Each raffle takes the next number: creating one needs the program-owned,
/// initialized counter and a fee other than zero, charges exactly that fee, puts
/// the raffle at the address derived from its number, and advances the counter by one.
pub proof fn lemma_raffle_takes_next_number(a: Seq<AccountModel>, p: Seq<u8>, init: RaffleModel)
    ensures
        spec_init_raffle(a, p, init) is Ok ==> {
            let plan = spec_init_raffle(a, p, init)->Ok_0;
            let stored = RaffleCounter::from_slice(a[2].data)->Ok_0;
            let fee = Fee::from_slice(a[5].data)->Ok_0;
            let number = (stored.number_of_raffles + 1) as u64;
            &&& a[0].is_signer
            &&& a[2].owner == p && a[5].owner == p
            &&& RaffleCounter::from_slice(a[2].data) is Ok && stored.initialized == 1
            &&& stored.number_of_raffles < u64::MAX
            &&& Fee::from_slice(a[5].data) is Ok && fee.fee > 0
            &&& plan.pending is Some
            &&& plan.pending->Some_0.counter == RaffleCounter {
                initialized: 1,
                number_of_raffles: number,
            }
            &&& plan.commands.len() == 3
            &&& plan.commands[0] matches CommandModel::CreateAccount { address, seed, .. }
                && seed == (PdaSeed::Raffle { number }) && program_address(seed.seeds(), p)
                is Some && address == program_address(seed.seeds(), p)->Some_0.0
            &&& plan.commands[1] matches CommandModel::Transfer { lamports, .. } && lamports
                == fee.fee
        },
{
}

/// The drawn winner's number is below the number of participants; the stored
/// raffle carries the counter's new number, is unpublished and has no winner's
/// address yet, and the counter is stored as advanced.
pub proof fn lemma_winner_in_range(pending: PendingModel, data: Seq<u8>)
    requires
        pending.init.number_of_participants != 0,
    ensures
        spec_draw_winner(pending, data) is Ok ==> {
            let commands = spec_draw_winner(pending, data)->Ok_0;
            &&& commands.len() == 2
            &&& commands[0] matches CommandModel::WriteRaffle { raffle, .. }
                && raffle.winner_no < raffle.number_of_participants
                && raffle.number_of_participants == pending.init.number_of_participants
                && raffle.raffle_no == pending.counter.number_of_raffles && raffle.is_published
                == 0 && raffle.winner_wallet == no_winner()
            &&& commands[1] == (CommandModel::WriteCounter {
                account: pending.counter_account,
                counter: pending.counter,
            })
        },
{
}

/// Collecting fees takes exactly what the fee account holds above the reserve,
/// from the fee account to the authority.
pub proof fn lemma_collect_leaves_reserve(a: Seq<AccountModel>, p: Seq<u8>)
    ensures
        spec_collect_fee(a, p) is Ok ==> a[1].lamports >= FEE_ACCOUNT_RESERVE && spec_collect_fee(
            a,
            p,
        )->Ok_0.commands == seq![
            CommandModel::MoveLamports {
                from: 1,
                to: 0,
                amount: (a[1].lamports - FEE_ACCOUNT_RESERVE) as u64,
            },
        ],
        spec_collect_fee(a, p) == Err::<PlanModel, ProcessError>(
            ProcessError::Program(RaffleProgramError::ArithmeticError),
        ) <==> (a.len() >= 3 && is_authorized(a, p, 0, 2) && a[1].lamports < FEE_ACCOUNT_RESERVE),
{
}

/// Empty instruction data, and an unknown tag, are refused as an invalid instruction.
pub proof fn lemma_unknown_instruction_refused(data: Seq<u8>)
    requires
        data.len() == 0 || data[0] > 7,
    ensures
        spec_unpack(data) == Err::<InstructionModel, ProcessError>(
            ProcessError::Program(RaffleProgramError::InvalidInstruction),
        ),
{
}

/// A plan only names accounts that the instruction was given, and the steps that
/// finish a raffle only name the accounts that the plan recorded.
pub proof fn lemma_plans_name_given_accounts(
    p: Seq<u8>,
    a: Seq<AccountModel>,
    data: Seq<u8>,
    random: Seq<u8>,
)
    ensures
        spec_process(p, a, data) is Ok ==> {
            let plan = spec_process(p, a, data)->Ok_0;
            &&& forall|i: int|
                0 <= i < plan.commands.len() ==> #[trigger] plan.commands[i].names_accounts_below(
                    a.len() as int,
                )
            &&& plan.pending matches Some(pending) ==> {
                &&& pending.raffle_account < a.len()
                &&& pending.counter_account < a.len()
                &&& spec_draw_winner(pending, random) is Ok ==> forall|i: int|
                    0 <= i < spec_draw_winner(pending, random)->Ok_0.len()
                        ==> #[trigger] spec_draw_winner(pending, random)->Ok_0[i].names_accounts_below(
                        a.len() as int,
                    )
            }
        },
{
}

/// Publishing the winner a second time with the same accounts succeeds and leaves
/// the accounts as the first publication left them.
pub proof fn lemma_publish_twice_changes_nothing(
    p: Seq<u8>,
    a: Seq<AccountModel>,
    data: Seq<u8>,
    random: Seq<u8>,
)
    requires
        data.len() > 0,
        data[0] == 1,
        a.len() >= 3,
        a[2].key.len() == 32,
        run_instruction(p, a, data, random) is Some,
    ensures
        run_instruction(p, run_instruction(p, a, data, random)->Some_0, data, random)
            == run_instruction(p, a, data, random),
{
    reveal_with_fuel(apply_commands, 2);
    let a1 = run_instruction(p, a, data, random)->Some_0;
    assert(spec_unpack(data) == Ok::<InstructionModel, ProcessError>(InstructionModel::PublishWinner));
    let s = a[1].data;
    assert(spec_publish_winner(a, p) is Ok);
    lemma_raffle_parse_exact(s);
    let stored = RaffleModel::parse(s);
    let written = RaffleModel { winner_wallet: a[2].key, is_published: 1, ..stored };
    lemma_raffle_roundtrip(written);
    assert(s.skip(153) =~= Seq::<u8>::empty());
    assert(a1[1].data =~= written.layout());
    assert(a1[0] == a[0] && a1[2] == a[2] && a1.len() == a.len());
    assert(RaffleModel::from_slice(a1[1].data) == Ok::<RaffleModel, CodecError>(written));
    assert(RaffleModel { winner_wallet: a1[2].key, is_published: 1, ..written } == written);
    assert(written.layout().skip(153) =~= Seq::<u8>::empty());
    let a2 = run_instruction(p, a1, data, random)->Some_0;
    assert(run_instruction(p, a1, data, random) is Some);
    assert(a2 =~= a1);
}

/// One creation of a raffle over a counter at `c` takes number `c + 1`: the raffle
/// account is created at the address derived from that number and holds, unpublished,
/// the raffle with that number, and the counter account then holds the counter at `c + 1`.
pub proof fn lemma_creation_advances_counter(
    p: Seq<u8>,
    a: Seq<AccountModel>,
    data: Seq<u8>,
    random: Seq<u8>,
    c: u64,
)
    requires
        data.len() > 0,
        data[0] == 0,
        a.len() >= 8,
        a[0].key.len() == 32,
        a[2].data == (RaffleCounter { initialized: 1, number_of_raffles: c }).layout(),
        run_instruction(p, a, data, random) is Some,
    ensures
        ({
            let a1 = run_instruction(p, a, data, random)->Some_0;
            let number = (c + 1) as u64;
            let seed = PdaSeed::Raffle { number };
            &&& c < u64::MAX
            &&& a1.len() == a.len()
            &&& a1[2].key == a[2].key && a1[2].owner == a[2].owner
            &&& a1[2].data == (RaffleCounter { initialized: 1, number_of_raffles: number }).layout()
            &&& RaffleModel::from_slice(a1[1].data) is Ok
            &&& RaffleModel::from_slice(a1[1].data)->Ok_0.raffle_no == number
            &&& RaffleModel::from_slice(a1[1].data)->Ok_0.is_published == 0
            &&& program_address(seed.seeds(), p) is Some
            &&& spec_process(p, a, data)->Ok_0.commands[0] matches CommandModel::CreateAccount {
                account,
                address,
                seed: s,
                ..
            } && account == 1 && s == seed && address == program_address(seed.seeds(), p)->Some_0.0
        }),
{
    reveal_with_fuel(apply_commands, 4);
    let counter = RaffleCounter { initialized: 1, number_of_raffles: c };
    lemma_counter_roundtrip(counter);
    let rest = data.drop_first();
    assert(spec_process(p, a, data) is Ok);
    assert(RaffleModel::from_slice(rest) is Ok);
    lemma_raffle_parse_exact(rest);
    let init = RaffleModel::parse(rest);
    assert(spec_unpack(data) == Ok::<InstructionModel, ProcessError>(
        InstructionModel::InitRaffle { init_raffle: init },
    ));
    let plan = spec_process(p, a, data)->Ok_0;
    assert(plan == spec_init_raffle(a, p, init)->Ok_0);
    let a0 = apply_commands(a, plan.commands)->Some_0;
    assert(a0.len() == a.len());
    assert(a0[1].data == zeros(153));
    assert(a0[2] == a[2]);
    let pending = plan.pending->Some_0;
    let finish = spec_draw_winner(pending, random)->Ok_0;
    let drawn = finish[0]->WriteRaffle_raffle;
    assert(drawn.wf());
    lemma_raffle_roundtrip(drawn);
    assert(zeros(153).skip(153) =~= Seq::<u8>::empty());
    assert(a[2].data.skip(9) =~= Seq::<u8>::empty());
    reveal_with_fuel(apply_commands, 3);
    assert(finish[1] == (CommandModel::WriteCounter { account: 2, counter: pending.counter }));
    let a_mid = apply_commands(a0, seq![finish[0]])->Some_0;
    assert(apply_command(a0, finish[0]) == Some(a_mid));
    assert(a_mid[2] == a[2]);
    assert(a_mid[1].data =~= drawn.layout());
    let a1 = run_instruction(p, a, data, random)->Some_0;
    assert(apply_command(a_mid, finish[1]) == Some(a1));
    assert(a1[1] == a_mid[1]);
    lemma_counter_roundtrip(pending.counter);
    assert(a1[2].data =~= pending.counter.layout() + a[2].data.skip(9));
    assert(a1[2].data =~= pending.counter.layout());
}

/// Two successive creations over the same counter account, starting at `c`, take
/// the numbers `c + 1` and `c + 2`, derive their accounts' addresses from those
/// numbers, and leave the counter at `c + 2`: no raffle number is used twice.
pub proof fn lemma_successive_raffles_take_successive_numbers(
    p: Seq<u8>,
    a: Seq<AccountModel>,
    d1: Seq<u8>,
    x1: Seq<u8>,
    b: Seq<AccountModel>,
    d2: Seq<u8>,
    x2: Seq<u8>,
    c: u64,
)
    requires
        d1.len() > 0 && d1[0] == 0,
        d2.len() > 0 && d2[0] == 0,
        a.len() >= 8 && a[0].key.len() == 32,
        b.len() >= 8 && b[0].key.len() == 32,
        a[2].data == (RaffleCounter { initialized: 1, number_of_raffles: c }).layout(),
        run_instruction(p, a, d1, x1) is Some,
        b[2] == run_instruction(p, a, d1, x1)->Some_0[2],
        run_instruction(p, b, d2, x2) is Some,
    ensures
        ({
            let a1 = run_instruction(p, a, d1, x1)->Some_0;
            let b1 = run_instruction(p, b, d2, x2)->Some_0;
            &&& c + 2 <= u64::MAX
            &&& RaffleModel::from_slice(a1[1].data) is Ok
            &&& RaffleModel::from_slice(a1[1].data)->Ok_0.raffle_no == c + 1
            &&& RaffleModel::from_slice(b1[1].data) is Ok
            &&& RaffleModel::from_slice(b1[1].data)->Ok_0.raffle_no == c + 2
            &&& b1[2].data == (RaffleCounter {
                initialized: 1,
                number_of_raffles: (c + 2) as u64,
            }).layout()
            &&& spec_process(p, a, d1)->Ok_0.commands[0] matches CommandModel::CreateAccount {
                seed,
                ..
            } && seed == (PdaSeed::Raffle { number: (c + 1) as u64 })
            &&& spec_process(p, b, d2)->Ok_0.commands[0] matches CommandModel::CreateAccount {
                seed,
                ..
            } && seed == (PdaSeed::Raffle { number: (c + 2) as u64 })
        }),
{
    lemma_creation_advances_counter(p, a, d1, x1, c);
    lemma_creation_advances_counter(p, b, d2, x2, (c + 1) as u64);
}

/// Creating the counter and then a raffle over it gives the raffle number 1, at the
/// address derived from 1, and leaves the counter at 1.
pub proof fn lemma_first_raffle_is_number_one(
    p: Seq<u8>,
    a0: Seq<AccountModel>,
    d0: Seq<u8>,
    x0: Seq<u8>,
    a: Seq<AccountModel>,
    d: Seq<u8>,
    x: Seq<u8>,
)
    requires
        d0.len() > 0 && d0[0] == 2,
        run_instruction(p, a0, d0, x0) is Some,
        d.len() > 0 && d[0] == 0,
        a.len() >= 8 && a[0].key.len() == 32,
        a[2] == run_instruction(p, a0, d0, x0)->Some_0[1],
        run_instruction(p, a, d, x) is Some,
    ensures
        ({
            let a1 = run_instruction(p, a, d, x)->Some_0;
            let seed = PdaSeed::Raffle { number: 1 };
            &&& RaffleModel::from_slice(a1[1].data) is Ok
            &&& RaffleModel::from_slice(a1[1].data)->Ok_0.raffle_no == 1
            &&& a1[2].data == (RaffleCounter { initialized: 1, number_of_raffles: 1 }).layout()
            &&& program_address(seed.seeds(), p) is Some
            &&& spec_process(p, a, d)->Ok_0.commands[0] matches CommandModel::CreateAccount {
                account,
                address,
                seed: s,
                ..
            } && account == 1 && s == seed && address == program_address(seed.seeds(), p)->Some_0.0
        }),
{
    reveal_with_fuel(apply_commands, 3);
    let zero = RaffleCounter { initialized: 1, number_of_raffles: 0 };
    lemma_counter_roundtrip(zero);
    assert(spec_unpack(d0) == Ok::<InstructionModel, ProcessError>(InstructionModel::InitCounter));
    let plan = spec_process(p, a0, d0)->Ok_0;
    let created = apply_command(a0, plan.commands[0])->Some_0;
    assert(created[1].data == zeros(9));
    let a0_after = run_instruction(p, a0, d0, x0)->Some_0;
    assert(apply_command(created, plan.commands[1]) == Some(a0_after));
    assert(zeros(9).skip(9) =~= Seq::<u8>::empty());
    assert(a0_after[1].data =~= zero.layout());
    lemma_creation_advances_counter(p, a, d, x, 0);
}

/// Collecting fees only moves lamports: the fee account keeps exactly the reserve,
/// the authority gains what the fee account lost, their sum is kept, and every
/// other account, and every account's key, owner and data, stay as they were.
pub proof fn lemma_collect_keeps_lamports(
    p: Seq<u8>,
    a: Seq<AccountModel>,
    data: Seq<u8>,
    random: Seq<u8>,
)
    requires
        data.len() > 0,
        data[0] == 7,
        run_instruction(p, a, data, random) is Some,
    ensures
        ({
            let a1 = run_instruction(p, a, data, random)->Some_0;
            &&& a1.len() == a.len()
            &&& a1[1].lamports == FEE_ACCOUNT_RESERVE
            &&& a1[0].lamports + a1[1].lamports == a[0].lamports + a[1].lamports
            &&& forall|i: int| 2 <= i < a.len() ==> #[trigger] a1[i] == a[i]
            &&& forall|i: int|
                0 <= i < a.len() ==> (#[trigger] a1[i]).data == a[i].data && a1[i].key == a[i].key
                    && a1[i].owner == a[i].owner && a1[i].is_signer == a[i].is_signer
        }),
{
    reveal_with_fuel(apply_commands, 2);
    assert(spec_unpack(data) == Ok::<InstructionModel, ProcessError>(InstructionModel::CollectFee));
    assert(spec_process(p, a, data) == spec_collect_fee(a, p));
}

/// The counter can be created only once: running its creation again over the
/// accounts that the first creation left fails, since the counter account then
/// holds data.
pub proof fn lemma_counter_created_once(
    p: Seq<u8>,
    a: Seq<AccountModel>,
    data: Seq<u8>,
    random: Seq<u8>,
)
    requires
        data.len() > 0,
        data[0] == 2,
        run_instruction(p, a, data, random) is Some,
    ensures
        run_instruction(p, run_instruction(p, a, data, random)->Some_0, data, random) is None,
{
    reveal_with_fuel(apply_commands, 3);
    let zero = RaffleCounter { initialized: 1, number_of_raffles: 0 };
    lemma_counter_roundtrip(zero);
    assert(spec_unpack(data) == Ok::<InstructionModel, ProcessError>(InstructionModel::InitCounter));
    let plan = spec_process(p, a, data)->Ok_0;
    let created = apply_command(a, plan.commands[0])->Some_0;
    let a1 = run_instruction(p, a, data, random)->Some_0;
    assert(apply_command(created, plan.commands[1]) == Some(a1));
    assert(a1[1].data.len() == 9);
    let again = spec_process(p, a1, data);
    if again is Ok {
        assert(again->Ok_0.commands[0] == plan.commands[0]);
        assert(apply_command(a1, plan.commands[0]) is None);
    }
}

} // verus!
