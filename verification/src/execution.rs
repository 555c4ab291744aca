use vstd::prelude::*;
use crate::pda::MAX_DATA_LEN;
use crate::processor::{AccountModel, CommandModel, spec_draw_winner, spec_process};

verus! {

// A model of carrying out a plan on the accounts of an instruction. The program's
// own steps (writes of its records, direct lamport moves, failing) are modelled
// as `app/` carries them out. The system program's steps are modelled as its
// documented behaviour: a funding account must sign, hold no data and be owned by
// the system program; an account can only be created where it holds no lamports
// and no data, is owned by the system program, and has the address that the call
// names; creating it moves the given lamports to it and gives it `space` zero
// bytes owned by `owner`; a transfer moves lamports. The randomness program is
// taken to change none of the accounts that the raffle program reads or writes.

/// The address of the system program: 32 zero bytes.
pub open spec fn system_program_id() -> Seq<u8> {
    Seq::new(32, |_i: int| 0u8)
}

/// The system program can take lamports from this account: it signs, holds no
/// data and is owned by the system program.
pub open spec fn can_fund(account: AccountModel) -> bool {
    &&& account.is_signer
    &&& account.data.len() == 0
    &&& account.owner == system_program_id()
}

/// The system program can create an account here: the account has the given
/// address, holds no lamports and no data, and is owned by the system program.
pub open spec fn can_create(account: AccountModel, address: Seq<u8>) -> bool {
    &&& account.key == address
    &&& account.lamports == 0
    &&& account.data.len() == 0
    &&& account.owner == system_program_id()
}

/// `n` zero bytes.
pub open spec fn zeros(n: nat) -> Seq<u8> {
    Seq::new(n, |_i: int| 0u8)
}

/// The account with `bytes` written at the start of its data, if its data is long
/// enough to hold them.
pub open spec fn stored(account: AccountModel, bytes: Seq<u8>) -> Option<AccountModel> {
    if account.data.len() < bytes.len() {
        None
    } else {
        Some(AccountModel { data: bytes + account.data.skip(bytes.len() as int), ..account })
    }
}

/// The accounts with `bytes` written into the data of the one at `i`.
pub open spec fn store_at(a: Seq<AccountModel>, i: int, bytes: Seq<u8>) -> Option<Seq<AccountModel>> {
    match stored(a[i], bytes) {
        None => None,
        Some(account) => Some(a.update(i, account)),
    }
}

/// The accounts after `amount` lamports moved from the one at `from` to the one
/// at `to`, if `from` holds them and `to` can take them.
pub open spec fn move_lamports(a: Seq<AccountModel>, from: int, to: int, amount: u64) -> Option<
    Seq<AccountModel>,
> {
    if a[from].lamports < amount {
        None
    } else {
        let a1 = a.update(from, AccountModel { lamports: (a[from].lamports - amount) as u64, ..a[from] });
        if a1[to].lamports + amount > u64::MAX {
            None
        } else {
            Some(a1.update(to, AccountModel { lamports: (a1[to].lamports + amount) as u64, ..a1[to] }))
        }
    }
}

/// The accounts after one step, if it succeeds.
pub open spec fn apply_command(a: Seq<AccountModel>, c: CommandModel) -> Option<Seq<AccountModel>> {
    match c {
        CommandModel::CreateAccount { payer, account, address, lamports, space, owner, .. } => {
            if payer == account || !can_fund(a[payer as int]) || !can_create(
                a[account as int],
                address,
            ) || space > MAX_DATA_LEN {
                None
            } else {
                match move_lamports(a, payer as int, account as int, lamports) {
                    None => None,
                    Some(a1) => Some(
                        a1.update(
                            account as int,
                            AccountModel { data: zeros(space as nat), owner, ..a1[account as int] },
                        ),
                    ),
                }
            }
        },
        CommandModel::Transfer { from, to, lamports, .. } => if can_fund(a[from as int]) {
            move_lamports(a, from as int, to as int, lamports)
        } else {
            None
        },
        CommandModel::RequestRandomness { .. } => Some(a),
        CommandModel::WriteRaffle { account, raffle } => store_at(a, account as int, raffle.layout()),
        CommandModel::WriteCounter { account, counter } => store_at(
            a,
            account as int,
            counter.layout(),
        ),
        CommandModel::WriteConfig { account, config } => store_at(a, account as int, config.layout()),
        CommandModel::WriteFee { account, fee } => store_at(a, account as int, fee.layout()),
        CommandModel::MoveLamports { from, to, amount } => move_lamports(
            a,
            from as int,
            to as int,
            amount,
        ),
        CommandModel::Fail { .. } => None,
    }
}

/// The accounts after the steps, in order, if all succeed.
pub open spec fn apply_commands(a: Seq<AccountModel>, commands: Seq<CommandModel>) -> Option<
    Seq<AccountModel>,
>
    decreases commands.len(),
{
    if commands.len() == 0 {
        Some(a)
    } else {
        match apply_command(a, commands[0]) {
            None => None,
            Some(a1) => apply_commands(a1, commands.drop_first()),
        }
    }
}

/// The accounts after an instruction with data `data`, if it succeeds; a raffle
/// creation is finished with `random`, the data that the randomness program hands back.
pub open spec fn run_instruction(
    p: Seq<u8>,
    a: Seq<AccountModel>,
    data: Seq<u8>,
    random: Seq<u8>,
) -> Option<Seq<AccountModel>> {
    match spec_process(p, a, data) {
        Err(_) => None,
        Ok(plan) => match apply_commands(a, plan.commands) {
            None => None,
            Some(a1) => match plan.pending {
                None => Some(a1),
                Some(pending) => match spec_draw_winner(pending, random) {
                    Err(_) => None,
                    Ok(finish) => apply_commands(a1, finish),
                },
            },
        },
    }
}

} // verus!
