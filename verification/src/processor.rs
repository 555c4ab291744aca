use vstd::prelude::*;
use crate::bytes::same_key;
use crate::error::{ProcessError, RaffleProgramError};
use crate::instruction::{InstructionModel, RaffleProgramInstruction, spec_unpack};
use crate::pda::{
    PdaSeed, find_program_address, minimum_balance, program_address, rent_exempt_balance,
};
use crate::state::{
    COUNTER_SIZE, CONFIG_SIZE, Config, ConfigModel, FEE_SIZE, Fee, InitPda, RAFFLE_SIZE, Raffle,
    RaffleCounter, RaffleModel, RandomNumber,
};

verus! {

/// Fee, in lamports, that a newly created fee account holds as the raffle fee.
pub const INITIAL_FEE: u64 = 250000;

/// Lamports that collecting fees leaves in the fee account.
pub const FEE_ACCOUNT_RESERVE: u64 = 2500000;

/// Instruction data of the call that asks the randomness program for a number.
pub const RANDOMNESS_REQUEST: u8 = 100;

/// What the program reads of one account that the runtime passes to it.
pub struct AccountInput {
    pub key: [u8; 32],
    pub owner: [u8; 32],
    pub is_signer: bool,
    pub lamports: u64,
    pub data: Vec<u8>,
}

/// An account with its addresses and data seen as sequences.
pub struct AccountModel {
    pub key: Seq<u8>,
    pub owner: Seq<u8>,
    pub is_signer: bool,
    pub lamports: u64,
    pub data: Seq<u8>,
}

impl DeepView for AccountInput {
    type V = AccountModel;

    open spec fn deep_view(&self) -> AccountModel {
        AccountModel {
            key: self.key@,
            owner: self.owner@,
            is_signer: self.is_signer,
            lamports: self.lamports,
            data: self.data@,
        }
    }
}

/// One step that the program asks of the runtime; accounts are named by their
/// position in the list that the instruction was given.
#[derive(Debug, Clone, Copy, PartialEq, Eq)]
pub enum Command {
    /// Create `account` at the program-derived `address` (signed with `seed` and
    /// `bump`), paid by `payer`, with `space` bytes owned by `owner`.
    CreateAccount {
        payer: usize,
        account: usize,
        address: [u8; 32],
        seed: PdaSeed,
        bump: u8,
        lamports: u64,
        space: u64,
        owner: [u8; 32],
    },
    /// Move `lamports` from `from` to `to` through the system program.
    Transfer { from: usize, to: usize, system_program: usize, lamports: u64 },
    /// Ask the randomness program for a number, which it hands back as return data.
    RequestRandomness {
        initializer: usize,
        entropy: usize,
        rng_fee: usize,
        system_program: usize,
        rng_program: usize,
    },
    /// Store a raffle in the data of `account`.
    WriteRaffle { account: usize, raffle: Raffle },
    /// Store the counter in the data of `account`.
    WriteCounter { account: usize, counter: RaffleCounter },
    /// Store the configuration in the data of `account`.
    WriteConfig { account: usize, config: Config },
    /// Store the fee in the data of `account`.
    WriteFee { account: usize, fee: Fee },
    /// Take `amount` lamports directly from `from` and give them to `to`.
    MoveLamports { from: usize, to: usize, amount: u64 },
    /// Stop with the given error.
    Fail { error: ProcessError },
}

/// A command with its addresses and records seen through their models.
pub enum CommandModel {
    CreateAccount {
        payer: usize,
        account: usize,
        address: Seq<u8>,
        seed: PdaSeed,
        bump: u8,
        lamports: u64,
        space: u64,
        owner: Seq<u8>,
    },
    Transfer { from: usize, to: usize, system_program: usize, lamports: u64 },
    RequestRandomness {
        initializer: usize,
        entropy: usize,
        rng_fee: usize,
        system_program: usize,
        rng_program: usize,
    },
    WriteRaffle { account: usize, raffle: RaffleModel },
    WriteCounter { account: usize, counter: RaffleCounter },
    WriteConfig { account: usize, config: ConfigModel },
    WriteFee { account: usize, fee: Fee },
    MoveLamports { from: usize, to: usize, amount: u64 },
    Fail { error: ProcessError },
}

impl CommandModel {
    /// Every account that the command names is among the first `n`.
    pub open spec fn names_accounts_below(self, n: int) -> bool {
        match self {
            CommandModel::CreateAccount { payer, account, .. } => payer < n && account < n,
            CommandModel::Transfer { from, to, system_program, .. } => from < n && to < n
                && system_program < n,
            CommandModel::RequestRandomness {
                initializer,
                entropy,
                rng_fee,
                system_program,
                rng_program,
            } => initializer < n && entropy < n && rng_fee < n && system_program < n && rng_program
                < n,
            CommandModel::WriteRaffle { account, .. } => account < n,
            CommandModel::WriteCounter { account, .. } => account < n,
            CommandModel::WriteConfig { account, .. } => account < n,
            CommandModel::WriteFee { account, .. } => account < n,
            CommandModel::MoveLamports { from, to, .. } => from < n && to < n,
            CommandModel::Fail { .. } => true,
        }
    }
}

impl DeepView for Command {
    type V = CommandModel;

    open spec fn deep_view(&self) -> CommandModel {
        match *self {
            Command::CreateAccount {
                payer,
                account,
                address,
                seed,
                bump,
                lamports,
                space,
                owner,
            } => CommandModel::CreateAccount {
                payer,
                account,
                address: address@,
                seed,
                bump,
                lamports,
                space,
                owner: owner@,
            },
            Command::Transfer { from, to, system_program, lamports } => CommandModel::Transfer {
                from,
                to,
                system_program,
                lamports,
            },
            Command::RequestRandomness {
                initializer,
                entropy,
                rng_fee,
                system_program,
                rng_program,
            } => CommandModel::RequestRandomness {
                initializer,
                entropy,
                rng_fee,
                system_program,
                rng_program,
            },
            Command::WriteRaffle { account, raffle } => CommandModel::WriteRaffle {
                account,
                raffle: raffle@,
            },
            Command::WriteCounter { account, counter } => CommandModel::WriteCounter {
                account,
                counter,
            },
            Command::WriteConfig { account, config } => CommandModel::WriteConfig {
                account,
                config: config@,
            },
            Command::WriteFee { account, fee } => CommandModel::WriteFee { account, fee },
            Command::MoveLamports { from, to, amount } => CommandModel::MoveLamports {
                from,
                to,
                amount,
            },
            Command::Fail { error } => CommandModel::Fail { error },
        }
    }
}

/// What creating a raffle still needs once the randomness program has answered.
#[derive(Debug, Clone, Copy, PartialEq, Eq)]
pub struct PendingRaffle {
    pub raffle_account: usize,
    pub counter_account: usize,
    pub rng_program: [u8; 32],
    pub initializer: [u8; 32],
    pub init: Raffle,
    pub counter: RaffleCounter,
}

/// A pending raffle with its addresses and records seen through their models.
pub struct PendingModel {
    pub raffle_account: usize,
    pub counter_account: usize,
    pub rng_program: Seq<u8>,
    pub initializer: Seq<u8>,
    pub init: RaffleModel,
    pub counter: RaffleCounter,
}

impl View for PendingRaffle {
    type V = PendingModel;

    open spec fn view(&self) -> PendingModel {
        PendingModel {
            raffle_account: self.raffle_account,
            counter_account: self.counter_account,
            rng_program: self.rng_program@,
            initializer: self.initializer@,
            init: self.init@,
            counter: self.counter,
        }
    }
}

/// The commands that an instruction asks of the runtime, in order, and for the
/// creation of a raffle what remains to do once they have run.
pub struct Plan {
    pub commands: Vec<Command>,
    pub pending: Option<PendingRaffle>,
}

/// A plan seen through the models of its parts.
pub struct PlanModel {
    pub commands: Seq<CommandModel>,
    pub pending: Option<PendingModel>,
}

impl View for Plan {
    type V = PlanModel;

    open spec fn view(&self) -> PlanModel {
        PlanModel {
            commands: self.commands.deep_view(),
            pending: match self.pending {
                Some(p) => Some(p@),
                None => None,
            },
        }
    }
}

/// A planning result seen through the plan's model.
pub open spec fn plan_result(r: Result<Plan, ProcessError>) -> Result<PlanModel, ProcessError> {
    match r {
        Ok(p) => Ok(p@),
        Err(e) => Err(e),
    }
}

/// A plan of commands alone.
pub open spec fn commands_only(commands: Seq<CommandModel>) -> Result<PlanModel, ProcessError> {
    Ok(PlanModel { commands, pending: None })
}

/// A failure with one of the program's own errors.
pub open spec fn program_error<T>(e: RaffleProgramError) -> Result<T, ProcessError> {
    Err(ProcessError::Program(e))
}

/// The raffle program's entry point and the handler of each instruction.
pub struct Processor;

/// What publishing the winner decides: the stored raffle, whose initializer must
/// sign, gets the winner's address and is marked published.
pub open spec fn spec_publish_winner(a: Seq<AccountModel>, p: Seq<u8>) -> Result<
    PlanModel,
    ProcessError,
> {
    if a.len() < 3 {
        Err(ProcessError::NotEnoughAccountKeys)
    } else {
        match RaffleModel::from_slice(a[1].data) {
            Err(e) => Err(ProcessError::Codec(e)),
            Ok(raffle) => if a[1].owner != p {
                program_error(RaffleProgramError::InvalidRaffle)
            } else if raffle.initializer != a[0].key {
                program_error(RaffleProgramError::InvalidInitializer)
            } else if !a[0].is_signer {
                program_error(RaffleProgramError::InitializerNotSigner)
            } else {
                commands_only(
                    seq![
                        CommandModel::WriteRaffle {
                            account: 1,
                            raffle: RaffleModel {
                                winner_wallet: a[2].key,
                                is_published: 1,
                                ..raffle
                            },
                        },
                    ],
                )
            },
        }
    }
}

/// The seeds' search result seen through the address's view.
pub open spec fn found_view(found: Option<([u8; 32], u8)>) -> Option<(Seq<u8>, u8)> {
    match found {
        Some((address, bump)) => Some((address@, bump)),
        None => None,
    }
}

/// What creating the raffle counter decides once the address search for the
/// counter's seeds has given `found`.
pub open spec fn spec_counter_plan(p: Seq<u8>, found: Option<(Seq<u8>, u8)>) -> Result<
    PlanModel,
    ProcessError,
> {
    match found {
        None => Err(ProcessError::NoProgramAddress),
        Some((address, bump)) => commands_only(
            seq![
                CommandModel::CreateAccount {
                    payer: 0,
                    account: 1,
                    address,
                    seed: PdaSeed::Counter,
                    bump,
                    lamports: rent_exempt_balance(COUNTER_SIZE as int) as u64,
                    space: COUNTER_SIZE as u64,
                    owner: p,
                },
                CommandModel::WriteCounter {
                    account: 1,
                    counter: RaffleCounter { initialized: 1, number_of_raffles: 0 },
                },
            ],
        ),
    }
}

/// What creating the raffle counter decides: create it at its derived address,
/// rent-exempt, and store a counter that is initialized and at zero.
/// Accounts: initializer, counter.
pub open spec fn spec_init_raffle_counter(a: Seq<AccountModel>, p: Seq<u8>) -> Result<
    PlanModel,
    ProcessError,
> {
    if a.len() < 2 {
        Err(ProcessError::NotEnoughAccountKeys)
    } else {
        spec_counter_plan(p, program_address(PdaSeed::Counter.seeds(), p))
    }
}

/// What initializing the configuration decides once the address search for the
/// configuration's seeds has given `found`.
pub open spec fn spec_config_plan(a: Seq<AccountModel>, p: Seq<u8>, found: Option<(Seq<u8>, u8)>) -> Result<
    PlanModel,
    ProcessError,
> {
    match found {
        None => Err(ProcessError::NoProgramAddress),
        Some((address, bump)) => {
            let create = CommandModel::CreateAccount {
                payer: 0,
                account: 4,
                address,
                seed: PdaSeed::Config,
                bump,
                lamports: rent_exempt_balance(CONFIG_SIZE as int) as u64,
                space: CONFIG_SIZE as u64,
                owner: p,
            };
            let last = if a[0].is_signer {
                CommandModel::WriteConfig {
                    account: 4,
                    config: ConfigModel {
                        authority_1: a[0].key,
                        authority_2: a[1].key,
                        authority_3: a[2].key,
                        authority_4: a[3].key,
                    },
                }
            } else {
                CommandModel::Fail {
                    error: ProcessError::Program(RaffleProgramError::NotSignerAuth),
                }
            };
            if a[4].owner != p {
                commands_only(seq![create, last])
            } else if a[0].is_signer {
                commands_only(seq![last])
            } else {
                program_error(RaffleProgramError::NotSignerAuth)
            }
        },
    }
}

/// What initializing the configuration decides: create the configuration account
/// unless the program owns it already, then, if the first authority signs, store
/// the four authorities.
/// Accounts: the four authorities, configuration.
pub open spec fn spec_init_config(a: Seq<AccountModel>, p: Seq<u8>) -> Result<
    PlanModel,
    ProcessError,
> {
    if a.len() < 5 {
        Err(ProcessError::NotEnoughAccountKeys)
    } else {
        spec_config_plan(a, p, program_address(PdaSeed::Config.seeds(), p))
    }
}

/// What creating a raffle decides before the randomness program answers: with a
/// signing initializer, a stored fee other than zero and an initialized counter,
/// both owned by the program, the raffle gets the next number; its account is
/// created at the address derived from that number, the fee is paid to the fee
/// account, and a random number is requested.
/// Accounts: initializer, raffle, counter, entropy, randomness fee, fee,
/// randomness program, system program.
pub open spec fn spec_init_raffle(a: Seq<AccountModel>, p: Seq<u8>, init: RaffleModel) -> Result<
    PlanModel,
    ProcessError,
> {
    if a.len() < 8 {
        Err(ProcessError::NotEnoughAccountKeys)
    } else if !a[0].is_signer {
        program_error(RaffleProgramError::InvalidAuth)
    } else {
        match Fee::from_slice(a[5].data) {
            Err(e) => Err(ProcessError::Codec(e)),
            Ok(fee) => match RaffleCounter::from_slice(a[2].data) {
                Err(e) => Err(ProcessError::Codec(e)),
                Ok(counter) => if a[2].owner != p || a[5].owner != p {
                    program_error(RaffleProgramError::InvalidCounter)
                } else if fee.fee == 0 {
                    program_error(RaffleProgramError::InvalidFee)
                } else if counter.initialized != 1 {
                    program_error(RaffleProgramError::InvalidCounter)
                } else if counter.number_of_raffles == u64::MAX {
                    program_error(RaffleProgramError::ArithmeticError)
                } else {
                    let next = RaffleCounter {
                        initialized: counter.initialized,
                        number_of_raffles: (counter.number_of_raffles + 1) as u64,
                    };
                    spec_raffle_plan(
                        a,
                        p,
                        init,
                        fee,
                        next,
                        program_address(PdaSeed::Raffle { number: next.number_of_raffles }.seeds(), p),
                    )
                },
            },
        }
    }
}

/// What creating a raffle decides once its stored fee and the advanced counter
/// `next` are known and the address search for the seeds of `next`'s number has
/// given `found`: create the raffle's account there, pay the fee, request a random
/// number, and remember what storing the raffle needs.
pub open spec fn spec_raffle_plan(
    a: Seq<AccountModel>,
    p: Seq<u8>,
    init: RaffleModel,
    fee: Fee,
    next: RaffleCounter,
    found: Option<(Seq<u8>, u8)>,
) -> Result<PlanModel, ProcessError> {
    match found {
        None => Err(ProcessError::NoProgramAddress),
        Some((address, bump)) => Ok(
            PlanModel {
                commands: seq![
                    CommandModel::CreateAccount {
                        payer: 0,
                        account: 1,
                        address,
                        seed: PdaSeed::Raffle { number: next.number_of_raffles },
                        bump,
                        lamports: rent_exempt_balance(RAFFLE_SIZE as int) as u64,
                        space: RAFFLE_SIZE as u64,
                        owner: p,
                    },
                    CommandModel::Transfer { from: 0, to: 5, system_program: 7, lamports: fee.fee },
                    CommandModel::RequestRandomness {
                        initializer: 0,
                        entropy: 3,
                        rng_fee: 4,
                        system_program: 7,
                        rng_program: 6,
                    },
                ],
                pending: Some(
                    PendingModel {
                        raffle_account: 1,
                        counter_account: 2,
                        rng_program: a[6].key,
                        initializer: a[0].key,
                        init,
                        counter: next,
                    },
                ),
            },
        ),
    }
}

/// The 32 zero bytes of a winner's address not yet published.
pub open spec fn no_winner() -> Seq<u8> {
    Seq::new(32, |_i: int| 0u8)
}

/// The raffle that a creation stores once the random number is known: the winner's
/// number is the random number modulo the number of participants.
pub open spec fn drawn_raffle(pending: PendingModel, random_number: u64) -> RaffleModel {
    RaffleModel {
        participants_hash: pending.init.participants_hash,
        initializer: pending.initializer,
        raffle_no: pending.counter.number_of_raffles,
        number_of_participants: pending.init.number_of_participants,
        winner_no: (random_number % pending.init.number_of_participants) as u64,
        winner_wallet: no_winner(),
        raffle_name: pending.init.raffle_name,
        is_published: 0,
    }
}

/// What creating a raffle decides once the randomness program has answered with
/// `data`: store the drawn raffle and the advanced counter.
pub open spec fn spec_draw_winner(pending: PendingModel, data: Seq<u8>) -> Result<
    Seq<CommandModel>,
    ProcessError,
> {
    match RandomNumber::from_slice(data) {
        Err(e) => Err(ProcessError::Codec(e)),
        Ok(n) => Ok(
            seq![
                CommandModel::WriteRaffle {
                    account: pending.raffle_account,
                    raffle: drawn_raffle(pending, n.random_number),
                },
                CommandModel::WriteCounter {
                    account: pending.counter_account,
                    counter: pending.counter,
                },
            ],
        ),
    }
}

/// What an instruction decides: its data is decoded and handed to its handler.
pub open spec fn spec_process(p: Seq<u8>, a: Seq<AccountModel>, data: Seq<u8>) -> Result<
    PlanModel,
    ProcessError,
> {
    match spec_unpack(data) {
        Err(e) => Err(e),
        Ok(ix) => match ix {
            InstructionModel::InitRaffle { init_raffle } => spec_init_raffle(a, p, init_raffle),
            InstructionModel::PublishWinner => spec_publish_winner(a, p),
            InstructionModel::InitCounter => spec_init_raffle_counter(a, p),
            InstructionModel::InitFee { data } => spec_init_fee_account(a, p, data),
            InstructionModel::InitConfig => spec_init_config(a, p),
            InstructionModel::SetConfig => spec_set_config(a, p),
            InstructionModel::UpdateFee { data } => spec_update_fee(a, p, data),
            InstructionModel::CollectFee => spec_collect_fee(a, p),
        },
    }
}

/// The checks that guard the administrative instructions: the configuration
/// account belongs to the program, holds a configuration, lists the authority,
/// and the authority signs. Gives the stored configuration.
pub open spec fn spec_authorize(a: Seq<AccountModel>, p: Seq<u8>, authority: int, config: int) -> Result<
    ConfigModel,
    ProcessError,
> {
    if a[config].owner != p {
        program_error(RaffleProgramError::InvalidConfig)
    } else {
        match ConfigModel::from_slice(a[config].data) {
            Err(e) => Err(ProcessError::Codec(e)),
            Ok(c) => if !c.lists(a[authority].key) {
                program_error(RaffleProgramError::InvalidAuth)
            } else if !a[authority].is_signer {
                program_error(RaffleProgramError::NotSignerAuth)
            } else {
                Ok(c)
            },
        }
    }
}

/// What replacing the configuration decides.
/// Accounts: authority, the four new authorities, configuration.
pub open spec fn spec_set_config(a: Seq<AccountModel>, p: Seq<u8>) -> Result<
    PlanModel,
    ProcessError,
> {
    if a.len() < 6 {
        Err(ProcessError::NotEnoughAccountKeys)
    } else {
        match spec_authorize(a, p, 0, 5) {
            Err(e) => Err(e),
            Ok(_) => commands_only(
                seq![
                    CommandModel::WriteConfig {
                        account: 5,
                        config: ConfigModel {
                            authority_1: a[1].key,
                            authority_2: a[2].key,
                            authority_3: a[3].key,
                            authority_4: a[4].key,
                        },
                    },
                ],
            ),
        }
    }
}

/// What creating the fee account decides once the address search for the fee
/// account's seeds has given `found`.
pub open spec fn spec_fee_account_plan(p: Seq<u8>, data: InitPda, found: Option<(Seq<u8>, u8)>) -> Result<
    PlanModel,
    ProcessError,
> {
    match found {
        None => Err(ProcessError::NoProgramAddress),
        Some((address, bump)) => commands_only(
            seq![
                CommandModel::CreateAccount {
                    payer: 0,
                    account: 1,
                    address,
                    seed: PdaSeed::Fee,
                    bump,
                    lamports: data.lamports,
                    space: FEE_SIZE as u64,
                    owner: p,
                },
                CommandModel::WriteFee { account: 1, fee: Fee { fee: INITIAL_FEE } },
            ],
        ),
    }
}

/// What creating the fee account decides: an authorized call creates it at its
/// derived address with the given lamports and stores the initial fee in it.
/// Accounts: authority, fee account, configuration.
pub open spec fn spec_init_fee_account(a: Seq<AccountModel>, p: Seq<u8>, data: InitPda) -> Result<
    PlanModel,
    ProcessError,
> {
    if a.len() < 3 {
        Err(ProcessError::NotEnoughAccountKeys)
    } else {
        match spec_authorize(a, p, 0, 2) {
            Err(e) => Err(e),
            Ok(_) => spec_fee_account_plan(p, data, program_address(PdaSeed::Fee.seeds(), p)),
        }
    }
}

/// What changing the fee decides: an authorized call stores the new fee.
/// Accounts: authority, fee account, configuration.
pub open spec fn spec_update_fee(a: Seq<AccountModel>, p: Seq<u8>, data: Fee) -> Result<
    PlanModel,
    ProcessError,
> {
    if a.len() < 3 {
        Err(ProcessError::NotEnoughAccountKeys)
    } else {
        match spec_authorize(a, p, 0, 2) {
            Err(e) => Err(e),
            Ok(_) => commands_only(seq![CommandModel::WriteFee { account: 1, fee: data }]),
        }
    }
}

/// What collecting fees decides: an authorized call moves everything above the
/// reserve from the fee account to the authority.
/// Accounts: authority, fee account, configuration.
pub open spec fn spec_collect_fee(a: Seq<AccountModel>, p: Seq<u8>) -> Result<
    PlanModel,
    ProcessError,
> {
    if a.len() < 3 {
        Err(ProcessError::NotEnoughAccountKeys)
    } else {
        match spec_authorize(a, p, 0, 2) {
            Err(e) => Err(e),
            Ok(_) => if a[1].lamports < FEE_ACCOUNT_RESERVE {
                program_error(RaffleProgramError::ArithmeticError)
            } else {
                commands_only(
                    seq![
                        CommandModel::MoveLamports {
                            from: 1,
                            to: 0,
                            amount: (a[1].lamports - FEE_ACCOUNT_RESERVE) as u64,
                        },
                    ],
                )
            },
        }
    }
}

impl Processor {
    /// Accepts `authority` if and only if it is one of the four configured authorities.
    pub fn check_authority(authority: &[u8; 32], config: Config) -> (r: Result<(), ProcessError>)
        ensures
            r == (if config@.lists(authority@) {
                Ok(())
            } else {
                program_error::<()>(RaffleProgramError::InvalidAuth)
            }),
    {
        if same_key(authority, &config.authority_1) || same_key(authority, &config.authority_2)
            || same_key(authority, &config.authority_3) || same_key(
            authority,
            &config.authority_4,
        ) {
            Ok(())
        } else {
            Err(ProcessError::Program(RaffleProgramError::InvalidAuth))
        }
    }

    /// Publishes the winner of a raffle (see `spec_publish_winner`).
    /// Accounts: initializer, raffle, winner.
    pub fn publish_winner(accounts: &Vec<AccountInput>, program_id: &[u8; 32]) -> (r: Result<
        Plan,
        ProcessError,
    >)
        ensures
            plan_result(r) == spec_publish_winner(accounts.deep_view(), program_id@),
    {
        if accounts.len() < 3 {
            return Err(ProcessError::NotEnoughAccountKeys);
        }
        let ghost a = accounts.deep_view();
        let initializer = &accounts[0];
        let raffle_account = &accounts[1];
        let winner = &accounts[2];
        assert(a[0] == initializer.deep_view() && a[1] == raffle_account.deep_view() && a[2]
            == winner.deep_view());
        let mut raffle = match Raffle::try_from_slice(raffle_account.data.as_slice()) {
            Ok(r) => r,
            Err(e) => return Err(ProcessError::Codec(e)),
        };
        if !same_key(&raffle_account.owner, program_id) {
            return Err(ProcessError::Program(RaffleProgramError::InvalidRaffle));
        }
        if !same_key(&raffle.initializer, &initializer.key) {
            return Err(ProcessError::Program(RaffleProgramError::InvalidInitializer));
        }
        if !initializer.is_signer {
            return Err(ProcessError::Program(RaffleProgramError::InitializerNotSigner));
        }
        if !same_key(&raffle_account.owner, program_id) {
            return Err(ProcessError::Program(RaffleProgramError::InvalidRaffle));
        }
        raffle.winner_wallet = winner.key;
        raffle.is_published = 1;
        let commands = vec![Command::WriteRaffle { account: 1, raffle }];
        let plan = Plan { commands, pending: None };
        assert(plan@.commands =~= seq![CommandModel::WriteRaffle { account: 1, raffle: raffle@ }]);
        Ok(plan)
    }
    /// The checks that guard the administrative instructions (see `spec_authorize`).
    fn authorize(
        accounts: &Vec<AccountInput>,
        program_id: &[u8; 32],
        authority: usize,
        config: usize,
    ) -> (r: Result<Config, ProcessError>)
        requires
            authority < accounts.len(),
            config < accounts.len(),
        ensures
            match r {
                Ok(c) => spec_authorize(accounts.deep_view(), program_id@, authority as int, config as int)
                    == Ok::<ConfigModel, ProcessError>(c@),
                Err(e) => spec_authorize(accounts.deep_view(), program_id@, authority as int, config as int)
                    == Err::<ConfigModel, ProcessError>(e),
            },
    {
        let ghost a = accounts.deep_view();
        let authority_account = &accounts[authority];
        let config_account = &accounts[config];
        assert(a[authority as int] == authority_account.deep_view());
        assert(a[config as int] == config_account.deep_view());
        if !same_key(&config_account.owner, program_id) {
            return Err(ProcessError::Program(RaffleProgramError::InvalidConfig));
        }
        let stored = match Config::try_from_slice(config_account.data.as_slice()) {
            Ok(c) => c,
            Err(e) => return Err(ProcessError::Codec(e)),
        };
        match Self::check_authority(&authority_account.key, stored) {
            Ok(()) => {},
            Err(e) => return Err(e),
        }
        if !authority_account.is_signer {
            return Err(ProcessError::Program(RaffleProgramError::NotSignerAuth));
        }
        Ok(stored)
    }

    /// Replaces the configuration (see `spec_set_config`).
    pub fn set_config(accounts: &Vec<AccountInput>, program_id: &[u8; 32]) -> (r: Result<
        Plan,
        ProcessError,
    >)
        ensures
            plan_result(r) == spec_set_config(accounts.deep_view(), program_id@),
    {
        if accounts.len() < 6 {
            return Err(ProcessError::NotEnoughAccountKeys);
        }
        match Self::authorize(accounts, program_id, 0, 5) {
            Ok(_) => {},
            Err(e) => return Err(e),
        }
        let config = Config {
            authority_1: accounts[1].key,
            authority_2: accounts[2].key,
            authority_3: accounts[3].key,
            authority_4: accounts[4].key,
        };
        let commands = vec![Command::WriteConfig { account: 5, config }];
        let plan = Plan { commands, pending: None };
        assert(plan@.commands =~= seq![CommandModel::WriteConfig { account: 5, config: config@ }]);
        Ok(plan)
    }

    /// Creates the fee account (see `spec_init_fee_account`).
    pub fn init_fee_account(
        accounts: &Vec<AccountInput>,
        program_id: &[u8; 32],
        data: InitPda,
    ) -> (r: Result<Plan, ProcessError>)
        ensures
            plan_result(r) == spec_init_fee_account(accounts.deep_view(), program_id@, data),
    {
        if accounts.len() < 3 {
            return Err(ProcessError::NotEnoughAccountKeys);
        }
        match Self::authorize(accounts, program_id, 0, 2) {
            Ok(_) => {},
            Err(e) => return Err(e),
        }
        let found = find_program_address(&PdaSeed::Fee.to_seeds(), program_id);
        Self::fee_account_plan(program_id, data, found)
    }

    /// What creating the fee account decides once the address search has given
    /// `found` (see `spec_fee_account_plan`).
    pub fn fee_account_plan(program_id: &[u8; 32], data: InitPda, found: Option<([u8; 32], u8)>) -> (r:
        Result<Plan, ProcessError>)
        ensures
            plan_result(r) == spec_fee_account_plan(program_id@, data, found_view(found)),
    {
        let (address, bump) = match found {
            Some(f) => f,
            None => return Err(ProcessError::NoProgramAddress),
        };
        let create = Command::CreateAccount {
            payer: 0,
            account: 1,
            address,
            seed: PdaSeed::Fee,
            bump,
            lamports: data.lamports,
            space: FEE_SIZE as u64,
            owner: *program_id,
        };
        let commands = vec![create, Command::WriteFee { account: 1, fee: Fee { fee: INITIAL_FEE } }];
        let plan = Plan { commands, pending: None };
        assert(plan@.commands =~= seq![
            create.deep_view(),
            CommandModel::WriteFee { account: 1, fee: Fee { fee: INITIAL_FEE } },
        ]);
        Ok(plan)
    }

    /// Changes the fee (see `spec_update_fee`).
    pub fn update_fee(accounts: &Vec<AccountInput>, program_id: &[u8; 32], data: Fee) -> (r: Result<
        Plan,
        ProcessError,
    >)
        ensures
            plan_result(r) == spec_update_fee(accounts.deep_view(), program_id@, data),
    {
        if accounts.len() < 3 {
            return Err(ProcessError::NotEnoughAccountKeys);
        }
        match Self::authorize(accounts, program_id, 0, 2) {
            Ok(_) => {},
            Err(e) => return Err(e),
        }
        let commands = vec![Command::WriteFee { account: 1, fee: data }];
        let plan = Plan { commands, pending: None };
        assert(plan@.commands =~= seq![CommandModel::WriteFee { account: 1, fee: data }]);
        Ok(plan)
    }

    /// Collects the fees (see `spec_collect_fee`).
    pub fn collect_fee(accounts: &Vec<AccountInput>, program_id: &[u8; 32]) -> (r: Result<
        Plan,
        ProcessError,
    >)
        ensures
            plan_result(r) == spec_collect_fee(accounts.deep_view(), program_id@),
    {
        if accounts.len() < 3 {
            return Err(ProcessError::NotEnoughAccountKeys);
        }
        match Self::authorize(accounts, program_id, 0, 2) {
            Ok(_) => {},
            Err(e) => return Err(e),
        }
        let value = accounts[1].lamports;
        let collected = match value.checked_sub(FEE_ACCOUNT_RESERVE) {
            Some(c) => c,
            None => return Err(ProcessError::Program(RaffleProgramError::ArithmeticError)),
        };
        let commands = vec![Command::MoveLamports { from: 1, to: 0, amount: collected }];
        let plan = Plan { commands, pending: None };
        assert(plan@.commands =~= seq![CommandModel::MoveLamports { from: 1, to: 0, amount: collected }]);
        Ok(plan)
    }
    /// Decodes an instruction and decides what it does (see `spec_process`).
    pub fn process(
        program_id: &[u8; 32],
        accounts: &Vec<AccountInput>,
        instruction_data: &[u8],
    ) -> (r: Result<Plan, ProcessError>)
        ensures
            plan_result(r) == spec_process(program_id@, accounts.deep_view(), instruction_data@),
    {
        let instruction = match RaffleProgramInstruction::unpack(instruction_data) {
            Ok(ix) => ix,
            Err(e) => return Err(e),
        };
        match instruction {
            RaffleProgramInstruction::InitRaffle { init_raffle } => {
                Self::init_raffle(accounts, program_id, init_raffle)
            },
            RaffleProgramInstruction::PublishWinner => Self::publish_winner(accounts, program_id),
            RaffleProgramInstruction::InitCounter => Self::init_raffle_counter(accounts, program_id),
            RaffleProgramInstruction::InitFee { data } => {
                Self::init_fee_account(accounts, program_id, data)
            },
            RaffleProgramInstruction::InitConfig => Self::init_config(accounts, program_id),
            RaffleProgramInstruction::SetConfig => Self::set_config(accounts, program_id),
            RaffleProgramInstruction::UpdateFee { data } => {
                Self::update_fee(accounts, program_id, data)
            },
            RaffleProgramInstruction::CollectFee => Self::collect_fee(accounts, program_id),
        }
    }

    /// Creates the raffle counter (see `spec_init_raffle_counter`).
    pub fn init_raffle_counter(accounts: &Vec<AccountInput>, program_id: &[u8; 32]) -> (r: Result<
        Plan,
        ProcessError,
    >)
        ensures
            plan_result(r) == spec_init_raffle_counter(accounts.deep_view(), program_id@),
    {
        if accounts.len() < 2 {
            return Err(ProcessError::NotEnoughAccountKeys);
        }
        let found = find_program_address(&PdaSeed::Counter.to_seeds(), program_id);
        Self::counter_plan(program_id, found)
    }

    /// What creating the raffle counter decides once the address search has given
    /// `found` (see `spec_counter_plan`).
    pub fn counter_plan(program_id: &[u8; 32], found: Option<([u8; 32], u8)>) -> (r: Result<
        Plan,
        ProcessError,
    >)
        ensures
            plan_result(r) == spec_counter_plan(program_id@, found_view(found)),
    {
        let rent_amount = minimum_balance(COUNTER_SIZE);
        let (address, bump) = match found {
            Some(f) => f,
            None => return Err(ProcessError::NoProgramAddress),
        };
        let create = Command::CreateAccount {
            payer: 0,
            account: 1,
            address,
            seed: PdaSeed::Counter,
            bump,
            lamports: rent_amount,
            space: COUNTER_SIZE as u64,
            owner: *program_id,
        };
        let counter = RaffleCounter { initialized: 1, number_of_raffles: 0 };
        let commands = vec![create, Command::WriteCounter { account: 1, counter }];
        let plan = Plan { commands, pending: None };
        assert(plan@.commands =~= seq![
            create.deep_view(),
            CommandModel::WriteCounter { account: 1, counter },
        ]);
        Ok(plan)
    }

    /// Initializes the configuration (see `spec_init_config`).
    pub fn init_config(accounts: &Vec<AccountInput>, program_id: &[u8; 32]) -> (r: Result<
        Plan,
        ProcessError,
    >)
        ensures
            plan_result(r) == spec_init_config(accounts.deep_view(), program_id@),
    {
        if accounts.len() < 5 {
            return Err(ProcessError::NotEnoughAccountKeys);
        }
        let found = find_program_address(&PdaSeed::Config.to_seeds(), program_id);
        Self::config_plan(accounts, program_id, found)
    }

    /// What initializing the configuration decides once the address search has
    /// given `found` (see `spec_config_plan`).
    pub fn config_plan(
        accounts: &Vec<AccountInput>,
        program_id: &[u8; 32],
        found: Option<([u8; 32], u8)>,
    ) -> (r: Result<Plan, ProcessError>)
        requires
            accounts.len() >= 5,
        ensures
            plan_result(r) == spec_config_plan(accounts.deep_view(), program_id@, found_view(found)),
    {
        let ghost a = accounts.deep_view();
        assert(a[0] == accounts[0].deep_view() && a[4] == accounts[4].deep_view());
        let (address, bump) = match found {
            Some(f) => f,
            None => return Err(ProcessError::NoProgramAddress),
        };
        let rent_amount = minimum_balance(CONFIG_SIZE);
        let mut commands: Vec<Command> = Vec::new();
        let create = Command::CreateAccount {
            payer: 0,
            account: 4,
            address,
            seed: PdaSeed::Config,
            bump,
            lamports: rent_amount,
            space: CONFIG_SIZE as u64,
            owner: *program_id,
        };
        let creates = !same_key(&accounts[4].owner, program_id);
        if creates {
            commands.push(create);
        }
        let last = if !accounts[0].is_signer {
            if !creates {
                return Err(ProcessError::Program(RaffleProgramError::NotSignerAuth));
            }
            Command::Fail { error: ProcessError::Program(RaffleProgramError::NotSignerAuth) }
        } else {
            Command::WriteConfig {
                account: 4,
                config: Config {
                    authority_1: accounts[0].key,
                    authority_2: accounts[1].key,
                    authority_3: accounts[2].key,
                    authority_4: accounts[3].key,
                },
            }
        };
        commands.push(last);
        let plan = Plan { commands, pending: None };
        if creates {
            assert(plan@.commands =~= seq![create.deep_view(), last.deep_view()]);
        } else {
            assert(plan@.commands =~= seq![last.deep_view()]);
        }
        Ok(plan)
    }

    /// Starts creating a raffle (see `spec_init_raffle`); `draw_winner` finishes it.
    pub fn init_raffle(accounts: &Vec<AccountInput>, program_id: &[u8; 32], init_raffle: Raffle) -> (r:
        Result<Plan, ProcessError>)
        ensures
            plan_result(r) == spec_init_raffle(accounts.deep_view(), program_id@, init_raffle@),
    {
        if accounts.len() < 8 {
            return Err(ProcessError::NotEnoughAccountKeys);
        }
        let ghost a = accounts.deep_view();
        let initializer = &accounts[0];
        let raffle_counter = &accounts[2];
        let fee_account = &accounts[5];
        assert(a[0] == initializer.deep_view() && a[2] == raffle_counter.deep_view() && a[5]
            == fee_account.deep_view());
        if !initializer.is_signer {
            return Err(ProcessError::Program(RaffleProgramError::InvalidAuth));
        }
        let fee = match Fee::try_from_slice(fee_account.data.as_slice()) {
            Ok(f) => f,
            Err(e) => return Err(ProcessError::Codec(e)),
        };
        let counter = match RaffleCounter::try_from_slice(raffle_counter.data.as_slice()) {
            Ok(c) => c,
            Err(e) => return Err(ProcessError::Codec(e)),
        };
        if !same_key(&raffle_counter.owner, program_id) {
            return Err(ProcessError::Program(RaffleProgramError::InvalidCounter));
        }
        if !same_key(&fee_account.owner, program_id) {
            return Err(ProcessError::Program(RaffleProgramError::InvalidCounter));
        }
        if !initializer.is_signer {
            return Err(ProcessError::Program(RaffleProgramError::InitializerNotSigner));
        }
        if fee.fee == 0 {
            return Err(ProcessError::Program(RaffleProgramError::InvalidFee));
        }
        if counter.initialized != 1 {
            return Err(ProcessError::Program(RaffleProgramError::InvalidCounter));
        }
        let number = match counter.number_of_raffles.checked_add(1) {
            Some(n) => n,
            None => return Err(ProcessError::Program(RaffleProgramError::ArithmeticError)),
        };
        let next = RaffleCounter { initialized: counter.initialized, number_of_raffles: number };
        let found = find_program_address(&PdaSeed::Raffle { number }.to_seeds(), program_id);
        Self::raffle_plan(accounts, program_id, init_raffle, fee, next, found)
    }

    /// What creating a raffle decides once the stored fee and the advanced counter
    /// `next` are known and the address search has given `found` (see
    /// `spec_raffle_plan`).
    pub fn raffle_plan(
        accounts: &Vec<AccountInput>,
        program_id: &[u8; 32],
        init_raffle: Raffle,
        fee: Fee,
        next: RaffleCounter,
        found: Option<([u8; 32], u8)>,
    ) -> (r: Result<Plan, ProcessError>)
        requires
            accounts.len() >= 8,
        ensures
            plan_result(r) == spec_raffle_plan(
                accounts.deep_view(),
                program_id@,
                init_raffle@,
                fee,
                next,
                found_view(found),
            ),
    {
        let ghost a = accounts.deep_view();
        assert(a[0] == accounts[0].deep_view() && a[6] == accounts[6].deep_view());
        let (address, bump) = match found {
            Some(f) => f,
            None => return Err(ProcessError::NoProgramAddress),
        };
        let rent_amount = minimum_balance(RAFFLE_SIZE);
        let create = Command::CreateAccount {
            payer: 0,
            account: 1,
            address,
            seed: PdaSeed::Raffle { number: next.number_of_raffles },
            bump,
            lamports: rent_amount,
            space: RAFFLE_SIZE as u64,
            owner: *program_id,
        };
        let transfer = Command::Transfer { from: 0, to: 5, system_program: 7, lamports: fee.fee };
        let request = Command::RequestRandomness {
            initializer: 0,
            entropy: 3,
            rng_fee: 4,
            system_program: 7,
            rng_program: 6,
        };
        let pending = PendingRaffle {
            raffle_account: 1,
            counter_account: 2,
            rng_program: accounts[6].key,
            initializer: accounts[0].key,
            init: init_raffle,
            counter: next,
        };
        let commands = vec![create, transfer, request];
        let plan = Plan { commands, pending: Some(pending) };
        assert(plan@.commands =~= seq![
            create.deep_view(),
            transfer.deep_view(),
            request.deep_view(),
        ]);
        Ok(plan)
    }

    /// Finishes creating a raffle once the randomness program, whose address is
    /// `returned_by`, has handed back `data` (see `spec_draw_winner`).
    pub fn draw_winner(pending: &PendingRaffle, returned_by: &[u8; 32], data: &[u8]) -> (r: Result<
        Vec<Command>,
        ProcessError,
    >)
        requires
            returned_by@ == pending.rng_program@,
            data@.len() == 8 ==> pending.init.number_of_participants != 0,
        ensures
            match r {
                Ok(commands) => spec_draw_winner(pending@, data@) == Ok::<
                    Seq<CommandModel>,
                    ProcessError,
                >(commands.deep_view()),
                Err(e) => spec_draw_winner(pending@, data@) == Err::<
                    Seq<CommandModel>,
                    ProcessError,
                >(e),
            },
    {
        let random = match RandomNumber::try_from_slice(data) {
            Ok(n) => n,
            Err(e) => return Err(ProcessError::Codec(e)),
        };
        let winner_no = random.random_number % pending.init.number_of_participants;
        let raffle = Raffle {
            is_published: 0,
            number_of_participants: pending.init.number_of_participants,
            initializer: pending.initializer,
            winner_no,
            winner_wallet: [0u8; 32],
            raffle_name: pending.init.raffle_name,
            raffle_no: pending.counter.number_of_raffles,
            participants_hash: pending.init.participants_hash,
        };
        assert(raffle.winner_wallet@ =~= no_winner());
        assert(raffle@ == drawn_raffle(pending@, random.random_number));
        let commands = vec![
            Command::WriteRaffle { account: pending.raffle_account, raffle },
            Command::WriteCounter { account: pending.counter_account, counter: pending.counter },
        ];
        assert(commands.deep_view() =~= seq![
            CommandModel::WriteRaffle {
                account: pending.raffle_account,
                raffle: drawn_raffle(pending@, random.random_number),
            },
            CommandModel::WriteCounter {
                account: pending.counter_account,
                counter: pending.counter,
            },
        ]);
        Ok(commands)
    }
}

} // verus!
