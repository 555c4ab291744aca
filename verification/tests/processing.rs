use raffle_program::error::{CodecError, ProcessError, RaffleProgramError};
use raffle_program::pda::PdaSeed;
use raffle_program::processor::{AccountInput, Command, PendingRaffle, Processor};
use raffle_program::state::{Config, Fee, Raffle, RaffleCounter, RandomNumber};
use solana_program::pubkey::Pubkey;
use solana_program::rent::Rent;

const PROGRAM: [u8; 32] = [200u8; 32];
const OTHER: [u8; 32] = [201u8; 32];

fn account(key: u8, owner: [u8; 32], is_signer: bool, lamports: u64, data: Vec<u8>) -> AccountInput {
    AccountInput { key: [key; 32], owner, is_signer, lamports, data }
}

fn config_data() -> Vec<u8> {
    Config {
        authority_1: [1u8; 32],
        authority_2: [2u8; 32],
        authority_3: [3u8; 32],
        authority_4: [4u8; 32],
    }
    .to_bytes()
}

fn admin_accounts(authority: u8, signer: bool, fee_lamports: u64) -> Vec<AccountInput> {
    vec![
        account(authority, OTHER, signer, 10, vec![]),
        account(50, PROGRAM, false, fee_lamports, Fee { fee: 5 }.to_bytes()),
        account(60, PROGRAM, false, 1, config_data()),
    ]
}

fn pda(seeds: &[&[u8]]) -> ([u8; 32], u8) {
    let (address, bump) = Pubkey::find_program_address(seeds, &Pubkey::new_from_array(PROGRAM));
    (address.to_bytes(), bump)
}

#[test]
fn too_few_accounts() {
    let accounts = vec![account(1, OTHER, true, 0, vec![])];
    assert_eq!(
        Processor::process(&PROGRAM, &accounts, &[1]).err(),
        Some(ProcessError::NotEnoughAccountKeys)
    );
    assert_eq!(
        Processor::process(&PROGRAM, &accounts, &[7]).err(),
        Some(ProcessError::NotEnoughAccountKeys)
    );
}

#[test]
fn counter_creation_plan() {
    let accounts = vec![account(1, OTHER, true, 10, vec![]), account(2, OTHER, false, 0, vec![])];
    let plan = Processor::process(&PROGRAM, &accounts, &[2]).unwrap();
    let (address, bump) = pda(&[b"counter"]);
    let rent = Rent::default().minimum_balance(9);
    assert_eq!(rent, 953_520);
    assert_eq!(
        plan.commands,
        vec![
            Command::CreateAccount {
                payer: 0,
                account: 1,
                address,
                seed: PdaSeed::Counter,
                bump,
                lamports: rent,
                space: 9,
                owner: PROGRAM,
            },
            Command::WriteCounter {
                account: 1,
                counter: RaffleCounter { initialized: 1, number_of_raffles: 0 },
            },
        ]
    );
    assert!(plan.pending.is_none());
}

#[test]
fn seeds_spell_the_account_names() {
    assert_eq!(PdaSeed::Counter.to_seeds(), vec![b"counter".to_vec()]);
    assert_eq!(PdaSeed::Config.to_seeds(), vec![b"config".to_vec()]);
    assert_eq!(PdaSeed::Fee.to_seeds(), vec![b"fee".to_vec()]);
    assert_eq!(
        PdaSeed::Raffle { number: 3 }.to_seeds(),
        vec![b"raffle".to_vec(), 3u64.to_le_bytes().to_vec()]
    );
}

#[test]
fn config_initialisation() {
    let mut accounts = vec![
        account(1, OTHER, true, 10, vec![]),
        account(2, OTHER, false, 0, vec![]),
        account(3, OTHER, false, 0, vec![]),
        account(4, OTHER, false, 0, vec![]),
        account(9, OTHER, false, 0, vec![]),
    ];
    let plan = Processor::process(&PROGRAM, &accounts, &[4]).unwrap();
    let (address, bump) = pda(&[b"config"]);
    assert_eq!(plan.commands.len(), 2);
    assert_eq!(
        plan.commands[0],
        Command::CreateAccount {
            payer: 0,
            account: 4,
            address,
            seed: PdaSeed::Config,
            bump,
            lamports: Rent::default().minimum_balance(128),
            space: 128,
            owner: PROGRAM,
        }
    );
    assert_eq!(
        plan.commands[1],
        Command::WriteConfig {
            account: 4,
            config: Config {
                authority_1: [1u8; 32],
                authority_2: [2u8; 32],
                authority_3: [3u8; 32],
                authority_4: [4u8; 32],
            },
        }
    );

    // Not signed: the account is still created first, then the instruction fails.
    accounts[0].is_signer = false;
    let plan = Processor::process(&PROGRAM, &accounts, &[4]).unwrap();
    assert_eq!(
        plan.commands[1],
        Command::Fail { error: ProcessError::Program(RaffleProgramError::NotSignerAuth) }
    );

    // Already owned by the program and not signed: fails at once.
    accounts[4].owner = PROGRAM;
    assert_eq!(
        Processor::process(&PROGRAM, &accounts, &[4]).err(),
        Some(ProcessError::Program(RaffleProgramError::NotSignerAuth))
    );
    accounts[0].is_signer = true;
    let plan = Processor::process(&PROGRAM, &accounts, &[4]).unwrap();
    assert_eq!(plan.commands.len(), 1);
}

#[test]
fn check_authority_accepts_exactly_the_listed() {
    let config = Config::try_from_slice(&config_data()).unwrap();
    for k in 1..=4u8 {
        assert_eq!(Processor::check_authority(&[k; 32], config), Ok(()));
    }
    assert_eq!(
        Processor::check_authority(&[5u8; 32], config),
        Err(ProcessError::Program(RaffleProgramError::InvalidAuth))
    );
}

#[test]
fn collect_fee_scenarios() {
    let plan = Processor::process(&PROGRAM, &admin_accounts(3, true, 3_000_000), &[7]).unwrap();
    assert_eq!(plan.commands, vec![Command::MoveLamports { from: 1, to: 0, amount: 500_000 }]);

    assert_eq!(
        Processor::process(&PROGRAM, &admin_accounts(3, true, 2_499_999), &[7]).err(),
        Some(ProcessError::Program(RaffleProgramError::ArithmeticError))
    );
    assert_eq!(
        Processor::process(&PROGRAM, &admin_accounts(8, true, 3_000_000), &[7]).err(),
        Some(ProcessError::Program(RaffleProgramError::InvalidAuth))
    );
    assert_eq!(
        Processor::process(&PROGRAM, &admin_accounts(2, false, 3_000_000), &[7]).err(),
        Some(ProcessError::Program(RaffleProgramError::NotSignerAuth))
    );
    let mut accounts = admin_accounts(2, true, 3_000_000);
    accounts[2].owner = OTHER;
    assert_eq!(
        Processor::process(&PROGRAM, &accounts, &[7]).err(),
        Some(ProcessError::Program(RaffleProgramError::InvalidConfig))
    );
    accounts[2].owner = PROGRAM;
    accounts[2].data.pop();
    assert_eq!(
        Processor::process(&PROGRAM, &accounts, &[7]).err(),
        Some(ProcessError::Codec(CodecError::UnexpectedLength))
    );
}

#[test]
fn update_and_init_fee() {
    let plan = Processor::process(&PROGRAM, &admin_accounts(1, true, 0), &[6, 3, 0, 0, 0, 0, 0, 0, 0]).unwrap();
    assert_eq!(plan.commands, vec![Command::WriteFee { account: 1, fee: Fee { fee: 3 } }]);

    let mut data = vec![3u8, 0];
    data.extend(5_000_000u64.to_le_bytes());
    data.push(0);
    let plan = Processor::process(&PROGRAM, &admin_accounts(4, true, 0), &data).unwrap();
    let (address, bump) = pda(&[b"fee"]);
    assert_eq!(
        plan.commands,
        vec![
            Command::CreateAccount {
                payer: 0,
                account: 1,
                address,
                seed: PdaSeed::Fee,
                bump,
                lamports: 5_000_000,
                space: 8,
                owner: PROGRAM,
            },
            Command::WriteFee { account: 1, fee: Fee { fee: 250000 } },
        ]
    );
}

#[test]
fn set_config_writes_new_authorities() {
    let mut accounts = vec![account(2, OTHER, true, 0, vec![])];
    for k in 11..=14u8 {
        accounts.push(account(k, OTHER, false, 0, vec![]));
    }
    accounts.push(account(60, PROGRAM, false, 1, config_data()));
    let plan = Processor::process(&PROGRAM, &accounts, &[5]).unwrap();
    assert_eq!(
        plan.commands,
        vec![Command::WriteConfig {
            account: 5,
            config: Config {
                authority_1: [11u8; 32],
                authority_2: [12u8; 32],
                authority_3: [13u8; 32],
                authority_4: [14u8; 32],
            },
        }]
    );
}

fn stored_raffle(initializer: u8) -> Raffle {
    Raffle {
        participants_hash: [5u8; 32],
        initializer: [initializer; 32],
        raffle_no: 3,
        number_of_participants: 10,
        winner_no: 4,
        winner_wallet: [0u8; 32],
        raffle_name: [6u8; 32],
        is_published: 0,
    }
}

#[test]
fn publish_winner_scenarios() {
    let accounts = vec![
        account(1, OTHER, true, 0, vec![]),
        account(2, PROGRAM, false, 0, stored_raffle(1).to_bytes()),
        account(3, OTHER, false, 0, vec![]),
    ];
    let plan = Processor::process(&PROGRAM, &accounts, &[1]).unwrap();
    let mut expected = stored_raffle(1);
    expected.winner_wallet = [3u8; 32];
    expected.is_published = 1;
    assert_eq!(plan.commands, vec![Command::WriteRaffle { account: 1, raffle: expected }]);

    let mut wrong = accounts;
    wrong[1].data = stored_raffle(8).to_bytes();
    assert_eq!(
        Processor::process(&PROGRAM, &wrong, &[1]).err(),
        Some(ProcessError::Program(RaffleProgramError::InvalidInitializer))
    );
    wrong[1].data = stored_raffle(1).to_bytes();
    wrong[0].is_signer = false;
    assert_eq!(
        Processor::process(&PROGRAM, &wrong, &[1]).err(),
        Some(ProcessError::Program(RaffleProgramError::InitializerNotSigner))
    );
    wrong[1].owner = OTHER;
    assert_eq!(
        Processor::process(&PROGRAM, &wrong, &[1]).err(),
        Some(ProcessError::Program(RaffleProgramError::InvalidRaffle))
    );
}

fn raffle_accounts(counter: RaffleCounter, fee: u64) -> Vec<AccountInput> {
    vec![
        account(1, OTHER, true, 100_000_000, vec![]),
        account(2, OTHER, false, 0, vec![]),
        account(3, PROGRAM, false, 0, counter.to_bytes()),
        account(4, OTHER, false, 0, vec![]),
        account(5, OTHER, false, 0, vec![]),
        account(6, PROGRAM, false, 0, Fee { fee }.to_bytes()),
        account(7, OTHER, false, 0, vec![]),
        account(8, OTHER, false, 0, vec![]),
    ]
}

fn init_raffle_data() -> Vec<u8> {
    let mut data = vec![0u8];
    data.extend(stored_raffle(0).to_bytes());
    data
}

#[test]
fn init_raffle_plan() {
    let accounts = raffle_accounts(RaffleCounter { initialized: 1, number_of_raffles: 41 }, 250000);
    let plan = Processor::process(&PROGRAM, &accounts, &init_raffle_data()).unwrap();
    let (address, bump) = pda(&[b"raffle", &42u64.to_le_bytes()]);
    assert_eq!(
        plan.commands,
        vec![
            Command::CreateAccount {
                payer: 0,
                account: 1,
                address,
                seed: PdaSeed::Raffle { number: 42 },
                bump,
                lamports: Rent::default().minimum_balance(153),
                space: 153,
                owner: PROGRAM,
            },
            Command::Transfer { from: 0, to: 5, system_program: 7, lamports: 250000 },
            Command::RequestRandomness {
                initializer: 0,
                entropy: 3,
                rng_fee: 4,
                system_program: 7,
                rng_program: 6,
            },
        ]
    );
    let pending = plan.pending.unwrap();
    assert_eq!(pending.counter, RaffleCounter { initialized: 1, number_of_raffles: 42 });
    assert_eq!(pending.rng_program, [7u8; 32]);
    assert_eq!(pending.initializer, [1u8; 32]);
}

#[test]
fn init_raffle_refusals() {
    let data = init_raffle_data();
    let mut accounts = raffle_accounts(RaffleCounter { initialized: 1, number_of_raffles: 0 }, 0);
    assert_eq!(
        Processor::process(&PROGRAM, &accounts, &data).err(),
        Some(ProcessError::Program(RaffleProgramError::InvalidFee))
    );
    accounts = raffle_accounts(RaffleCounter { initialized: 0, number_of_raffles: 0 }, 1);
    assert_eq!(
        Processor::process(&PROGRAM, &accounts, &data).err(),
        Some(ProcessError::Program(RaffleProgramError::InvalidCounter))
    );
    accounts = raffle_accounts(RaffleCounter { initialized: 1, number_of_raffles: u64::MAX }, 1);
    assert_eq!(
        Processor::process(&PROGRAM, &accounts, &data).err(),
        Some(ProcessError::Program(RaffleProgramError::ArithmeticError))
    );
    accounts = raffle_accounts(RaffleCounter { initialized: 1, number_of_raffles: 0 }, 1);
    accounts[0].is_signer = false;
    assert_eq!(
        Processor::process(&PROGRAM, &accounts, &data).err(),
        Some(ProcessError::Program(RaffleProgramError::InvalidAuth))
    );
    accounts[0].is_signer = true;
    accounts[5].owner = OTHER;
    assert_eq!(
        Processor::process(&PROGRAM, &accounts, &data).err(),
        Some(ProcessError::Program(RaffleProgramError::InvalidCounter))
    );
    accounts[5].owner = PROGRAM;
    accounts[2].data = vec![1, 0, 0];
    assert_eq!(
        Processor::process(&PROGRAM, &accounts, &data).err(),
        Some(ProcessError::Codec(CodecError::UnexpectedLength))
    );
}

#[test]
fn draw_winner_stores_raffle_and_counter() {
    let init = stored_raffle(0);
    let pending = PendingRaffle {
        raffle_account: 1,
        counter_account: 2,
        rng_program: [7u8; 32],
        initializer: [1u8; 32],
        init,
        counter: RaffleCounter { initialized: 1, number_of_raffles: 42 },
    };
    let commands =
        Processor::draw_winner(&pending, &[7u8; 32], &RandomNumber { random_number: 1234567 }.to_bytes())
            .unwrap();
    let expected = Raffle {
        participants_hash: [5u8; 32],
        initializer: [1u8; 32],
        raffle_no: 42,
        number_of_participants: 10,
        winner_no: 7,
        winner_wallet: [0u8; 32],
        raffle_name: [6u8; 32],
        is_published: 0,
    };
    assert_eq!(
        commands,
        vec![
            Command::WriteRaffle { account: 1, raffle: expected },
            Command::WriteCounter {
                account: 2,
                counter: RaffleCounter { initialized: 1, number_of_raffles: 42 },
            },
        ]
    );
    assert_eq!(
        Processor::draw_winner(&pending, &[7u8; 32], &[1, 2, 3]),
        Err(ProcessError::Codec(CodecError::UnexpectedLength))
    );
}

#[test]
fn plans_after_the_address_search() {
    assert_eq!(Processor::counter_plan(&PROGRAM, None).err(), Some(ProcessError::NoProgramAddress));
    let plan = Processor::counter_plan(&PROGRAM, Some(([9u8; 32], 250))).unwrap();
    assert_eq!(
        plan.commands[0],
        Command::CreateAccount {
            payer: 0,
            account: 1,
            address: [9u8; 32],
            seed: PdaSeed::Counter,
            bump: 250,
            lamports: 953_520,
            space: 9,
            owner: PROGRAM,
        }
    );

    let init = raffle_program::state::InitPda { bump: 0, lamports: 77, no: 0 };
    assert_eq!(
        Processor::fee_account_plan(&PROGRAM, init, None).err(),
        Some(ProcessError::NoProgramAddress)
    );
    let plan = Processor::fee_account_plan(&PROGRAM, init, Some(([8u8; 32], 3))).unwrap();
    assert_eq!(
        plan.commands,
        vec![
            Command::CreateAccount {
                payer: 0,
                account: 1,
                address: [8u8; 32],
                seed: PdaSeed::Fee,
                bump: 3,
                lamports: 77,
                space: 8,
                owner: PROGRAM,
            },
            Command::WriteFee { account: 1, fee: Fee { fee: 250000 } },
        ]
    );

    let accounts = vec![
        account(1, OTHER, true, 10, vec![]),
        account(2, OTHER, false, 0, vec![]),
        account(3, OTHER, false, 0, vec![]),
        account(4, OTHER, false, 0, vec![]),
        account(9, PROGRAM, false, 0, vec![]),
    ];
    let plan = Processor::config_plan(&accounts, &PROGRAM, Some(([7u8; 32], 1))).unwrap();
    assert_eq!(plan.commands.len(), 1);
    assert_eq!(Processor::config_plan(&accounts, &PROGRAM, None).err(), Some(ProcessError::NoProgramAddress));

    let accounts = raffle_accounts(RaffleCounter { initialized: 1, number_of_raffles: 0 }, 5);
    let next = RaffleCounter { initialized: 1, number_of_raffles: 1 };
    let plan =
        Processor::raffle_plan(&accounts, &PROGRAM, stored_raffle(0), Fee { fee: 5 }, next, Some(([6u8; 32], 9)))
            .unwrap();
    assert_eq!(
        plan.commands[0],
        Command::CreateAccount {
            payer: 0,
            account: 1,
            address: [6u8; 32],
            seed: PdaSeed::Raffle { number: 1 },
            bump: 9,
            lamports: (128 + 153) * 6960,
            space: 153,
            owner: PROGRAM,
        }
    );
    assert_eq!(plan.pending.unwrap().counter, next);
    assert_eq!(
        Processor::raffle_plan(&accounts, &PROGRAM, stored_raffle(0), Fee { fee: 5 }, next, None).err(),
        Some(ProcessError::NoProgramAddress)
    );
}

fn apply_writes(accounts: &mut Vec<AccountInput>, commands: &[Command]) {
    for c in commands {
        let (account, bytes) = match *c {
            Command::WriteRaffle { account, raffle } => (account, raffle.to_bytes()),
            Command::WriteCounter { account, counter } => (account, counter.to_bytes()),
            Command::WriteConfig { account, config } => (account, config.to_bytes()),
            Command::WriteFee { account, fee } => (account, fee.to_bytes()),
            Command::CreateAccount { account, space, .. } => (account, {
                accounts[account].data = vec![0u8; space as usize];
                vec![]
            }),
            _ => continue,
        };
        raffle_program::bytes::write_prefix(&mut accounts[account].data, &bytes).unwrap();
    }
}

#[test]
fn publishing_twice_changes_nothing() {
    let mut accounts = vec![
        account(1, OTHER, true, 0, vec![]),
        account(2, PROGRAM, false, 0, stored_raffle(1).to_bytes()),
        account(3, OTHER, false, 0, vec![]),
    ];
    let plan = Processor::process(&PROGRAM, &accounts, &[1]).unwrap();
    apply_writes(&mut accounts, &plan.commands);
    let after_first = accounts[1].data.clone();
    let plan = Processor::process(&PROGRAM, &accounts, &[1]).unwrap();
    apply_writes(&mut accounts, &plan.commands);
    assert_eq!(accounts[1].data, after_first);
}

#[test]
fn counter_then_two_raffles_take_numbers_one_and_two() {
    let mut counter_accounts =
        vec![account(1, OTHER, true, 10, vec![]), account(3, PROGRAM, false, 0, vec![])];
    let plan = Processor::process(&PROGRAM, &counter_accounts, &[2]).unwrap();
    apply_writes(&mut counter_accounts, &plan.commands);
    assert_eq!(counter_accounts[1].data, vec![1, 0, 0, 0, 0, 0, 0, 0, 0]);

    let mut accounts = raffle_accounts(RaffleCounter { initialized: 1, number_of_raffles: 0 }, 9);
    accounts[2].data = counter_accounts[1].data.clone();
    for expected in 1..=2u64 {
        let plan = Processor::process(&PROGRAM, &accounts, &init_raffle_data()).unwrap();
        let (address, _) = pda(&[b"raffle", &expected.to_le_bytes()]);
        assert!(matches!(plan.commands[0], Command::CreateAccount { address: a, .. } if a == address));
        apply_writes(&mut accounts, &plan.commands);
        let pending = plan.pending.unwrap();
        let finish = Processor::draw_winner(&pending, &[7u8; 32], &5u64.to_le_bytes()).unwrap();
        apply_writes(&mut accounts, &finish);
        assert_eq!(Raffle::try_from_slice(&accounts[1].data).unwrap().raffle_no, expected);
        assert_eq!(
            RaffleCounter::try_from_slice(&accounts[2].data),
            Ok(RaffleCounter { initialized: 1, number_of_raffles: expected })
        );
    }
}

#[test]
fn collecting_moves_lamports_and_keeps_their_sum() {
    let mut accounts = admin_accounts(3, true, 3_100_000);
    let before = accounts[0].lamports + accounts[1].lamports;
    let plan = Processor::process(&PROGRAM, &accounts, &[7]).unwrap();
    for c in &plan.commands {
        if let Command::MoveLamports { from, to, amount } = *c {
            accounts[from].lamports -= amount;
            accounts[to].lamports += amount;
        }
    }
    assert_eq!(accounts[1].lamports, 2_500_000);
    assert_eq!(accounts[0].lamports, 10 + 600_000);
    assert_eq!(accounts[0].lamports + accounts[1].lamports, before);
}
