# raffle_program

A raffle program for the Solana runtime, written in Verus.

- `src/` is the verified library:
  - `error.rs`: the program's error codes and messages, and the failures of processing.
  - `bytes.rs`: little-endian integers, addresses and prefix writes on byte buffers.
  - `state.rs`: the fixed-size layouts of the accounts (raffle, counter, configuration,
    fee) and of instruction payloads, with read-back laws.
  - `instruction.rs`: decoding of instruction data.
  - `pda.rs`: program-derived address seeds, and the two runtime computations the
    program relies on (address derivation, rent-exempt balance).
  - `processor.rs`: what each instruction decides, as a list of steps for the runtime;
    the decisions that follow an address search also stand on their own, taking the
    search's result.
  - `execution.rs`: a model of carrying out those steps on the accounts.
  - `laws.rs`: properties of single instructions (authorization, what publishing and
    creating change, collecting fees keeps the lamports' sum) and of sequences of them
    (successive raffle numbers, the first raffle after the counter's creation, the
    counter created only once, publishing twice).
- `app/` runs those steps against real accounts: cross-program calls, account writes,
  lamport moves, and the conversion of failures into the runtime's errors.
- `tests/` checks concrete scenarios.
