use vstd::prelude::*;
use crate::bytes::{le_bytes, push_u64};

verus! {

/// The seeds from which the program derives the addresses of its own accounts.
#[derive(Debug, Clone, Copy, PartialEq, Eq)]
pub enum PdaSeed {
    /// The account of the raffle with the given number.
    Raffle { number: u64 },
    /// The raffle counter.
    Counter,
    /// The configuration account.
    Config,
    /// The fee account.
    Fee,
}

/// The bytes of the word "raffle".
pub open spec fn raffle_word() -> Seq<u8> {
    seq![114u8, 97u8, 102u8, 102u8, 108u8, 101u8]
}

/// The bytes of the word "counter".
pub open spec fn counter_word() -> Seq<u8> {
    seq![99u8, 111u8, 117u8, 110u8, 116u8, 101u8, 114u8]
}

/// The bytes of the word "config".
pub open spec fn config_word() -> Seq<u8> {
    seq![99u8, 111u8, 110u8, 102u8, 105u8, 103u8]
}

/// The bytes of the word "fee".
pub open spec fn fee_word() -> Seq<u8> {
    seq![102u8, 101u8, 101u8]
}

impl PdaSeed {
    /// The seed byte strings: a word naming the account, and for a raffle the
    /// little-endian bytes of its number.
    pub open spec fn seeds(self) -> Seq<Seq<u8>> {
        match self {
            PdaSeed::Raffle { number } => seq![raffle_word(), le_bytes(number)],
            PdaSeed::Counter => seq![counter_word()],
            PdaSeed::Config => seq![config_word()],
            PdaSeed::Fee => seq![fee_word()],
        }
    }

    /// The seed byte strings (see `seeds`).
    pub fn to_seeds(&self) -> (r: Vec<Vec<u8>>)
        ensures
            r.deep_view() == self.seeds(),
    {
        let mut r: Vec<Vec<u8>> = Vec::new();
        match self {
            PdaSeed::Raffle { number } => {
                r.push(vec![114u8, 97u8, 102u8, 102u8, 108u8, 101u8]);
                let mut n: Vec<u8> = Vec::new();
                push_u64(&mut n, *number);
                r.push(n);
                assert(r@[0].deep_view() =~= raffle_word());
                assert(r@[1].deep_view() =~= le_bytes(*number));
            },
            PdaSeed::Counter => {
                r.push(vec![99u8, 111u8, 117u8, 110u8, 116u8, 101u8, 114u8]);
                assert(r@[0].deep_view() =~= counter_word());
            },
            PdaSeed::Config => {
                r.push(vec![99u8, 111u8, 110u8, 102u8, 105u8, 103u8]);
                assert(r@[0].deep_view() =~= config_word());
            },
            PdaSeed::Fee => {
                r.push(vec![102u8, 101u8, 101u8]);
                assert(r@[0].deep_view() =~= fee_word());
            },
        }
        assert(r.deep_view() =~= self.seeds());
        r
    }
}

/// The program-derived address and bump seed that the address search finds for
/// the given seeds and program, if it finds one.
pub uninterp spec fn program_address(seeds: Seq<Seq<u8>>, program_id: Seq<u8>) -> Option<(Seq<u8>, u8)>;

/// Calls `solana_program::pubkey::Pubkey::try_find_program_address`, which searches
/// the bump seeds from 255 down for the first whose derived address lies off the
/// curve. Claimed: its answer is a function of the seeds and the program id alone,
/// named `program_address`. What that function is (a SHA-256 based derivation) is
/// left unsaid.
#[verifier::external_body]
pub(crate) fn find_program_address(seeds: &Vec<Vec<u8>>, program_id: &[u8; 32]) -> (r: Option<
    ([u8; 32], u8),
>)
    ensures
        match r {
            Some((address, bump)) => program_address(seeds.deep_view(), program_id@) == Some(
                (address@, bump),
            ),
            None => program_address(seeds.deep_view(), program_id@) is None,
        },
{
    let seeds: Vec<&[u8]> = seeds.iter().map(|s| s.as_slice()).collect();
    let program_id = solana_program::pubkey::Pubkey::new_from_array(*program_id);
    solana_program::pubkey::Pubkey::try_find_program_address(&seeds, &program_id).map(
        |(address, bump)| (address.to_bytes(), bump),
    )
}

/// Largest account data length that the runtime allows.
pub const MAX_DATA_LEN: usize = 10485760;

/// Lamports that make an account of `data_len` bytes exempt from rent under the
/// default rent parameters: 128 bytes of overhead, 3480 lamports per byte-year,
/// two years.
pub open spec fn rent_exempt_balance(data_len: int) -> int {
    (128 + data_len) * 3480 * 2
}

/// Calls `solana_program::rent::Rent::default().minimum_balance(data_len)`, which
/// computes `((128 + data_len) * 3480) as f64 * 2.0` and truncates it to `u64`.
/// Claimed: for lengths up to the runtime's maximum the product is exact, so the
/// result is `rent_exempt_balance(data_len)`.
#[verifier::external_body]
pub(crate) fn minimum_balance(data_len: usize) -> (r: u64)
    requires
        data_len <= MAX_DATA_LEN,
    ensures
        r == rent_exempt_balance(data_len as int),
{
    solana_program::rent::Rent::default().minimum_balance(data_len)
}

} // verus!
