use vstd::prelude::*;
use crate::bytes::{
    le_bytes, le_value, lemma_le_bytes, push_bytes, push_u64, read_key, read_u64, slice_fault,
};
use crate::error::CodecError;

verus! {

// Account and instruction layouts: fields in declaration order, integers
// little-endian, addresses and names as their 32 raw bytes.

/// Number of bytes of a stored raffle.
pub const RAFFLE_SIZE: usize = 153;
/// Number of bytes of the raffle counter.
pub const COUNTER_SIZE: usize = 9;
/// Number of bytes of the configuration account.
pub const CONFIG_SIZE: usize = 128;
/// Number of bytes of a random number handed back by the randomness program.
pub const RANDOM_NUMBER_SIZE: usize = 8;
/// Number of bytes of the fee account's initialisation parameters.
pub const INIT_PDA_SIZE: usize = 10;
/// Number of bytes of the fee account.
pub const FEE_SIZE: usize = 8;

/// A raffle as stored in its account.
#[derive(Debug, Clone, Copy, PartialEq, Eq)]
pub struct Raffle {
    pub participants_hash: [u8; 32],
    pub initializer: [u8; 32],
    pub raffle_no: u64,
    pub number_of_participants: u64,
    pub winner_no: u64,
    pub winner_wallet: [u8; 32],
    pub raffle_name: [u8; 32],
    pub is_published: u8,
}

/// A raffle with its byte arrays seen as sequences.
pub struct RaffleModel {
    pub participants_hash: Seq<u8>,
    pub initializer: Seq<u8>,
    pub raffle_no: u64,
    pub number_of_participants: u64,
    pub winner_no: u64,
    pub winner_wallet: Seq<u8>,
    pub raffle_name: Seq<u8>,
    pub is_published: u8,
}

impl View for Raffle {
    type V = RaffleModel;

    open spec fn view(&self) -> RaffleModel {
        RaffleModel {
            participants_hash: self.participants_hash@,
            initializer: self.initializer@,
            raffle_no: self.raffle_no,
            number_of_participants: self.number_of_participants,
            winner_no: self.winner_no,
            winner_wallet: self.winner_wallet@,
            raffle_name: self.raffle_name@,
            is_published: self.is_published,
        }
    }
}

impl RaffleModel {
    /// Each byte array holds 32 bytes.
    pub open spec fn wf(self) -> bool {
        &&& self.participants_hash.len() == 32
        &&& self.initializer.len() == 32
        &&& self.winner_wallet.len() == 32
        &&& self.raffle_name.len() == 32
    }

    /// The stored bytes of the raffle.
    pub open spec fn layout(self) -> Seq<u8> {
        self.participants_hash + self.initializer + le_bytes(self.raffle_no) + le_bytes(
            self.number_of_participants,
        ) + le_bytes(self.winner_no) + self.winner_wallet + self.raffle_name + seq![
            self.is_published,
        ]
    }

    /// The raffle whose layout is the given bytes.
    pub open spec fn parse(s: Seq<u8>) -> RaffleModel {
        RaffleModel {
            participants_hash: s.subrange(0, 32),
            initializer: s.subrange(32, 64),
            raffle_no: le_value(s.subrange(64, 72)),
            number_of_participants: le_value(s.subrange(72, 80)),
            winner_no: le_value(s.subrange(80, 88)),
            winner_wallet: s.subrange(88, 120),
            raffle_name: s.subrange(120, 152),
            is_published: s[152],
        }
    }

    /// Reading a raffle from exactly the given bytes.
    pub open spec fn from_slice(s: Seq<u8>) -> Result<RaffleModel, CodecError> {
        match slice_fault(s.len() as int, RAFFLE_SIZE as int) {
            Some(e) => Err(e),
            None => Ok(RaffleModel::parse(s)),
        }
    }
}

/// The counter of raffles created so far.
#[derive(Debug, Clone, Copy, PartialEq, Eq)]
pub struct RaffleCounter {
    pub initialized: u8,
    pub number_of_raffles: u64,
}

impl RaffleCounter {
    /// The stored bytes of the counter.
    pub open spec fn layout(self) -> Seq<u8> {
        seq![self.initialized] + le_bytes(self.number_of_raffles)
    }

    /// The counter whose layout is the given bytes.
    pub open spec fn parse(s: Seq<u8>) -> RaffleCounter {
        RaffleCounter { initialized: s[0], number_of_raffles: le_value(s.subrange(1, 9)) }
    }

    /// Reading a counter from exactly the given bytes.
    pub open spec fn from_slice(s: Seq<u8>) -> Result<RaffleCounter, CodecError> {
        match slice_fault(s.len() as int, COUNTER_SIZE as int) {
            Some(e) => Err(e),
            None => Ok(RaffleCounter::parse(s)),
        }
    }
}

/// The four authorities that may administer the program.
#[derive(Debug, Clone, Copy, PartialEq, Eq)]
pub struct Config {
    pub authority_1: [u8; 32],
    pub authority_2: [u8; 32],
    pub authority_3: [u8; 32],
    pub authority_4: [u8; 32],
}

/// The configuration with its addresses seen as sequences.
pub struct ConfigModel {
    pub authority_1: Seq<u8>,
    pub authority_2: Seq<u8>,
    pub authority_3: Seq<u8>,
    pub authority_4: Seq<u8>,
}

impl View for Config {
    type V = ConfigModel;

    open spec fn view(&self) -> ConfigModel {
        ConfigModel {
            authority_1: self.authority_1@,
            authority_2: self.authority_2@,
            authority_3: self.authority_3@,
            authority_4: self.authority_4@,
        }
    }
}

impl ConfigModel {
    /// Each address holds 32 bytes.
    pub open spec fn wf(self) -> bool {
        &&& self.authority_1.len() == 32
        &&& self.authority_2.len() == 32
        &&& self.authority_3.len() == 32
        &&& self.authority_4.len() == 32
    }

    /// Whether `key` is one of the four authorities.
    pub open spec fn lists(self, key: Seq<u8>) -> bool {
        key == self.authority_1 || key == self.authority_2 || key == self.authority_3 || key
            == self.authority_4
    }

    /// The stored bytes of the configuration.
    pub open spec fn layout(self) -> Seq<u8> {
        self.authority_1 + self.authority_2 + self.authority_3 + self.authority_4
    }

    /// The configuration whose layout is the given bytes.
    pub open spec fn parse(s: Seq<u8>) -> ConfigModel {
        ConfigModel {
            authority_1: s.subrange(0, 32),
            authority_2: s.subrange(32, 64),
            authority_3: s.subrange(64, 96),
            authority_4: s.subrange(96, 128),
        }
    }

    /// Reading a configuration from exactly the given bytes.
    pub open spec fn from_slice(s: Seq<u8>) -> Result<ConfigModel, CodecError> {
        match slice_fault(s.len() as int, CONFIG_SIZE as int) {
            Some(e) => Err(e),
            None => Ok(ConfigModel::parse(s)),
        }
    }
}

/// The random number that the randomness program hands back.
#[derive(Debug, Clone, Copy, PartialEq, Eq)]
pub struct RandomNumber {
    pub random_number: u64,
}

impl RandomNumber {
    /// The bytes of the random number.
    pub open spec fn layout(self) -> Seq<u8> {
        le_bytes(self.random_number)
    }

    /// Reading a random number from exactly the given bytes.
    pub open spec fn from_slice(s: Seq<u8>) -> Result<RandomNumber, CodecError> {
        match slice_fault(s.len() as int, RANDOM_NUMBER_SIZE as int) {
            Some(e) => Err(e),
            None => Ok(RandomNumber { random_number: le_value(s) }),
        }
    }
}

/// Parameters for creating the fee account.
#[derive(Debug, Clone, Copy, PartialEq, Eq)]
pub struct InitPda {
    pub bump: u8,
    pub lamports: u64,
    pub no: u8,
}

impl InitPda {
    /// The bytes of the parameters.
    pub open spec fn layout(self) -> Seq<u8> {
        seq![self.bump] + le_bytes(self.lamports) + seq![self.no]
    }

    /// Reading the parameters from exactly the given bytes.
    pub open spec fn from_slice(s: Seq<u8>) -> Result<InitPda, CodecError> {
        match slice_fault(s.len() as int, INIT_PDA_SIZE as int) {
            Some(e) => Err(e),
            None => Ok(InitPda { bump: s[0], lamports: le_value(s.subrange(1, 9)), no: s[9] }),
        }
    }
}

/// The fee, in lamports, that creating a raffle costs.
#[derive(Debug, Clone, Copy, PartialEq, Eq)]
pub struct Fee {
    pub fee: u64,
}

impl Fee {
    /// The stored bytes of the fee.
    pub open spec fn layout(self) -> Seq<u8> {
        le_bytes(self.fee)
    }

    /// Reading a fee from exactly the given bytes.
    pub open spec fn from_slice(s: Seq<u8>) -> Result<Fee, CodecError> {
        match slice_fault(s.len() as int, FEE_SIZE as int) {
            Some(e) => Err(e),
            None => Ok(Fee { fee: le_value(s) }),
        }
    }
}


impl Raffle {
    /// Reads a raffle from exactly its stored bytes.
    pub fn try_from_slice(bytes: &[u8]) -> (r: Result<Raffle, CodecError>)
        ensures
            match r {
                Ok(v) => RaffleModel::from_slice(bytes@) == Ok::<RaffleModel, CodecError>(v@),
                Err(e) => RaffleModel::from_slice(bytes@) == Err::<RaffleModel, CodecError>(e),
            },
    {
        if bytes.len() < RAFFLE_SIZE {
            return Err(CodecError::UnexpectedLength);
        }
        if bytes.len() > RAFFLE_SIZE {
            return Err(CodecError::NotAllBytesRead);
        }
        let r = Raffle {
            participants_hash: read_key(bytes, 0),
            initializer: read_key(bytes, 32),
            raffle_no: read_u64(bytes, 64),
            number_of_participants: read_u64(bytes, 72),
            winner_no: read_u64(bytes, 80),
            winner_wallet: read_key(bytes, 88),
            raffle_name: read_key(bytes, 120),
            is_published: bytes[152],
        };
        assert(r@ == RaffleModel::parse(bytes@));
        Ok(r)
    }

    /// The stored bytes of the raffle.
    pub fn to_bytes(&self) -> (v: Vec<u8>)
        ensures
            v@ == self@.layout(),
    {
        let mut v: Vec<u8> = Vec::new();
        push_bytes(&mut v, self.participants_hash.as_slice());
        push_bytes(&mut v, self.initializer.as_slice());
        push_u64(&mut v, self.raffle_no);
        push_u64(&mut v, self.number_of_participants);
        push_u64(&mut v, self.winner_no);
        push_bytes(&mut v, self.winner_wallet.as_slice());
        push_bytes(&mut v, self.raffle_name.as_slice());
        v.push(self.is_published);
        assert(v@ =~= self@.layout());
        v
    }
}

/// Reading back the stored bytes of a raffle gives that raffle.
pub proof fn lemma_raffle_roundtrip(m: RaffleModel)
    requires
        m.wf(),
    ensures
        m.layout().len() == RAFFLE_SIZE,
        RaffleModel::from_slice(m.layout()) == Ok::<RaffleModel, CodecError>(m),
{
    lemma_le_bytes(m.raffle_no, Seq::empty());
    lemma_le_bytes(m.number_of_participants, Seq::empty());
    lemma_le_bytes(m.winner_no, Seq::empty());
    let s = m.layout();
    assert(s.subrange(0, 32) =~= m.participants_hash);
    assert(s.subrange(32, 64) =~= m.initializer);
    assert(s.subrange(64, 72) =~= le_bytes(m.raffle_no));
    assert(s.subrange(72, 80) =~= le_bytes(m.number_of_participants));
    assert(s.subrange(80, 88) =~= le_bytes(m.winner_no));
    assert(s.subrange(88, 120) =~= m.winner_wallet);
    assert(s.subrange(120, 152) =~= m.raffle_name);
    assert(RaffleModel::parse(s) =~= m);
}

/// Any 153 bytes are the stored bytes of exactly one raffle.
pub proof fn lemma_raffle_parse_exact(s: Seq<u8>)
    requires
        s.len() == RAFFLE_SIZE,
    ensures
        RaffleModel::parse(s).wf(),
        RaffleModel::parse(s).layout() == s,
{
    lemma_le_bytes(0, s.subrange(64, 72));
    lemma_le_bytes(0, s.subrange(72, 80));
    lemma_le_bytes(0, s.subrange(80, 88));
    assert(RaffleModel::parse(s).layout() =~= s);
}

impl RaffleCounter {
    /// Reads a counter from exactly its stored bytes.
    pub fn try_from_slice(bytes: &[u8]) -> (r: Result<RaffleCounter, CodecError>)
        ensures
            r == RaffleCounter::from_slice(bytes@),
    {
        if bytes.len() < COUNTER_SIZE {
            return Err(CodecError::UnexpectedLength);
        }
        if bytes.len() > COUNTER_SIZE {
            return Err(CodecError::NotAllBytesRead);
        }
        Ok(RaffleCounter { initialized: bytes[0], number_of_raffles: read_u64(bytes, 1) })
    }

    /// The stored bytes of the counter.
    pub fn to_bytes(&self) -> (v: Vec<u8>)
        ensures
            v@ == self.layout(),
    {
        let mut v: Vec<u8> = Vec::new();
        v.push(self.initialized);
        push_u64(&mut v, self.number_of_raffles);
        assert(v@ =~= self.layout());
        v
    }
}

/// Reading back the stored bytes of a counter gives that counter.
pub proof fn lemma_counter_roundtrip(c: RaffleCounter)
    ensures
        c.layout().len() == COUNTER_SIZE,
        RaffleCounter::from_slice(c.layout()) == Ok::<RaffleCounter, CodecError>(c),
{
    lemma_le_bytes(c.number_of_raffles, Seq::empty());
    assert(c.layout().subrange(1, 9) =~= le_bytes(c.number_of_raffles));
}

/// Any 9 bytes are the stored bytes of exactly one counter.
pub proof fn lemma_counter_parse_exact(s: Seq<u8>)
    requires
        s.len() == COUNTER_SIZE,
    ensures
        RaffleCounter::parse(s).layout() == s,
{
    lemma_le_bytes(0, s.subrange(1, 9));
    assert(RaffleCounter::parse(s).layout() =~= s);
}

impl Config {
    /// Reads a configuration from exactly its stored bytes.
    pub fn try_from_slice(bytes: &[u8]) -> (r: Result<Config, CodecError>)
        ensures
            match r {
                Ok(v) => ConfigModel::from_slice(bytes@) == Ok::<ConfigModel, CodecError>(v@),
                Err(e) => ConfigModel::from_slice(bytes@) == Err::<ConfigModel, CodecError>(e),
            },
    {
        if bytes.len() < CONFIG_SIZE {
            return Err(CodecError::UnexpectedLength);
        }
        if bytes.len() > CONFIG_SIZE {
            return Err(CodecError::NotAllBytesRead);
        }
        let c = Config {
            authority_1: read_key(bytes, 0),
            authority_2: read_key(bytes, 32),
            authority_3: read_key(bytes, 64),
            authority_4: read_key(bytes, 96),
        };
        assert(c@ == ConfigModel::parse(bytes@));
        Ok(c)
    }

    /// The stored bytes of the configuration.
    pub fn to_bytes(&self) -> (v: Vec<u8>)
        ensures
            v@ == self@.layout(),
    {
        let mut v: Vec<u8> = Vec::new();
        push_bytes(&mut v, self.authority_1.as_slice());
        push_bytes(&mut v, self.authority_2.as_slice());
        push_bytes(&mut v, self.authority_3.as_slice());
        push_bytes(&mut v, self.authority_4.as_slice());
        assert(v@ =~= self@.layout());
        v
    }
}

/// Reading back the stored bytes of a configuration gives that configuration.
pub proof fn lemma_config_roundtrip(m: ConfigModel)
    requires
        m.wf(),
    ensures
        m.layout().len() == CONFIG_SIZE,
        ConfigModel::from_slice(m.layout()) == Ok::<ConfigModel, CodecError>(m),
{
    let s = m.layout();
    assert(s.subrange(0, 32) =~= m.authority_1);
    assert(s.subrange(32, 64) =~= m.authority_2);
    assert(s.subrange(64, 96) =~= m.authority_3);
    assert(s.subrange(96, 128) =~= m.authority_4);
}

/// Any 128 bytes are the stored bytes of exactly one configuration.
pub proof fn lemma_config_parse_exact(s: Seq<u8>)
    requires
        s.len() == CONFIG_SIZE,
    ensures
        ConfigModel::parse(s).wf(),
        ConfigModel::parse(s).layout() == s,
{
    assert(ConfigModel::parse(s).layout() =~= s);
}

impl RandomNumber {
    /// Reads a random number from exactly its eight bytes.
    pub fn try_from_slice(bytes: &[u8]) -> (r: Result<RandomNumber, CodecError>)
        ensures
            r == RandomNumber::from_slice(bytes@),
    {
        if bytes.len() < RANDOM_NUMBER_SIZE {
            return Err(CodecError::UnexpectedLength);
        }
        if bytes.len() > RANDOM_NUMBER_SIZE {
            return Err(CodecError::NotAllBytesRead);
        }
        let x = read_u64(bytes, 0);
        assert(bytes@.subrange(0, 8) =~= bytes@);
        Ok(RandomNumber { random_number: x })
    }

    /// The bytes of the random number.
    pub fn to_bytes(&self) -> (v: Vec<u8>)
        ensures
            v@ == self.layout(),
    {
        let mut v: Vec<u8> = Vec::new();
        push_u64(&mut v, self.random_number);
        assert(v@ =~= self.layout());
        v
    }
}

/// Reading back the bytes of a random number gives that number.
pub proof fn lemma_random_number_roundtrip(r: RandomNumber)
    ensures
        r.layout().len() == RANDOM_NUMBER_SIZE,
        RandomNumber::from_slice(r.layout()) == Ok::<RandomNumber, CodecError>(r),
{
    lemma_le_bytes(r.random_number, Seq::empty());
}

impl InitPda {
    /// Reads the parameters from exactly their ten bytes.
    pub fn try_from_slice(bytes: &[u8]) -> (r: Result<InitPda, CodecError>)
        ensures
            r == InitPda::from_slice(bytes@),
    {
        if bytes.len() < INIT_PDA_SIZE {
            return Err(CodecError::UnexpectedLength);
        }
        if bytes.len() > INIT_PDA_SIZE {
            return Err(CodecError::NotAllBytesRead);
        }
        Ok(InitPda { bump: bytes[0], lamports: read_u64(bytes, 1), no: bytes[9] })
    }

    /// The bytes of the parameters.
    pub fn to_bytes(&self) -> (v: Vec<u8>)
        ensures
            v@ == self.layout(),
    {
        let mut v: Vec<u8> = Vec::new();
        v.push(self.bump);
        push_u64(&mut v, self.lamports);
        v.push(self.no);
        assert(v@ =~= self.layout());
        v
    }
}

/// Reading back the bytes of the parameters gives those parameters.
pub proof fn lemma_init_pda_roundtrip(p: InitPda)
    ensures
        p.layout().len() == INIT_PDA_SIZE,
        InitPda::from_slice(p.layout()) == Ok::<InitPda, CodecError>(p),
{
    lemma_le_bytes(p.lamports, Seq::empty());
    assert(p.layout().subrange(1, 9) =~= le_bytes(p.lamports));
}

impl Fee {
    /// Reads a fee from exactly its eight bytes.
    pub fn try_from_slice(bytes: &[u8]) -> (r: Result<Fee, CodecError>)
        ensures
            r == Fee::from_slice(bytes@),
    {
        if bytes.len() < FEE_SIZE {
            return Err(CodecError::UnexpectedLength);
        }
        if bytes.len() > FEE_SIZE {
            return Err(CodecError::NotAllBytesRead);
        }
        let x = read_u64(bytes, 0);
        assert(bytes@.subrange(0, 8) =~= bytes@);
        Ok(Fee { fee: x })
    }

    /// The stored bytes of the fee.
    pub fn to_bytes(&self) -> (v: Vec<u8>)
        ensures
            v@ == self.layout(),
    {
        let mut v: Vec<u8> = Vec::new();
        push_u64(&mut v, self.fee);
        assert(v@ =~= self.layout());
        v
    }
}

/// Reading back the stored bytes of a fee gives that fee.
pub proof fn lemma_fee_roundtrip(f: Fee)
    ensures
        f.layout().len() == FEE_SIZE,
        Fee::from_slice(f.layout()) == Ok::<Fee, CodecError>(f),
{
    lemma_le_bytes(f.fee, Seq::empty());
}

} // verus!
