use raffle_program::error::CodecError;
use raffle_program::state::{Config, Fee, InitPda, Raffle, RaffleCounter, RandomNumber};

fn sample_raffle() -> Raffle {
    Raffle {
        participants_hash: [7u8; 32],
        initializer: [1u8; 32],
        raffle_no: 42,
        number_of_participants: 1000,
        winner_no: 17,
        winner_wallet: [9u8; 32],
        raffle_name: [b'a'; 32],
        is_published: 1,
    }
}

#[test]
fn raffle_layout_matches_field_bytes() {
    let r = sample_raffle();
    let bytes = r.to_bytes();
    let mut expected: Vec<u8> = Vec::new();
    expected.extend(borsh::to_vec(&r.participants_hash).unwrap());
    expected.extend(borsh::to_vec(&r.initializer).unwrap());
    expected.extend(borsh::to_vec(&r.raffle_no).unwrap());
    expected.extend(borsh::to_vec(&r.number_of_participants).unwrap());
    expected.extend(borsh::to_vec(&r.winner_no).unwrap());
    expected.extend(borsh::to_vec(&r.winner_wallet).unwrap());
    expected.extend(borsh::to_vec(&r.raffle_name).unwrap());
    expected.extend(borsh::to_vec(&r.is_published).unwrap());
    assert_eq!(bytes.len(), 153);
    assert_eq!(bytes, expected);
    assert_eq!(&bytes[64..72], &[42, 0, 0, 0, 0, 0, 0, 0]);
    assert_eq!(&bytes[72..80], &[0xe8, 0x03, 0, 0, 0, 0, 0, 0]);
}

#[test]
fn raffle_roundtrip() {
    let r = sample_raffle();
    assert_eq!(Raffle::try_from_slice(&r.to_bytes()), Ok(r));
}

#[test]
fn raffle_wrong_lengths() {
    let bytes = sample_raffle().to_bytes();
    assert_eq!(Raffle::try_from_slice(&bytes[..152]), Err(CodecError::UnexpectedLength));
    assert_eq!(Raffle::try_from_slice(&[]), Err(CodecError::UnexpectedLength));
    let mut longer = bytes.clone();
    longer.push(0);
    assert_eq!(Raffle::try_from_slice(&longer), Err(CodecError::NotAllBytesRead));
}

#[test]
fn counter_layout_and_roundtrip() {
    let c = RaffleCounter { initialized: 1, number_of_raffles: 0x0102030405060708 };
    let bytes = c.to_bytes();
    assert_eq!(bytes, vec![1, 8, 7, 6, 5, 4, 3, 2, 1]);
    assert_eq!(RaffleCounter::try_from_slice(&bytes), Ok(c));
    assert_eq!(RaffleCounter::try_from_slice(&bytes[..8]), Err(CodecError::UnexpectedLength));
    assert_eq!(RaffleCounter::try_from_slice(&[0u8; 10]), Err(CodecError::NotAllBytesRead));
}

#[test]
fn config_layout_and_roundtrip() {
    let c = Config {
        authority_1: [1u8; 32],
        authority_2: [2u8; 32],
        authority_3: [3u8; 32],
        authority_4: [4u8; 32],
    };
    let bytes = c.to_bytes();
    assert_eq!(bytes.len(), 128);
    assert_eq!(bytes[0], 1);
    assert_eq!(bytes[32], 2);
    assert_eq!(bytes[64], 3);
    assert_eq!(bytes[127], 4);
    assert_eq!(Config::try_from_slice(&bytes), Ok(c));
    assert_eq!(Config::try_from_slice(&bytes[1..]), Err(CodecError::UnexpectedLength));
}

#[test]
fn small_records_roundtrip() {
    let f = Fee { fee: 250000 };
    assert_eq!(f.to_bytes(), borsh::to_vec(&250000u64).unwrap());
    assert_eq!(Fee::try_from_slice(&f.to_bytes()), Ok(f));
    assert_eq!(Fee::try_from_slice(&[0u8; 9]), Err(CodecError::NotAllBytesRead));

    let n = RandomNumber { random_number: u64::MAX };
    assert_eq!(n.to_bytes(), vec![0xff; 8]);
    assert_eq!(RandomNumber::try_from_slice(&n.to_bytes()), Ok(n));
    assert_eq!(RandomNumber::try_from_slice(&[1, 2, 3]), Err(CodecError::UnexpectedLength));

    let p = InitPda { bump: 254, lamports: 5_000_000, no: 3 };
    let bytes = p.to_bytes();
    assert_eq!(bytes.len(), 10);
    assert_eq!(bytes[0], 254);
    assert_eq!(bytes[9], 3);
    assert_eq!(InitPda::try_from_slice(&bytes), Ok(p));
}

#[test]
fn write_prefix_overwrites_the_start() {
    let mut data = vec![0xaa; 12];
    assert_eq!(raffle_program::bytes::write_prefix(&mut data, &Fee { fee: 1 }.to_bytes()), Ok(()));
    assert_eq!(data, vec![1, 0, 0, 0, 0, 0, 0, 0, 0xaa, 0xaa, 0xaa, 0xaa]);
    let mut short = vec![5u8; 3];
    assert_eq!(
        raffle_program::bytes::write_prefix(&mut short, &Fee { fee: 1 }.to_bytes()),
        Err(CodecError::WriteZero)
    );
    assert_eq!(short, vec![5u8; 3]);
}

#[test]
fn same_key_compares_all_bytes() {
    let a = [3u8; 32];
    let mut b = [3u8; 32];
    assert!(raffle_program::bytes::same_key(&a, &b));
    b[31] = 4;
    assert!(!raffle_program::bytes::same_key(&a, &b));
}
