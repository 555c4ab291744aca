use raffle_program::error::{CodecError, ProcessError, RaffleProgramError};
use raffle_program::instruction::RaffleProgramInstruction;
use raffle_program::state::{Fee, InitPda, Raffle};

#[test]
fn unpack_unit_instructions() {
    assert_eq!(RaffleProgramInstruction::unpack(&[1]), Ok(RaffleProgramInstruction::PublishWinner));
    assert_eq!(RaffleProgramInstruction::unpack(&[2]), Ok(RaffleProgramInstruction::InitCounter));
    assert_eq!(RaffleProgramInstruction::unpack(&[4]), Ok(RaffleProgramInstruction::InitConfig));
    assert_eq!(RaffleProgramInstruction::unpack(&[5, 9, 9]), Ok(RaffleProgramInstruction::SetConfig));
    assert_eq!(RaffleProgramInstruction::unpack(&[7]), Ok(RaffleProgramInstruction::CollectFee));
}

#[test]
fn unpack_rejects_empty_and_unknown() {
    let invalid = Err(ProcessError::Program(RaffleProgramError::InvalidInstruction));
    assert_eq!(RaffleProgramInstruction::unpack(&[]), invalid);
    assert_eq!(RaffleProgramInstruction::unpack(&[8]), invalid);
    assert_eq!(RaffleProgramInstruction::unpack(&[255, 0]), invalid);
}

#[test]
fn unpack_payloads() {
    let raffle = Raffle {
        participants_hash: [1u8; 32],
        initializer: [0u8; 32],
        raffle_no: 0,
        number_of_participants: 10,
        winner_no: 0,
        winner_wallet: [0u8; 32],
        raffle_name: [2u8; 32],
        is_published: 0,
    };
    let mut data = vec![0u8];
    data.extend(raffle.to_bytes());
    assert_eq!(
        RaffleProgramInstruction::unpack(&data),
        Ok(RaffleProgramInstruction::InitRaffle { init_raffle: raffle })
    );

    let mut data = vec![3u8];
    data.extend(InitPda { bump: 1, lamports: 77, no: 2 }.to_bytes());
    assert_eq!(
        RaffleProgramInstruction::unpack(&data),
        Ok(RaffleProgramInstruction::InitFee { data: InitPda { bump: 1, lamports: 77, no: 2 } })
    );

    assert_eq!(
        RaffleProgramInstruction::unpack(&[6, 0x10, 0x27, 0, 0, 0, 0, 0, 0]),
        Ok(RaffleProgramInstruction::UpdateFee { data: Fee { fee: 10000 } })
    );
}

#[test]
fn unpack_payload_errors() {
    assert_eq!(
        RaffleProgramInstruction::unpack(&[0, 1, 2]),
        Err(ProcessError::Codec(CodecError::UnexpectedLength))
    );
    assert_eq!(
        RaffleProgramInstruction::unpack(&[6, 0, 0, 0, 0, 0, 0, 0, 0, 0]),
        Err(ProcessError::Codec(CodecError::NotAllBytesRead))
    );
    assert_eq!(
        RaffleProgramInstruction::unpack(&[3]),
        Err(ProcessError::Codec(CodecError::UnexpectedLength))
    );
}
