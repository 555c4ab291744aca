use borsh::BorshDeserialize;
use raffle_program::error::{CodecError, RaffleProgramError};

#[test]
fn error_codes_follow_declaration_order() {
    let all = [
        RaffleProgramError::InvalidInstruction,
        RaffleProgramError::ArithmeticError,
        RaffleProgramError::InvalidCounter,
        RaffleProgramError::InvalidAuth,
        RaffleProgramError::InvalidRaffle,
        RaffleProgramError::InitializerNotSigner,
        RaffleProgramError::InvalidConfig,
        RaffleProgramError::NotSignerAuth,
        RaffleProgramError::InvalidInitializer,
        RaffleProgramError::InvalidFee,
    ];
    for (i, e) in all.iter().enumerate() {
        assert_eq!(e.code(), i as u32);
    }
}

#[test]
fn error_messages() {
    assert_eq!(RaffleProgramError::InvalidInstruction.message(), "Invalid Instruction");
    assert_eq!(RaffleProgramError::InvalidAuth.message(), "invalid authhority account");
    assert_eq!(RaffleProgramError::NotSignerAuth.message(), "authority not signer ");
    assert_eq!(RaffleProgramError::InvalidFee.message(), "invalid fee");
}

#[test]
fn codec_messages() {
    assert_eq!(CodecError::UnexpectedLength.message(), "Unexpected length of input");
    assert_eq!(CodecError::NotAllBytesRead.message(), "Not all bytes read");
    assert_eq!(CodecError::WriteZero.message(), "failed to write whole buffer");
}

#[test]
fn codec_messages_match_borsh() {
    let short = u64::try_from_slice(&[1, 2]).unwrap_err();
    assert_eq!(short.to_string(), CodecError::UnexpectedLength.message());
    let long = u64::try_from_slice(&[0u8; 9]).unwrap_err();
    assert_eq!(long.to_string(), CodecError::NotAllBytesRead.message());
}
