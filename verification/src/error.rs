use vstd::prelude::*;

verus! {

/// Errors that the raffle program reports through the runtime's custom error code.
#[derive(Debug, Copy, Clone, PartialEq, Eq)]
pub enum RaffleProgramError {
    /// Invalid Instruction
    InvalidInstruction,
    ArithmeticError,
    InvalidCounter,
    InvalidAuth,
    InvalidRaffle,
    InitializerNotSigner,
    InvalidConfig,
    NotSignerAuth,
    InvalidInitializer,
    InvalidFee,
}

/// The custom error code of each variant: its position in the declaration.
pub open spec fn spec_error_code(e: RaffleProgramError) -> u32 {
    match e {
        RaffleProgramError::InvalidInstruction => 0,
        RaffleProgramError::ArithmeticError => 1,
        RaffleProgramError::InvalidCounter => 2,
        RaffleProgramError::InvalidAuth => 3,
        RaffleProgramError::InvalidRaffle => 4,
        RaffleProgramError::InitializerNotSigner => 5,
        RaffleProgramError::InvalidConfig => 6,
        RaffleProgramError::NotSignerAuth => 7,
        RaffleProgramError::InvalidInitializer => 8,
        RaffleProgramError::InvalidFee => 9,
    }
}

/// The text under which each error is described.
pub open spec fn spec_error_message(e: RaffleProgramError) -> Seq<char> {
    match e {
        RaffleProgramError::InvalidInstruction => "Invalid Instruction"@,
        RaffleProgramError::ArithmeticError => "arithmetic error"@,
        RaffleProgramError::InvalidCounter => "counter account is invalid"@,
        RaffleProgramError::InvalidAuth => "invalid authhority account"@,
        RaffleProgramError::InvalidRaffle => "raffle account is invalid"@,
        RaffleProgramError::InitializerNotSigner => "initializer account is not signer"@,
        RaffleProgramError::InvalidConfig => "invalid config account"@,
        RaffleProgramError::NotSignerAuth => "authority not signer "@,
        RaffleProgramError::InvalidInitializer => "initializer account is not valid "@,
        RaffleProgramError::InvalidFee => "invalid fee"@,
    }
}

/// Different errors are reported under different codes, each below ten.
pub proof fn lemma_error_codes_distinct(e1: RaffleProgramError, e2: RaffleProgramError)
    ensures
        spec_error_code(e1) < 10,
        spec_error_code(e1) == spec_error_code(e2) ==> e1 == e2,
{
}

impl RaffleProgramError {
    /// The text that describes this error.
    pub fn message(&self) -> (r: &'static str)
        ensures
            r@ == spec_error_message(*self),
    {
        match self {
            RaffleProgramError::InvalidInstruction => "Invalid Instruction",
            RaffleProgramError::ArithmeticError => "arithmetic error",
            RaffleProgramError::InvalidCounter => "counter account is invalid",
            RaffleProgramError::InvalidAuth => "invalid authhority account",
            RaffleProgramError::InvalidRaffle => "raffle account is invalid",
            RaffleProgramError::InitializerNotSigner => "initializer account is not signer",
            RaffleProgramError::InvalidConfig => "invalid config account",
            RaffleProgramError::NotSignerAuth => "authority not signer ",
            RaffleProgramError::InvalidInitializer => "initializer account is not valid ",
            RaffleProgramError::InvalidFee => "invalid fee",
        }
    }

    /// The code under which the runtime reports this error (`Custom(code)`).
    pub fn code(&self) -> (r: u32)
        ensures
            r == spec_error_code(*self),
    {
        match self {
            RaffleProgramError::InvalidInstruction => 0,
            RaffleProgramError::ArithmeticError => 1,
            RaffleProgramError::InvalidCounter => 2,
            RaffleProgramError::InvalidAuth => 3,
            RaffleProgramError::InvalidRaffle => 4,
            RaffleProgramError::InitializerNotSigner => 5,
            RaffleProgramError::InvalidConfig => 6,
            RaffleProgramError::NotSignerAuth => 7,
            RaffleProgramError::InvalidInitializer => 8,
            RaffleProgramError::InvalidFee => 9,
        }
    }
}

} // verus!

verus! {

/// Failures of reading or writing one of the program's fixed-size layouts.
#[derive(Debug, Copy, Clone, PartialEq, Eq)]
pub enum CodecError {
    /// The input holds fewer bytes than the layout.
    UnexpectedLength,
    /// Bytes are left over after the layout was read.
    NotAllBytesRead,
    /// The destination is shorter than the layout.
    WriteZero,
}

/// The text under which each codec failure is reported.
pub open spec fn spec_codec_message(e: CodecError) -> Seq<char> {
    match e {
        CodecError::UnexpectedLength => "Unexpected length of input"@,
        CodecError::NotAllBytesRead => "Not all bytes read"@,
        CodecError::WriteZero => "failed to write whole buffer"@,
    }
}

impl CodecError {
    /// The text under which this failure is reported.
    pub fn message(&self) -> (r: &'static str)
        ensures
            r@ == spec_codec_message(*self),
    {
        match self {
            CodecError::UnexpectedLength => "Unexpected length of input",
            CodecError::NotAllBytesRead => "Not all bytes read",
            CodecError::WriteZero => "failed to write whole buffer",
        }
    }
}

/// Every way in which processing an instruction can fail inside the program.
#[derive(Debug, Copy, Clone, PartialEq, Eq)]
pub enum ProcessError {
    /// One of the program's own errors, reported as a custom error code.
    Program(RaffleProgramError),
    /// Fewer accounts were passed than the instruction reads.
    NotEnoughAccountKeys,
    /// Instruction data or account data did not fit its layout.
    Codec(CodecError),
    /// No bump seed gives an address off the curve for the seeds
    /// (the address search gives up; the program aborts).
    NoProgramAddress,
}

} // verus!
