use vstd::prelude::*;
use crate::error::{ProcessError, RaffleProgramError};
use crate::state::{
    Fee, InitPda, Raffle, RaffleModel, lemma_fee_roundtrip, lemma_init_pda_roundtrip,
    lemma_raffle_roundtrip,
};

verus! {

/// The instructions of the raffle program.
#[derive(Debug, PartialEq)]
#[allow(inconsistent_fields)]
pub enum RaffleProgramInstruction {
    InitRaffle { init_raffle: Raffle },
    /// Carries no payload: the winner is the third account of the instruction.
    PublishWinner,
    InitCounter,
    InitFee { data: InitPda },
    InitConfig,
    SetConfig,
    UpdateFee { data: Fee },
    CollectFee,
}

/// An instruction with its raffle payload seen through its model.
#[allow(inconsistent_fields)]
pub enum InstructionModel {
    InitRaffle { init_raffle: RaffleModel },
    PublishWinner,
    InitCounter,
    InitFee { data: InitPda },
    InitConfig,
    SetConfig,
    UpdateFee { data: Fee },
    CollectFee,
}

impl View for RaffleProgramInstruction {
    type V = InstructionModel;

    open spec fn view(&self) -> InstructionModel {
        match self {
            RaffleProgramInstruction::InitRaffle { init_raffle } => InstructionModel::InitRaffle {
                init_raffle: init_raffle@,
            },
            RaffleProgramInstruction::PublishWinner => InstructionModel::PublishWinner,
            RaffleProgramInstruction::InitCounter => InstructionModel::InitCounter,
            RaffleProgramInstruction::InitFee { data } => InstructionModel::InitFee { data: *data },
            RaffleProgramInstruction::InitConfig => InstructionModel::InitConfig,
            RaffleProgramInstruction::SetConfig => InstructionModel::SetConfig,
            RaffleProgramInstruction::UpdateFee { data } => InstructionModel::UpdateFee {
                data: *data,
            },
            RaffleProgramInstruction::CollectFee => InstructionModel::CollectFee,
        }
    }
}

/// What instruction data decodes to: a tag byte selects the instruction, and the
/// instructions that carry a payload read it from exactly the remaining bytes
/// (the others ignore those bytes). Publishing the winner (tag 1) carries no
/// payload here: the winner is the third account that the instruction is given,
/// and any bytes after the tag are ignored, so data that a decoder of a winner
/// payload would refuse is accepted.
pub open spec fn spec_unpack(input: Seq<u8>) -> Result<InstructionModel, ProcessError> {
    if input.len() == 0 {
        Err(ProcessError::Program(RaffleProgramError::InvalidInstruction))
    } else {
        let rest = input.drop_first();
        if input[0] == 0 {
            match RaffleModel::from_slice(rest) {
                Ok(r) => Ok(InstructionModel::InitRaffle { init_raffle: r }),
                Err(e) => Err(ProcessError::Codec(e)),
            }
        } else if input[0] == 1 {
            Ok(InstructionModel::PublishWinner)
        } else if input[0] == 2 {
            Ok(InstructionModel::InitCounter)
        } else if input[0] == 3 {
            match InitPda::from_slice(rest) {
                Ok(d) => Ok(InstructionModel::InitFee { data: d }),
                Err(e) => Err(ProcessError::Codec(e)),
            }
        } else if input[0] == 4 {
            Ok(InstructionModel::InitConfig)
        } else if input[0] == 5 {
            Ok(InstructionModel::SetConfig)
        } else if input[0] == 6 {
            match Fee::from_slice(rest) {
                Ok(d) => Ok(InstructionModel::UpdateFee { data: d }),
                Err(e) => Err(ProcessError::Codec(e)),
            }
        } else if input[0] == 7 {
            Ok(InstructionModel::CollectFee)
        } else {
            Err(ProcessError::Program(RaffleProgramError::InvalidInstruction))
        }
    }
}

impl InstructionModel {
    /// The instruction data that a client sends for this instruction: its tag,
    /// followed by the layout of its payload, if it has one.
    pub open spec fn data(self) -> Seq<u8> {
        match self {
            InstructionModel::InitRaffle { init_raffle } => seq![0u8] + init_raffle.layout(),
            InstructionModel::PublishWinner => seq![1u8],
            InstructionModel::InitCounter => seq![2u8],
            InstructionModel::InitFee { data } => seq![3u8] + data.layout(),
            InstructionModel::InitConfig => seq![4u8],
            InstructionModel::SetConfig => seq![5u8],
            InstructionModel::UpdateFee { data } => seq![6u8] + data.layout(),
            InstructionModel::CollectFee => seq![7u8],
        }
    }

    /// Its raffle payload, if any, has 32-byte arrays.
    pub open spec fn wf(self) -> bool {
        match self {
            InstructionModel::InitRaffle { init_raffle } => init_raffle.wf(),
            _ => true,
        }
    }
}

/// Decoding the data that a client builds for an instruction gives back that instruction.
pub proof fn lemma_unpack_data(ix: InstructionModel)
    requires
        ix.wf(),
    ensures
        spec_unpack(ix.data()) == Ok::<InstructionModel, ProcessError>(ix),
{
    match ix {
        InstructionModel::InitRaffle { init_raffle } => {
            lemma_raffle_roundtrip(init_raffle);
            assert(ix.data().drop_first() =~= init_raffle.layout());
        },
        InstructionModel::InitFee { data } => {
            lemma_init_pda_roundtrip(data);
            assert(ix.data().drop_first() =~= data.layout());
        },
        InstructionModel::UpdateFee { data } => {
            lemma_fee_roundtrip(data);
            assert(ix.data().drop_first() =~= data.layout());
        },
        _ => {},
    }
}

impl RaffleProgramInstruction {
    /// Decodes instruction data (see `spec_unpack`). Tag 1 decodes to
    /// `PublishWinner` whatever bytes follow it; the winner is named by account,
    /// not by a payload.
    pub fn unpack(input: &[u8]) -> (r: Result<RaffleProgramInstruction, ProcessError>)
        ensures
            match r {
                Ok(ix) => spec_unpack(input@) == Ok::<InstructionModel, ProcessError>(ix@),
                Err(e) => spec_unpack(input@) == Err::<InstructionModel, ProcessError>(e),
            },
    {
        if input.len() == 0 {
            return Err(ProcessError::Program(RaffleProgramError::InvalidInstruction));
        }
        let tag = input[0];
        let rest = vstd::slice::slice_subrange(input, 1, input.len());
        assert(rest@ =~= input@.drop_first());
        if tag == 0 {
            match Raffle::try_from_slice(rest) {
                Ok(r) => Ok(RaffleProgramInstruction::InitRaffle { init_raffle: r }),
                Err(e) => Err(ProcessError::Codec(e)),
            }
        } else if tag == 1 {
            Ok(RaffleProgramInstruction::PublishWinner)
        } else if tag == 2 {
            Ok(RaffleProgramInstruction::InitCounter)
        } else if tag == 3 {
            match InitPda::try_from_slice(rest) {
                Ok(d) => Ok(RaffleProgramInstruction::InitFee { data: d }),
                Err(e) => Err(ProcessError::Codec(e)),
            }
        } else if tag == 4 {
            Ok(RaffleProgramInstruction::InitConfig)
        } else if tag == 5 {
            Ok(RaffleProgramInstruction::SetConfig)
        } else if tag == 6 {
            match Fee::try_from_slice(rest) {
                Ok(d) => Ok(RaffleProgramInstruction::UpdateFee { data: d }),
                Err(e) => Err(ProcessError::Codec(e)),
            }
        } else if tag == 7 {
            Ok(RaffleProgramInstruction::CollectFee)
        } else {
            Err(ProcessError::Program(RaffleProgramError::InvalidInstruction))
        }
    }
}

} // verus!
