//! The program's instructions: their discriminators, data and processing.
use crate::error::EscrowError;
use vstd::prelude::*;

pub mod make;
pub mod release;
pub mod refund;
pub mod take;

pub use make::{process_make, MakeIxData, MakeState};
pub use refund::process_refund;
pub use release::ReleaseState;
pub use take::process_take;

verus! {

/// The instructions of the program, by the first byte of the instruction data.
#[derive(Clone, Copy, Debug, PartialEq, Eq, Structural)]
pub enum MyProgramInstruction {
    /// Byte 0: open an offer.
    Make,
    /// Byte 1: accept an offer.
    Take,
    /// Byte 2: withdraw an offer.
    Refund,
}

impl MyProgramInstruction {
    /// The instruction that discriminator `d` selects, if any.
    pub open spec fn spec_from_byte(d: u8) -> Option<MyProgramInstruction> {
        if d == 0 {
            Some(MyProgramInstruction::Make)
        } else if d == 1 {
            Some(MyProgramInstruction::Take)
        } else if d == 2 {
            Some(MyProgramInstruction::Refund)
        } else {
            None
        }
    }

    /// The discriminator of `self`.
    pub open spec fn spec_byte(self) -> u8 {
        match self {
            MyProgramInstruction::Make => 0,
            MyProgramInstruction::Take => 1,
            MyProgramInstruction::Refund => 2,
        }
    }

    /// Decodes an instruction discriminator: 0, 1 and 2 select `Make`, `Take`
    /// and `Refund`; any other byte fails with `InvalidInstructionData`.
    pub fn try_from(value: &u8) -> (res: Result<MyProgramInstruction, EscrowError>)
        ensures
            res == (match Self::spec_from_byte(*value) {
                Some(i) => Ok(i),
                None => Err(EscrowError::InvalidInstructionData),
            }),
    {
        match *value {
            0 => Ok(MyProgramInstruction::Make),
            1 => Ok(MyProgramInstruction::Take),
            2 => Ok(MyProgramInstruction::Refund),
            _ => Err(EscrowError::InvalidInstructionData),
        }
    }
}

/// Each instruction is selected by exactly one byte: decoding the
/// discriminator of an instruction gives it back, and every byte that decodes
/// is the discriminator of what it decodes to.
pub proof fn law_discriminator_roundtrip(i: MyProgramInstruction, d: u8)
    ensures
        MyProgramInstruction::spec_from_byte(i.spec_byte()) == Some(i),
        MyProgramInstruction::spec_from_byte(d) matches Some(j) ==> j.spec_byte() == d,
        MyProgramInstruction::spec_from_byte(d) is None <==> d >= 3,
{
}

} // verus!
