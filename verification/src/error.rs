use vstd::prelude::*;

verus! {

/// Why an instruction failed.
///
/// The first four are the program errors that the escrow's own checks return;
/// `Runtime` carries the code of a program error that an outside action (an
/// address derivation, a token account read, an invocation of another
/// program) reported, so that the instruction fails with exactly that error.
#[derive(Clone, Copy, Debug, PartialEq, Eq, Structural)]
pub enum EscrowError {
    /// The instruction was not given the number of accounts it takes.
    NotEnoughAccountKeys,
    /// The account that must authorize the instruction did not sign it.
    MissingRequiredSignature,
    /// The instruction data could not be decoded.
    InvalidInstructionData,
    /// An account's data or address is not what the instruction expects.
    InvalidAccountData,
    /// A program error, by its code, that an outside action reported.
    Runtime(u64),
}

} // verus!
