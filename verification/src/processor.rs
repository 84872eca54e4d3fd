//! How an instruction runs: the library names outside actions one at a time
//! and takes back their outcomes.
use crate::error::EscrowError;
use crate::instruction::make::{spec_process_make, MakeState};
use crate::instruction::refund::spec_process_refund;
use crate::instruction::take::spec_process_take;
use crate::instruction::{process_make, process_refund, process_take, MyProgramInstruction, ReleaseState};
use crate::state::Escrow;
use pinocchio::pubkey::Pubkey;
use vstd::prelude::*;

verus! {

/// What an instruction is told about each account passed to it.
#[derive(Clone, Copy, Debug, PartialEq, Eq)]
pub struct AccountKey {
    /// The account's address.
    pub key: Pubkey,
    /// Whether the account signed the transaction.
    pub is_signer: bool,
}

/// The first seed of every escrow address: the bytes of `"escrow"`.
pub open spec fn escrow_seed() -> Seq<u8> {
    seq![101u8, 115u8, 99u8, 114u8, 111u8, 119u8]
}

/// The seeds of an escrow's program address: `"escrow"`, the maker's key and
/// the bump. An escrow signs for its vault with the same seeds.
#[derive(Clone, Copy, Debug, PartialEq, Eq)]
pub struct EscrowSeeds {
    pub maker: Pubkey,
    pub bump: u8,
}

impl EscrowSeeds {
    /// The seeds as byte strings, in order.
    pub open spec fn spec_list(self) -> Seq<Seq<u8>> {
        seq![escrow_seed(), self.maker@, seq![self.bump]]
    }

    /// The seeds as byte strings, in order.
    pub fn to_vecs(&self) -> (seeds: Vec<Vec<u8>>)
        ensures
            seeds@.len() == 3,
            forall|i: int| 0 <= i < 3 ==> #[trigger] seeds@[i]@ == self.spec_list()[i],
    {
        let first: Vec<u8> = vec![101u8, 115u8, 99u8, 114u8, 111u8, 119u8];
        assert(first@ =~= escrow_seed());
        let mut maker: Vec<u8> = Vec::new();
        let mut i: usize = 0;
        while i < 32
            invariant
                i <= 32,
                maker@ =~= self.maker@.take(i as int),
            decreases 32 - i,
        {
            maker.push(self.maker[i]);
            i = i + 1;
        }
        assert(maker@ =~= self.maker@);
        let bump: Vec<u8> = vec![self.bump];
        assert(bump@ =~= seq![self.bump]);
        let seeds = vec![first, maker, bump];
        seeds
    }
}

/// An action that only the runtime can carry out, and that an instruction
/// asks for. Accounts are named by their position in the instruction's
/// account list.
#[derive(Clone, Copy, Debug, PartialEq, Eq)]
pub enum Action {
    /// Derive the program address of `seeds` under `program_id`.
    /// Answered by `Address`, or by `Failed` when the seeds give no address.
    DeriveAddress { seeds: EscrowSeeds, program_id: Pubkey },
    /// Read the token account `account` (its length, owning program and
    /// borrow state checked). Answered by `TokenAccount` or `Failed`.
    ReadTokenAccount { account: usize },
    /// Read the data of `account`. Answered by `Data`.
    ReadData { account: usize },
    /// Create `account` through the system program, funded by `payer` with
    /// the rent-exempt minimum for `space` bytes, and owned by `owner`.
    /// Answered by `Completed` or `Failed`.
    CreateAccount { payer: usize, account: usize, space: u64, owner: Pubkey },
    /// Write `state` into the data of `account` with [`Escrow::initialize`].
    /// Answered by `Completed`.
    InitializeEscrow { account: usize, state: Escrow },
    /// Move `amount` tokens from token account `from` to token account `to`
    /// through the token program, authorized by `authority`, which signs with
    /// `signer`'s seeds when there are any. Answered by `Completed` or `Failed`.
    Transfer { from: usize, to: usize, authority: usize, amount: u64, signer: Option<EscrowSeeds> },
    /// Close token account `account` through the token program, its lamports
    /// going to `destination`, authorized by `authority` as for `Transfer`.
    /// Answered by `Completed` or `Failed`.
    CloseTokenAccount {
        account: usize,
        destination: usize,
        authority: usize,
        signer: Option<EscrowSeeds>,
    },
    /// Read the lamports of `recipient` and of `source`. Answered by `Lamports`.
    ReadLamports { recipient: usize, source: usize },
    /// Set the lamports of `recipient`, then those of `source`.
    /// Answered by `Completed`.
    SetLamports { recipient: usize, recipient_lamports: u64, source: usize, source_lamports: u64 },
}

/// The outcome of an action.
#[derive(Clone, Debug, PartialEq, Eq)]
pub enum Outcome {
    /// The action was carried out.
    Completed,
    /// The derived address.
    Address(Pubkey),
    /// The owner and token amount of the token account read.
    TokenAccount { owner: Pubkey, amount: u64 },
    /// The data of the account read.
    Data(Vec<u8>),
    /// The lamports of the two accounts read.
    Lamports { recipient: u64, source: u64 },
    /// The action failed with the program error of this code.
    Failed(u64),
}

/// What an instruction does next.
#[derive(Clone, Copy, Debug, PartialEq, Eq)]
pub enum Step {
    /// Carry out this action and hand back its outcome.
    Perform(Action),
    /// The instruction is over, with this result.
    Finish(Result<(), EscrowError>),
}

/// The step that ends an instruction with the error that an outside action reported.
pub open spec fn fail_with(code: u64) -> Step {
    Step::Finish(Err(EscrowError::Runtime(code)))
}

/// An instruction under way.
#[derive(Clone, Copy, Debug, PartialEq, Eq)]
pub enum Session {
    Make(MakeState),
    Take(ReleaseState),
    Refund(ReleaseState),
    /// Ended before it was dispatched.
    Finished,
}

/// The first step of the instruction with data `data` on `accounts`.
pub open spec fn spec_process_instruction(
    accounts: Seq<AccountKey>,
    data: Seq<u8>,
) -> (Session, Step) {
    if data.len() == 0 {
        (Session::Finished, Step::Finish(Err(EscrowError::InvalidInstructionData)))
    } else {
        match MyProgramInstruction::spec_from_byte(data[0]) {
            None => (Session::Finished, Step::Finish(Err(EscrowError::InvalidInstructionData))),
            Some(MyProgramInstruction::Make) => {
                let (s, step) = spec_process_make(accounts, data.skip(1));
                (Session::Make(s), step)
            },
            Some(MyProgramInstruction::Take) => {
                let (s, step) = spec_process_take(accounts);
                (Session::Take(s), step)
            },
            Some(MyProgramInstruction::Refund) => {
                let (s, step) = spec_process_refund(accounts);
                (Session::Refund(s), step)
            },
        }
    }
}

/// Starts an instruction: its first byte selects `Make`, `Take` or `Refund`
/// (an empty or unknown one fails with `InvalidInstructionData`); `Make` gets
/// the bytes after it as its data. The program id the runtime passes in is
/// not read: addresses are derived, and accounts created, under the
/// program's own id [`crate::ID`].
pub fn process_instruction(
    _program_id: &Pubkey,
    accounts: &[AccountKey],
    instruction_data: &[u8],
) -> (r: (Session, Step))
    ensures
        r == spec_process_instruction(accounts@, instruction_data@),
{
    if instruction_data.len() == 0 {
        return (Session::Finished, Step::Finish(Err(EscrowError::InvalidInstructionData)));
    }
    let ix = match MyProgramInstruction::try_from(&instruction_data[0]) {
        Ok(ix) => ix,
        Err(e) => {
            return (Session::Finished, Step::Finish(Err(e)));
        },
    };
    match ix {
        MyProgramInstruction::Make => {
            let rest = vstd::slice::slice_subrange(instruction_data, 1, instruction_data.len());
            assert(rest@ =~= instruction_data@.skip(1));
            let (s, step) = process_make(accounts, rest);
            (Session::Make(s), step)
        },
        MyProgramInstruction::Take => {
            let (s, step) = process_take(accounts);
            (Session::Take(s), step)
        },
        MyProgramInstruction::Refund => {
            let (s, step) = process_refund(accounts);
            (Session::Refund(s), step)
        },
    }
}

impl Session {
    /// Whether `o` answers the action the instruction waits for.
    pub open spec fn expects(self, o: Outcome) -> bool {
        match self {
            Session::Make(s) => s.expects(o),
            Session::Take(s) => s.expects(o),
            Session::Refund(s) => s.expects(o),
            Session::Finished => false,
        }
    }

    /// Whether the instruction aborts on `o`.
    pub open spec fn fatal(self, o: Outcome) -> bool {
        match self {
            Session::Make(s) => s.fatal(o),
            Session::Take(s) => s.fatal(o),
            Session::Refund(s) => s.fatal(o),
            Session::Finished => false,
        }
    }

    /// The next state and step of the instruction after outcome `o`.
    pub open spec fn spec_resume(self, o: Outcome) -> (Session, Step) {
        match self {
            Session::Make(s) => {
                let (n, step) = s.spec_resume(o);
                (Session::Make(n), step)
            },
            Session::Take(s) => {
                let (n, step) = s.spec_resume(o);
                (Session::Take(n), step)
            },
            Session::Refund(s) => {
                let (n, step) = s.spec_resume(o);
                (Session::Refund(n), step)
            },
            Session::Finished => (Session::Finished, Step::Finish(Ok(()))),
        }
    }

    /// Whether `o` answers the action the instruction waits for.
    pub fn expects_outcome(&self, o: &Outcome) -> (b: bool)
        ensures
            b == self.expects(*o),
    {
        match self {
            Session::Make(s) => s.expects_outcome(o),
            Session::Take(s) => s.expects_outcome(o),
            Session::Refund(s) => s.expects_outcome(o),
            Session::Finished => false,
        }
    }

    /// Whether the instruction aborts on `o`.
    pub fn is_fatal(&self, o: &Outcome) -> (b: bool)
        ensures
            b == self.fatal(*o),
    {
        match self {
            Session::Make(s) => s.is_fatal(o),
            Session::Take(s) => s.is_fatal(o),
            Session::Refund(s) => s.is_fatal(o),
            Session::Finished => false,
        }
    }

    /// Takes the outcome of the action asked for last and names the next step.
    pub fn resume(self, o: Outcome) -> (r: (Session, Step))
        requires
            self.expects(o),
            !self.fatal(o),
        ensures
            r == self.spec_resume(o),
    {
        match self {
            Session::Make(s) => {
                let (n, step) = s.resume(o);
                (Session::Make(n), step)
            },
            Session::Take(s) => {
                let (n, step) = s.resume(o);
                (Session::Take(n), step)
            },
            Session::Refund(s) => {
                let (n, step) = s.resume(o);
                (Session::Refund(n), step)
            },
            Session::Finished => (Session::Finished, Step::Finish(Ok(()))),
        }
    }
}

} // verus!
