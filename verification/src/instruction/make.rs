//! `Make`: open an offer. The maker funds a new escrow account, records the
//! offer in it and deposits tokens of mint A into the vault.
use crate::constants::ID;
use crate::codec::{keys_equal, le_bytes, le_value, read_u64_le, write_u64_le};
use crate::error::EscrowError;
use crate::processor::{fail_with, AccountKey, Action, EscrowSeeds, Outcome, Step};
use crate::state::{Escrow, ESCROW_LEN};
use pinocchio::pubkey::Pubkey;
use vstd::prelude::*;

verus! {

/// Size in bytes of the data of a `Make` instruction (after its discriminator).
pub const MAKE_IX_DATA_LEN: usize = 24;

/// The data of a `Make` instruction: how many tokens of mint A the maker
/// deposits, how many tokens of mint B it wants, and the bump of the escrow's
/// address.
///
/// Its bytes follow the C layout: `deposit_amount` at 0, `receive_amount` at 8
/// (both little endian), `bump` at 16, then padding to 24 bytes.
#[derive(Clone, Copy, Debug, PartialEq, Eq, Structural)]
pub struct MakeIxData {
    pub deposit_amount: u64,
    pub receive_amount: u64,
    pub bump: u8,
}

impl MakeIxData {
    /// Size in bytes of the instruction data.
    pub const LEN: usize = MAKE_IX_DATA_LEN;

    /// The instruction data held by the field bytes of `s`.
    pub open spec fn spec_read(s: Seq<u8>) -> MakeIxData {
        MakeIxData {
            deposit_amount: le_value(s, 0) as u64,
            receive_amount: le_value(s, 8) as u64,
            bump: s[16],
        }
    }

    /// The bytes of `self`, padding zeroed.
    pub open spec fn spec_bytes(self) -> Seq<u8> {
        le_bytes(self.deposit_amount) + le_bytes(self.receive_amount) + seq![self.bump] + Seq::new(
            7,
            |i: int| 0u8,
        )
    }

    /// Decodes the data of a `Make` instruction. Fails with
    /// `InvalidInstructionData` unless it is exactly [`MakeIxData::LEN`] bytes long.
    pub fn load(data: &[u8]) -> (res: Result<MakeIxData, EscrowError>)
        ensures
            res == (if data@.len() == MAKE_IX_DATA_LEN {
                Ok(Self::spec_read(data@))
            } else {
                Err(EscrowError::InvalidInstructionData)
            }),
    {
        if data.len() != MAKE_IX_DATA_LEN {
            return Err(EscrowError::InvalidInstructionData);
        }
        Ok(MakeIxData {
            deposit_amount: read_u64_le(data, 0),
            receive_amount: read_u64_le(data, 8),
            bump: data[16],
        })
    }

    /// The bytes of `self` as instruction data, padding zeroed.
    pub fn to_bytes(&self) -> (bytes: Vec<u8>)
        ensures
            bytes@ == self.spec_bytes(),
    {
        let mut bytes: Vec<u8> = vec![0u8; MAKE_IX_DATA_LEN];
        write_u64_le(bytes.as_mut_slice(), 0, self.deposit_amount);
        write_u64_le(bytes.as_mut_slice(), 8, self.receive_amount);
        bytes.set(16, self.bump);
        assert(bytes@ =~= self.spec_bytes());
        bytes
    }
}

/// Decoding the bytes of instruction data gives it back.
pub proof fn law_make_ix_data_roundtrip(ix: MakeIxData)
    ensures
        ix.spec_bytes().len() == MAKE_IX_DATA_LEN,
        MakeIxData::spec_read(ix.spec_bytes()) == ix,
{
    let b = ix.spec_bytes();
    crate::codec::lemma_le_roundtrip(ix.deposit_amount);
    crate::codec::lemma_le_roundtrip(ix.receive_amount);
    assert(b.subrange(0, 8) =~= le_bytes(ix.deposit_amount));
    assert(b.subrange(8, 16) =~= le_bytes(ix.receive_amount));
    assert(le_value(b, 0) == le_value(b.subrange(0, 8), 0));
    assert(le_value(b, 8) == le_value(b.subrange(8, 16), 0));
}

/// An offer that passed the checks of `Make` and is being opened.
#[derive(Clone, Copy, Debug, PartialEq, Eq)]
pub struct MakeOffer {
    pub maker: Pubkey,
    pub mint_a: Pubkey,
    pub mint_b: Pubkey,
    pub escrow: Pubkey,
    pub ix: MakeIxData,
}

impl MakeOffer {
    /// The seeds of the escrow's address.
    pub open spec fn seeds(self) -> EscrowSeeds {
        EscrowSeeds { maker: self.maker, bump: self.ix.bump }
    }

    /// The state recorded in the escrow account.
    pub open spec fn escrow_state(self) -> Escrow {
        Escrow {
            is_initialized: true,
            maker: self.maker,
            mint_a: self.mint_a,
            mint_b: self.mint_b,
            receive_amount: self.ix.receive_amount,
            bump: self.ix.bump,
        }
    }
}

/// Positions of the accounts of `Make`: maker, mint A, mint B, the maker's
/// token account of mint A, vault, escrow, system program, token program.
pub const MAKE_MAKER: usize = 0;
pub const MAKE_MAKER_ATA_A: usize = 3;
pub const MAKE_VAULT: usize = 4;
pub const MAKE_ESCROW: usize = 5;

/// Where a `Make` instruction stands: which outcome it waits for.
#[derive(Clone, Copy, Debug, PartialEq, Eq)]
pub enum MakeState {
    /// Waiting for the escrow's derived address.
    DerivingAddress(MakeOffer),
    /// Waiting for the vault token account.
    CheckingVault(MakeOffer),
    /// Waiting for the escrow account's creation.
    CreatingEscrow(MakeOffer),
    /// Waiting for the escrow state to be written.
    InitializingEscrow(MakeOffer),
    /// Waiting for the deposit into the vault.
    Depositing,
    /// Over.
    Finished,
}

/// The first step of `Make` on the given accounts and instruction data
/// (without its discriminator).
pub open spec fn spec_process_make(accounts: Seq<AccountKey>, data: Seq<u8>) -> (
    MakeState,
    Step,
) {
    if accounts.len() != 8 {
        (MakeState::Finished, Step::Finish(Err(EscrowError::NotEnoughAccountKeys)))
    } else if !accounts[0].is_signer {
        (MakeState::Finished, Step::Finish(Err(EscrowError::MissingRequiredSignature)))
    } else if data.len() != MAKE_IX_DATA_LEN {
        (MakeState::Finished, Step::Finish(Err(EscrowError::InvalidInstructionData)))
    } else {
        let offer = MakeOffer {
            maker: accounts[0].key,
            mint_a: accounts[1].key,
            mint_b: accounts[2].key,
            escrow: accounts[5].key,
            ix: MakeIxData::spec_read(data),
        };
        (
            MakeState::DerivingAddress(offer),
            Step::Perform(Action::DeriveAddress { seeds: offer.seeds(), program_id: ID }),
        )
    }
}

/// Starts a `Make` instruction: checks that there are exactly eight accounts
/// (else `NotEnoughAccountKeys`), that the maker signed (else
/// `MissingRequiredSignature`) and that the data decodes (else
/// `InvalidInstructionData`), then asks for the escrow's address under the
/// program's own id [`ID`].
pub fn process_make(accounts: &[AccountKey], data: &[u8]) -> (r: (
    MakeState,
    Step,
))
    ensures
        r == spec_process_make(accounts@, data@),
{
    if accounts.len() != 8 {
        return (MakeState::Finished, Step::Finish(Err(EscrowError::NotEnoughAccountKeys)));
    }
    if !accounts[MAKE_MAKER].is_signer {
        return (MakeState::Finished, Step::Finish(Err(EscrowError::MissingRequiredSignature)));
    }
    let ix = match MakeIxData::load(data) {
        Ok(ix) => ix,
        Err(e) => {
            return (MakeState::Finished, Step::Finish(Err(e)));
        },
    };
    let offer = MakeOffer {
        maker: accounts[MAKE_MAKER].key,
        mint_a: accounts[1].key,
        mint_b: accounts[2].key,
        escrow: accounts[MAKE_ESCROW].key,
        ix,
    };
    let seeds = EscrowSeeds { maker: offer.maker, bump: ix.bump };
    (
        MakeState::DerivingAddress(offer),
        Step::Perform(Action::DeriveAddress { seeds, program_id: ID }),
    )
}

impl MakeState {
    /// Whether `o` answers the action this state waits for.
    pub open spec fn expects(self, o: Outcome) -> bool {
        match self {
            MakeState::DerivingAddress(_) => o is Address || o is Failed,
            MakeState::CheckingVault(_) => o is TokenAccount || o is Failed,
            MakeState::CreatingEscrow(_) => o is Completed || o is Failed,
            MakeState::InitializingEscrow(_) => o is Completed,
            MakeState::Depositing => o is Completed || o is Failed,
            MakeState::Finished => false,
        }
    }

    /// Whether `Make` aborts on `o`: when the vault cannot be read as a token
    /// account, or is not owned by the escrow.
    pub open spec fn fatal(self, o: Outcome) -> bool {
        match self {
            MakeState::CheckingVault(offer) => match o {
                Outcome::TokenAccount { owner, amount: _ } => owner != offer.escrow,
                _ => true,
            },
            _ => false,
        }
    }

    /// The next state and step of `Make` after outcome `o`.
    pub open spec fn spec_resume(self, o: Outcome) -> (MakeState, Step) {
        match (self, o) {
            (_, Outcome::Failed(code)) => (MakeState::Finished, fail_with(code)),
            (MakeState::DerivingAddress(offer), Outcome::Address(address)) => {
                if address == offer.escrow {
                    (
                        MakeState::CheckingVault(offer),
                        Step::Perform(Action::ReadTokenAccount { account: MAKE_VAULT }),
                    )
                } else {
                    (MakeState::Finished, Step::Finish(Err(EscrowError::InvalidAccountData)))
                }
            },
            (MakeState::CheckingVault(offer), _) => (
                MakeState::CreatingEscrow(offer),
                Step::Perform(
                    Action::CreateAccount {
                        payer: MAKE_MAKER,
                        account: MAKE_ESCROW,
                        space: ESCROW_LEN as u64,
                        owner: ID,
                    },
                ),
            ),
            (MakeState::CreatingEscrow(offer), _) => (
                MakeState::InitializingEscrow(offer),
                Step::Perform(
                    Action::InitializeEscrow { account: MAKE_ESCROW, state: offer.escrow_state() },
                ),
            ),
            (MakeState::InitializingEscrow(offer), _) => (
                MakeState::Depositing,
                Step::Perform(
                    Action::Transfer {
                        from: MAKE_MAKER_ATA_A,
                        to: MAKE_VAULT,
                        authority: MAKE_MAKER,
                        amount: offer.ix.deposit_amount,
                        signer: None,
                    },
                ),
            ),
            (_, _) => (MakeState::Finished, Step::Finish(Ok(()))),
        }
    }

    /// Whether `o` answers the action this state waits for.
    pub fn expects_outcome(&self, o: &Outcome) -> (b: bool)
        ensures
            b == self.expects(*o),
    {
        match self {
            MakeState::DerivingAddress(_) => matches!(o, Outcome::Address(_) | Outcome::Failed(_)),
            MakeState::CheckingVault(_) => matches!(
                o,
                Outcome::TokenAccount { .. } | Outcome::Failed(_)
            ),
            MakeState::CreatingEscrow(_) => matches!(o, Outcome::Completed | Outcome::Failed(_)),
            MakeState::InitializingEscrow(_) => matches!(o, Outcome::Completed),
            MakeState::Depositing => matches!(o, Outcome::Completed | Outcome::Failed(_)),
            MakeState::Finished => false,
        }
    }

    /// Whether `Make` aborts on `o`.
    pub fn is_fatal(&self, o: &Outcome) -> (b: bool)
        ensures
            b == self.fatal(*o),
    {
        match self {
            MakeState::CheckingVault(offer) => match o {
                Outcome::TokenAccount { owner, amount: _ } => !keys_equal(owner, &offer.escrow),
                _ => true,
            },
            _ => false,
        }
    }

    /// Takes the outcome of the action asked for last and names the next
    /// step: a failed action ends the instruction with its error; a derived
    /// address other than the escrow's ends it with `InvalidAccountData`;
    /// otherwise the vault is read, the escrow account created (rent-exempt,
    /// [`Escrow::LEN`] bytes, owned by the program's id [`ID`]), the offer written into it,
    /// and the deposit moved from the maker's token account to the vault.
    pub fn resume(self, o: Outcome) -> (r: (MakeState, Step))
        requires
            self.expects(o),
            !self.fatal(o),
        ensures
            r == self.spec_resume(o),
    {
        if let Outcome::Failed(code) = o {
            return (MakeState::Finished, Step::Finish(Err(EscrowError::Runtime(code))));
        }
        match self {
            MakeState::DerivingAddress(offer) => {
                let address = match o {
                    Outcome::Address(a) => a,
                    _ => {
                        assert(false);
                        return (MakeState::Finished, Step::Finish(Ok(())));
                    },
                };
                if keys_equal(&address, &offer.escrow) {
                    (
                        MakeState::CheckingVault(offer),
                        Step::Perform(Action::ReadTokenAccount { account: MAKE_VAULT }),
                    )
                } else {
                    (MakeState::Finished, Step::Finish(Err(EscrowError::InvalidAccountData)))
                }
            },
            MakeState::CheckingVault(offer) => (
                MakeState::CreatingEscrow(offer),
                Step::Perform(
                    Action::CreateAccount {
                        payer: MAKE_MAKER,
                        account: MAKE_ESCROW,
                        space: ESCROW_LEN as u64,
                        owner: ID,
                    },
                ),
            ),
            MakeState::CreatingEscrow(offer) => {
                let state = Escrow {
                    is_initialized: true,
                    maker: offer.maker,
                    mint_a: offer.mint_a,
                    mint_b: offer.mint_b,
                    receive_amount: offer.ix.receive_amount,
                    bump: offer.ix.bump,
                };
                (
                    MakeState::InitializingEscrow(offer),
                    Step::Perform(Action::InitializeEscrow { account: MAKE_ESCROW, state }),
                )
            },
            MakeState::InitializingEscrow(offer) => (
                MakeState::Depositing,
                Step::Perform(
                    Action::Transfer {
                        from: MAKE_MAKER_ATA_A,
                        to: MAKE_VAULT,
                        authority: MAKE_MAKER,
                        amount: offer.ix.deposit_amount,
                        signer: None,
                    },
                ),
            ),
            _ => (MakeState::Finished, Step::Finish(Ok(()))),
        }
    }
}

} // verus!
