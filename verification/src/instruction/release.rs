//! Releasing an escrow's vault, shared by `Take` and `Refund`: the escrow is
//! read and its address checked, the taker pays the maker (`Take` only), the
//! vault's tokens go to a recipient token account, the vault is closed to the
//! maker, and the escrow's lamports go to the maker.
use crate::codec::keys_equal;
use crate::constants::ID;
use crate::error::EscrowError;
use crate::processor::{fail_with, Action, EscrowSeeds, Outcome, Step};
use crate::state::{Escrow, ESCROW_LEN};
use pinocchio::pubkey::Pubkey;
use vstd::prelude::*;

verus! {

/// A payment made before the vault is released: `escrow.receive_amount`
/// tokens from token account `from` to token account `to`, authorized by `authority`.
#[derive(Clone, Copy, Debug, PartialEq, Eq)]
pub struct Payment {
    pub from: usize,
    pub to: usize,
    pub authority: usize,
}

/// Which accounts a release uses (by position) and what it checks against.
#[derive(Clone, Copy, Debug, PartialEq, Eq)]
pub struct ReleasePlan {
    /// The maker's key, a seed of the escrow's address.
    pub maker_key: Pubkey,
    /// The escrow account's key.
    pub escrow_key: Pubkey,
    /// The maker's account, which gets the vault's and the escrow's lamports.
    pub maker: usize,
    /// The escrow account.
    pub escrow: usize,
    /// The vault token account.
    pub vault: usize,
    /// The token account that receives the vault's tokens.
    pub recipient: usize,
    /// The payment made first, if any.
    pub payment: Option<Payment>,
}

/// Where a release stands: which outcome it waits for.
#[derive(Clone, Copy, Debug, PartialEq, Eq)]
pub enum ReleaseState {
    /// Waiting for the escrow account's data.
    LoadingEscrow(ReleasePlan),
    /// Waiting for the vault token account; the escrow has been read.
    ReadingVault(ReleasePlan, Escrow),
    /// Waiting for the escrow's derived address; the vault's owner and amount have been read.
    DerivingAddress(ReleasePlan, Escrow, Pubkey, u64),
    /// Waiting for the payment; then the vault's amount is released.
    Paying(ReleasePlan, EscrowSeeds, u64),
    /// Waiting for the vault's tokens to be released.
    Releasing(ReleasePlan, EscrowSeeds),
    /// Waiting for the vault to be closed.
    ClosingVault(ReleasePlan),
    /// Waiting for the lamports of the maker and the escrow.
    ReadingLamports(ReleasePlan),
    /// Waiting for the escrow's lamports to be moved to the maker.
    ClosingEscrow,
    /// Over.
    Finished,
}

/// The first step of a release.
pub open spec fn spec_start_release(plan: ReleasePlan) -> (ReleaseState, Step) {
    (ReleaseState::LoadingEscrow(plan), Step::Perform(Action::ReadData { account: plan.escrow }))
}

/// Starts a release: asks for the escrow account's data.
pub fn start_release(plan: ReleasePlan) -> (r: (ReleaseState, Step))
    ensures
        r == spec_start_release(plan),
{
    (ReleaseState::LoadingEscrow(plan), Step::Perform(Action::ReadData { account: plan.escrow }))
}

/// The transfer of the vault's `amount` tokens to the recipient, signed by the escrow.
pub open spec fn release_transfer(plan: ReleasePlan, seeds: EscrowSeeds, amount: u64) -> Action {
    Action::Transfer {
        from: plan.vault,
        to: plan.recipient,
        authority: plan.escrow,
        amount,
        signer: Some(seeds),
    }
}

impl ReleaseState {
    /// Whether `o` answers the action this state waits for.
    pub open spec fn expects(self, o: Outcome) -> bool {
        match self {
            ReleaseState::LoadingEscrow(_) => o is Data,
            ReleaseState::ReadingVault(..) => o is TokenAccount || o is Failed,
            ReleaseState::DerivingAddress(..) => o is Address || o is Failed,
            ReleaseState::Paying(..) => o is Completed || o is Failed,
            ReleaseState::Releasing(..) => o is Completed || o is Failed,
            ReleaseState::ClosingVault(_) => o is Completed || o is Failed,
            ReleaseState::ReadingLamports(_) => o is Lamports,
            ReleaseState::ClosingEscrow => o is Completed,
            ReleaseState::Finished => false,
        }
    }

    /// Whether a release aborts on `o`: when the escrow's address checks out
    /// but the vault is not owned by the escrow, or when the maker's lamports
    /// plus the escrow's overflow.
    pub open spec fn fatal(self, o: Outcome) -> bool {
        match (self, o) {
            (ReleaseState::DerivingAddress(plan, _, owner, _), Outcome::Address(address)) => {
                address == plan.escrow_key && owner != plan.escrow_key
            },
            (ReleaseState::ReadingLamports(_), Outcome::Lamports { recipient, source }) => {
                recipient + source > u64::MAX
            },
            _ => false,
        }
    }

    /// The next state and step of a release after outcome `o`.
    pub open spec fn spec_resume(self, o: Outcome) -> (ReleaseState, Step) {
        match (self, o) {
            (_, Outcome::Failed(code)) => (ReleaseState::Finished, fail_with(code)),
            (ReleaseState::LoadingEscrow(plan), Outcome::Data(data)) => {
                if data@.len() == ESCROW_LEN {
                    (
                        ReleaseState::ReadingVault(plan, Escrow::spec_read(data@)),
                        Step::Perform(Action::ReadTokenAccount { account: plan.vault }),
                    )
                } else {
                    (ReleaseState::Finished, Step::Finish(Err(EscrowError::InvalidAccountData)))
                }
            },
            (ReleaseState::ReadingVault(plan, escrow), Outcome::TokenAccount { owner, amount }) => {
                let seeds = EscrowSeeds { maker: plan.maker_key, bump: escrow.bump };
                (
                    ReleaseState::DerivingAddress(plan, escrow, owner, amount),
                    Step::Perform(Action::DeriveAddress { seeds, program_id: ID }),
                )
            },
            (ReleaseState::DerivingAddress(plan, escrow, _, amount), Outcome::Address(address)) => {
                let seeds = EscrowSeeds { maker: plan.maker_key, bump: escrow.bump };
                if address != plan.escrow_key {
                    (ReleaseState::Finished, Step::Finish(Err(EscrowError::InvalidAccountData)))
                } else {
                    match plan.payment {
                        Some(p) => (
                            ReleaseState::Paying(plan, seeds, amount),
                            Step::Perform(
                                Action::Transfer {
                                    from: p.from,
                                    to: p.to,
                                    authority: p.authority,
                                    amount: escrow.receive_amount,
                                    signer: None,
                                },
                            ),
                        ),
                        None => (
                            ReleaseState::Releasing(plan, seeds),
                            Step::Perform(release_transfer(plan, seeds, amount)),
                        ),
                    }
                }
            },
            (ReleaseState::Paying(plan, seeds, amount), _) => (
                ReleaseState::Releasing(plan, seeds),
                Step::Perform(release_transfer(plan, seeds, amount)),
            ),
            (ReleaseState::Releasing(plan, seeds), _) => (
                ReleaseState::ClosingVault(plan),
                Step::Perform(
                    Action::CloseTokenAccount {
                        account: plan.vault,
                        destination: plan.maker,
                        authority: plan.escrow,
                        signer: Some(seeds),
                    },
                ),
            ),
            (ReleaseState::ClosingVault(plan), _) => (
                ReleaseState::ReadingLamports(plan),
                Step::Perform(Action::ReadLamports { recipient: plan.maker, source: plan.escrow }),
            ),
            (ReleaseState::ReadingLamports(plan), Outcome::Lamports { recipient, source }) => (
                ReleaseState::ClosingEscrow,
                Step::Perform(
                    Action::SetLamports {
                        recipient: plan.maker,
                        recipient_lamports: (recipient + source) as u64,
                        source: plan.escrow,
                        source_lamports: 0,
                    },
                ),
            ),
            (_, _) => (ReleaseState::Finished, Step::Finish(Ok(()))),
        }
    }

    /// Whether `o` answers the action this state waits for.
    pub fn expects_outcome(&self, o: &Outcome) -> (b: bool)
        ensures
            b == self.expects(*o),
    {
        match self {
            ReleaseState::LoadingEscrow(_) => matches!(o, Outcome::Data(_)),
            ReleaseState::ReadingVault(..) => matches!(
                o,
                Outcome::TokenAccount { .. } | Outcome::Failed(_)
            ),
            ReleaseState::DerivingAddress(..) => matches!(o, Outcome::Address(_) | Outcome::Failed(_)),
            ReleaseState::Paying(..) => matches!(o, Outcome::Completed | Outcome::Failed(_)),
            ReleaseState::Releasing(..) => matches!(o, Outcome::Completed | Outcome::Failed(_)),
            ReleaseState::ClosingVault(_) => matches!(o, Outcome::Completed | Outcome::Failed(_)),
            ReleaseState::ReadingLamports(_) => matches!(o, Outcome::Lamports { .. }),
            ReleaseState::ClosingEscrow => matches!(o, Outcome::Completed),
            ReleaseState::Finished => false,
        }
    }

    /// Whether a release aborts on `o`.
    pub fn is_fatal(&self, o: &Outcome) -> (b: bool)
        ensures
            b == self.fatal(*o),
    {
        match (self, o) {
            (ReleaseState::DerivingAddress(plan, _, owner, _), Outcome::Address(address)) => {
                keys_equal(address, &plan.escrow_key) && !keys_equal(owner, &plan.escrow_key)
            },
            (ReleaseState::ReadingLamports(_), Outcome::Lamports { recipient, source }) => {
                *recipient > u64::MAX - *source
            },
            _ => false,
        }
    }

    /// Takes the outcome of the action asked for last and names the next
    /// step: a failed action ends the instruction with its error; escrow data
    /// of the wrong length, or a derived address other than the escrow's,
    /// ends it with `InvalidAccountData`; otherwise the payment is made (if
    /// any), the vault's whole amount (as read before any transfer) goes to
    /// the recipient, the vault is closed to the maker, and the maker gets
    /// the escrow's lamports, which drop to zero.
    pub fn resume(self, o: Outcome) -> (r: (ReleaseState, Step))
        requires
            self.expects(o),
            !self.fatal(o),
        ensures
            r == self.spec_resume(o),
    {
        if let Outcome::Failed(code) = o {
            return (ReleaseState::Finished, Step::Finish(Err(EscrowError::Runtime(code))));
        }
        match self {
            ReleaseState::LoadingEscrow(plan) => {
                let data = match o {
                    Outcome::Data(d) => d,
                    _ => {
                        assert(false);
                        return (ReleaseState::Finished, Step::Finish(Ok(())));
                    },
                };
                match Escrow::load(data.as_slice()) {
                    Ok(escrow) => (
                        ReleaseState::ReadingVault(plan, escrow),
                        Step::Perform(Action::ReadTokenAccount { account: plan.vault }),
                    ),
                    Err(e) => (ReleaseState::Finished, Step::Finish(Err(e))),
                }
            },
            ReleaseState::ReadingVault(plan, escrow) => {
                let (owner, amount) = match o {
                    Outcome::TokenAccount { owner, amount } => (owner, amount),
                    _ => {
                        assert(false);
                        return (ReleaseState::Finished, Step::Finish(Ok(())));
                    },
                };
                let seeds = EscrowSeeds { maker: plan.maker_key, bump: escrow.bump };
                (
                    ReleaseState::DerivingAddress(plan, escrow, owner, amount),
                    Step::Perform(Action::DeriveAddress { seeds, program_id: ID }),
                )
            },
            ReleaseState::DerivingAddress(plan, escrow, _, amount) => {
                let address = match o {
                    Outcome::Address(a) => a,
                    _ => {
                        assert(false);
                        return (ReleaseState::Finished, Step::Finish(Ok(())));
                    },
                };
                let seeds = EscrowSeeds { maker: plan.maker_key, bump: escrow.bump };
                if !keys_equal(&address, &plan.escrow_key) {
                    return (ReleaseState::Finished, Step::Finish(Err(EscrowError::InvalidAccountData)));
                }
                match plan.payment {
                    Some(p) => (
                        ReleaseState::Paying(plan, seeds, amount),
                        Step::Perform(
                            Action::Transfer {
                                from: p.from,
                                to: p.to,
                                authority: p.authority,
                                amount: escrow.receive_amount,
                                signer: None,
                            },
                        ),
                    ),
                    None => (
                        ReleaseState::Releasing(plan, seeds),
                        Step::Perform(
                            Action::Transfer {
                                from: plan.vault,
                                to: plan.recipient,
                                authority: plan.escrow,
                                amount,
                                signer: Some(seeds),
                            },
                        ),
                    ),
                }
            },
            ReleaseState::Paying(plan, seeds, amount) => (
                ReleaseState::Releasing(plan, seeds),
                Step::Perform(
                    Action::Transfer {
                        from: plan.vault,
                        to: plan.recipient,
                        authority: plan.escrow,
                        amount,
                        signer: Some(seeds),
                    },
                ),
            ),
            ReleaseState::Releasing(plan, seeds) => (
                ReleaseState::ClosingVault(plan),
                Step::Perform(
                    Action::CloseTokenAccount {
                        account: plan.vault,
                        destination: plan.maker,
                        authority: plan.escrow,
                        signer: Some(seeds),
                    },
                ),
            ),
            ReleaseState::ClosingVault(plan) => (
                ReleaseState::ReadingLamports(plan),
                Step::Perform(Action::ReadLamports { recipient: plan.maker, source: plan.escrow }),
            ),
            ReleaseState::ReadingLamports(plan) => {
                let (recipient, source) = match o {
                    Outcome::Lamports { recipient, source } => (recipient, source),
                    _ => {
                        assert(false);
                        return (ReleaseState::Finished, Step::Finish(Ok(())));
                    },
                };
                (
                    ReleaseState::ClosingEscrow,
                    Step::Perform(
                        Action::SetLamports {
                            recipient: plan.maker,
                            recipient_lamports: recipient + source,
                            source: plan.escrow,
                            source_lamports: 0,
                        },
                    ),
                )
            },
            _ => (ReleaseState::Finished, Step::Finish(Ok(()))),
        }
    }
}

} // verus!
