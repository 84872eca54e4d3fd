//! `Refund`: withdraw an offer. The maker gets the vault's tokens of mint A
//! back; the vault and the escrow are closed to the maker.
use crate::error::EscrowError;
use crate::instruction::release::{spec_start_release, start_release, ReleasePlan, ReleaseState};
use crate::processor::{AccountKey, Step};
use vstd::prelude::*;

verus! {

/// Positions of the accounts of `Refund`: maker, mint A, mint B, the maker's
/// token account of mint A, vault, escrow, system program, token program.
pub const REFUND_MAKER: usize = 0;
pub const REFUND_MAKER_ATA_A: usize = 3;
pub const REFUND_VAULT: usize = 4;
pub const REFUND_ESCROW: usize = 5;

/// The release that a `Refund` on `accounts` carries out.
pub open spec fn refund_plan(accounts: Seq<AccountKey>) -> ReleasePlan {
    ReleasePlan {
        maker_key: accounts[0].key,
        escrow_key: accounts[5].key,
        maker: REFUND_MAKER,
        escrow: REFUND_ESCROW,
        vault: REFUND_VAULT,
        recipient: REFUND_MAKER_ATA_A,
        payment: None,
    }
}

/// The first step of `Refund` on the given accounts.
pub open spec fn spec_process_refund(accounts: Seq<AccountKey>) -> (
    ReleaseState,
    Step,
) {
    if accounts.len() != 8 {
        (ReleaseState::Finished, Step::Finish(Err(EscrowError::NotEnoughAccountKeys)))
    } else if !accounts[0].is_signer {
        (ReleaseState::Finished, Step::Finish(Err(EscrowError::MissingRequiredSignature)))
    } else {
        spec_start_release(refund_plan(accounts))
    }
}

/// Starts a `Refund` instruction: checks that there are exactly eight
/// accounts (else `NotEnoughAccountKeys`) and that the maker signed (else
/// `MissingRequiredSignature`), then starts the release in which the maker
/// gets the vault back.
pub fn process_refund(accounts: &[AccountKey]) -> (r: (ReleaseState, Step))
    ensures
        r == spec_process_refund(accounts@),
{
    if accounts.len() != 8 {
        return (ReleaseState::Finished, Step::Finish(Err(EscrowError::NotEnoughAccountKeys)));
    }
    if !accounts[REFUND_MAKER].is_signer {
        return (ReleaseState::Finished, Step::Finish(Err(EscrowError::MissingRequiredSignature)));
    }
    let plan = ReleasePlan {
        maker_key: accounts[REFUND_MAKER].key,
        escrow_key: accounts[REFUND_ESCROW].key,
        maker: REFUND_MAKER,
        escrow: REFUND_ESCROW,
        vault: REFUND_VAULT,
        recipient: REFUND_MAKER_ATA_A,
        payment: None,
    };
    start_release(plan)
}

} // verus!
