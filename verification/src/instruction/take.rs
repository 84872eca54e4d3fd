//! `Take`: accept an offer. The taker pays the maker the amount of mint B the
//! escrow records and receives the vault's tokens of mint A; the vault and the
//! escrow are closed to the maker.
use crate::error::EscrowError;
use crate::instruction::release::{
    spec_start_release, start_release, Payment, ReleasePlan, ReleaseState,
};
use crate::processor::{AccountKey, Step};
use vstd::prelude::*;

verus! {

/// Positions of the accounts of `Take`: taker, maker, mint A, mint B, the
/// taker's token accounts of mint A and of mint B, the maker's token account
/// of mint B, vault, escrow, system program, token program.
pub const TAKE_TAKER: usize = 0;
pub const TAKE_MAKER: usize = 1;
pub const TAKE_TAKER_ATA_A: usize = 4;
pub const TAKE_TAKER_ATA_B: usize = 5;
pub const TAKE_MAKER_ATA_B: usize = 6;
pub const TAKE_VAULT: usize = 7;
pub const TAKE_ESCROW: usize = 8;

/// The release that a `Take` on `accounts` carries out.
pub open spec fn take_plan(accounts: Seq<AccountKey>) -> ReleasePlan {
    ReleasePlan {
        maker_key: accounts[1].key,
        escrow_key: accounts[8].key,
        maker: TAKE_MAKER,
        escrow: TAKE_ESCROW,
        vault: TAKE_VAULT,
        recipient: TAKE_TAKER_ATA_A,
        payment: Some(Payment { from: TAKE_TAKER_ATA_B, to: TAKE_MAKER_ATA_B, authority: TAKE_TAKER }),
    }
}

/// The first step of `Take` on the given accounts.
pub open spec fn spec_process_take(accounts: Seq<AccountKey>) -> (
    ReleaseState,
    Step,
) {
    if accounts.len() != 11 {
        (ReleaseState::Finished, Step::Finish(Err(EscrowError::NotEnoughAccountKeys)))
    } else if !accounts[0].is_signer {
        (ReleaseState::Finished, Step::Finish(Err(EscrowError::MissingRequiredSignature)))
    } else {
        spec_start_release(take_plan(accounts))
    }
}

/// Starts a `Take` instruction: checks that there are exactly eleven accounts
/// (else `NotEnoughAccountKeys`) and that the taker signed (else
/// `MissingRequiredSignature`), then starts the release in which the taker
/// pays the maker and receives the vault.
pub fn process_take(accounts: &[AccountKey]) -> (r: (ReleaseState, Step))
    ensures
        r == spec_process_take(accounts@),
{
    if accounts.len() != 11 {
        return (ReleaseState::Finished, Step::Finish(Err(EscrowError::NotEnoughAccountKeys)));
    }
    if !accounts[TAKE_TAKER].is_signer {
        return (ReleaseState::Finished, Step::Finish(Err(EscrowError::MissingRequiredSignature)));
    }
    let plan = ReleasePlan {
        maker_key: accounts[TAKE_MAKER].key,
        escrow_key: accounts[TAKE_ESCROW].key,
        maker: TAKE_MAKER,
        escrow: TAKE_ESCROW,
        vault: TAKE_VAULT,
        recipient: TAKE_TAKER_ATA_A,
        payment: Some(Payment { from: TAKE_TAKER_ATA_B, to: TAKE_MAKER_ATA_B, authority: TAKE_TAKER }),
    };
    start_release(plan)
}

} // verus!
