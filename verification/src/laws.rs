//! What holds of the program across steps and instructions.
use crate::constants::ID;
use crate::error::EscrowError;
use crate::instruction::make::{law_make_ix_data_roundtrip, MakeIxData, MakeState};
use crate::instruction::ReleaseState;
use crate::processor::{
    spec_process_instruction, AccountKey, Action, EscrowSeeds, Outcome, Session, Step,
};
use crate::state::escrow::{law_load_reads_back_write, Escrow, ESCROW_LEN};
use pinocchio::pubkey::Pubkey;
use vstd::prelude::*;

verus! {

impl Action {
    /// Whether `o` is an answer to this action.
    pub open spec fn answered_by(self, o: Outcome) -> bool {
        match self {
            Action::DeriveAddress { .. } => o is Address || o is Failed,
            Action::ReadTokenAccount { .. } => o is TokenAccount || o is Failed,
            Action::ReadData { .. } => o is Data,
            Action::CreateAccount { .. } => o is Completed || o is Failed,
            Action::InitializeEscrow { .. } => o is Completed,
            Action::Transfer { .. } => o is Completed || o is Failed,
            Action::CloseTokenAccount { .. } => o is Completed || o is Failed,
            Action::ReadLamports { .. } => o is Lamports,
            Action::SetLamports { .. } => o is Completed,
        }
    }
}

/// After a step, the instruction waits for exactly the answers to the action
/// it asked for, and once it finishes it takes no outcome at all.
pub open spec fn waits_for(s: Session, step: Step) -> bool {
    match step {
        Step::Perform(a) => forall|o: Outcome| #[trigger] s.expects(o) <==> a.answered_by(o),
        Step::Finish(_) => forall|o: Outcome| !#[trigger] s.expects(o),
    }
}

/// An instruction starts by waiting for the answer to its first action, or is
/// already over.
pub proof fn law_start_waits_for_answer(accounts: Seq<AccountKey>, data: Seq<u8>)
    ensures
        ({
            let (s, step) = spec_process_instruction(accounts, data);
            waits_for(s, step)
        }),
{
}

/// Every step the instruction takes on an answer leaves it waiting for the
/// answer to its next action, or over for good.
pub proof fn law_step_waits_for_answer(s: Session, o: Outcome)
    requires
        s.expects(o),
        !s.fatal(o),
    ensures
        ({
            let (n, step) = s.spec_resume(o);
            waits_for(n, step)
        }),
{
}

/// A failed outside action ends the instruction with the error it reported,
/// wherever the instruction stands (unless the instruction aborts there).
pub proof fn law_failure_ends_instruction(s: Session, code: u64)
    requires
        s.expects(Outcome::Failed(code)),
        !s.fatal(Outcome::Failed(code)),
    ensures
        s.spec_resume(Outcome::Failed(code)).1 == Step::Finish(Err(EscrowError::Runtime(code))),
{
}

/// An escrow account whose key is not the address derived from its seeds is
/// refused with `InvalidAccountData` before anything is created or moved.
pub proof fn law_wrong_escrow_address_refused(s: Session, address: Pubkey)
    requires
        s.expects(Outcome::Address(address)),
        match s {
            Session::Make(MakeState::DerivingAddress(offer)) => address != offer.escrow,
            Session::Take(ReleaseState::DerivingAddress(plan, ..)) => address != plan.escrow_key,
            Session::Refund(ReleaseState::DerivingAddress(plan, ..)) => address != plan.escrow_key,
            _ => false,
        },
    ensures
        s.spec_resume(Outcome::Address(address)).1 == Step::Finish(
            Err(EscrowError::InvalidAccountData),
        ),
{
}

/// Closing an escrow moves all its lamports to the maker: the maker's and
/// the escrow's lamports add up to what they did, and the escrow's are zero.
pub proof fn law_escrow_lamports_go_to_maker(s: Session, maker: u64, escrow: u64)
    requires
        s.expects(Outcome::Lamports { recipient: maker, source: escrow }),
        !s.fatal(Outcome::Lamports { recipient: maker, source: escrow }),
    ensures
        s.spec_resume(Outcome::Lamports { recipient: maker, source: escrow }).1 matches Step::Perform(
            Action::SetLamports { recipient_lamports, source_lamports, .. },
        ) && recipient_lamports + source_lamports == maker + escrow && source_lamports == 0,
{
}

/// An instruction aborts only on a vault that is not the escrow's (for `Make`,
/// one that cannot be read as a token account or has another owner; for
/// `Take` and `Refund`, one read with another owner, once the escrow's address
/// has checked out) or when the maker's lamports plus the escrow's would
/// overflow. Amounts of tokens never make it abort.
pub proof fn law_aborts_only_on_foreign_vault_or_overflow(s: Session, o: Outcome)
    requires
        s.expects(o),
        s.fatal(o),
    ensures
        match s {
            Session::Make(MakeState::CheckingVault(offer)) => !(o matches Outcome::TokenAccount {
                owner,
                ..
            } && owner == offer.escrow),
            Session::Take(r) => aborts_on_release(r, o),
            Session::Refund(r) => aborts_on_release(r, o),
            _ => false,
        },
{
}

/// The only outcomes on which a release may abort.
pub open spec fn aborts_on_release(r: ReleaseState, o: Outcome) -> bool {
    match (r, o) {
        (ReleaseState::DerivingAddress(plan, _, owner, _), Outcome::Address(a)) => {
            a == plan.escrow_key && owner != plan.escrow_key
        },
        (ReleaseState::ReadingLamports(_), Outcome::Lamports { recipient, source }) => {
            recipient + source > u64::MAX
        },
        _ => false,
    }
}

/// The escrow state that `Make` records for instruction data `ix` on `accounts`.
pub open spec fn offer_of(accounts: Seq<AccountKey>, ix: MakeIxData) -> Escrow {
    Escrow {
        is_initialized: true,
        maker: accounts[0].key,
        mint_a: accounts[1].key,
        mint_b: accounts[2].key,
        receive_amount: ix.receive_amount,
        bump: ix.bump,
    }
}

/// A `Make` signed by the maker, whose escrow account has the derived address
/// and whose vault is owned by the escrow, asks for the escrow's address
/// from the maker's key and the bump, reads the vault, creates the escrow
/// account (rent-exempt, `Escrow::LEN` bytes, owned by the program's own id
/// `ID`, whatever id the runtime passed in), records
/// the offer in it, moves the deposit from the maker's token account to the
/// vault, and succeeds once these actions do.
pub proof fn law_make_opens_offer(
    accounts: Seq<AccountKey>,
    ix: MakeIxData,
    vault_amount: u64,
)
    requires
        accounts.len() == 8,
        accounts[0].is_signer,
    ensures
        ({
            let escrow = accounts[5].key;
            let (s0, t0) = spec_process_instruction(accounts, seq![0u8] + ix.spec_bytes());
            let (s1, t1) = s0.spec_resume(Outcome::Address(escrow));
            let vault = Outcome::TokenAccount { owner: escrow, amount: vault_amount };
            let (s2, t2) = s1.spec_resume(vault);
            let (s3, t3) = s2.spec_resume(Outcome::Completed);
            let (s4, t4) = s3.spec_resume(Outcome::Completed);
            let (s5, t5) = s4.spec_resume(Outcome::Completed);
            &&& t0 == Step::Perform(
                Action::DeriveAddress {
                    seeds: EscrowSeeds { maker: accounts[0].key, bump: ix.bump },
                    program_id: ID,
                },
            )
            &&& s0.expects(Outcome::Address(escrow)) && !s0.fatal(Outcome::Address(escrow))
            &&& t1 == Step::Perform(Action::ReadTokenAccount { account: 4 })
            &&& s1.expects(vault) && !s1.fatal(vault)
            &&& t2 == Step::Perform(
                Action::CreateAccount {
                    payer: 0,
                    account: 5,
                    space: ESCROW_LEN as u64,
                    owner: ID,
                },
            )
            &&& s2.expects(Outcome::Completed) && !s2.fatal(Outcome::Completed)
            &&& t3 == Step::Perform(
                Action::InitializeEscrow { account: 5, state: offer_of(accounts, ix) },
            )
            &&& s3.expects(Outcome::Completed) && !s3.fatal(Outcome::Completed)
            &&& t4 == Step::Perform(
                Action::Transfer {
                    from: 3,
                    to: 4,
                    authority: 0,
                    amount: ix.deposit_amount,
                    signer: None,
                },
            )
            &&& s4.expects(Outcome::Completed) && !s4.fatal(Outcome::Completed)
            &&& t5 == Step::Finish(Ok(()))
        }),
{
    law_make_ix_data_roundtrip(ix);
    assert((seq![0u8] + ix.spec_bytes()).skip(1) =~= ix.spec_bytes());
}

/// A `Take` signed by the taker, on an escrow account that holds `e` and has
/// the derived address, and a vault owned by the escrow that holds
/// `vault_amount` tokens, reads the escrow and the vault, asks for the
/// escrow's address from the maker's key and `e.bump`, makes the taker pay the
/// maker `e.receive_amount` tokens of mint B, moves all `vault_amount` tokens
/// to the taker (the escrow signing with the same seeds), closes the vault to
/// the maker, gives the maker the escrow's lamports, and succeeds once these
/// actions do.
pub proof fn law_take_swaps(
    accounts: Seq<AccountKey>,
    e: Escrow,
    data: Vec<u8>,
    vault_amount: u64,
    maker_lamports: u64,
    escrow_lamports: u64,
)
    requires
        accounts.len() == 11,
        accounts[0].is_signer,
        data@.len() == ESCROW_LEN,
        Escrow::spec_read(data@) == e,
        maker_lamports + escrow_lamports <= u64::MAX,
    ensures
        ({
            let escrow = accounts[8].key;
            let seeds = EscrowSeeds { maker: accounts[1].key, bump: e.bump };
            let vault = Outcome::TokenAccount { owner: escrow, amount: vault_amount };
            let lamports = Outcome::Lamports { recipient: maker_lamports, source: escrow_lamports };
            let (s0, t0) = spec_process_instruction(accounts, seq![1u8]);
            let (s1, t1) = s0.spec_resume(Outcome::Data(data));
            let (s2, t2) = s1.spec_resume(vault);
            let (s3, t3) = s2.spec_resume(Outcome::Address(escrow));
            let (s4, t4) = s3.spec_resume(Outcome::Completed);
            let (s5, t5) = s4.spec_resume(Outcome::Completed);
            let (s6, t6) = s5.spec_resume(Outcome::Completed);
            let (s7, t7) = s6.spec_resume(lamports);
            let (s8, t8) = s7.spec_resume(Outcome::Completed);
            &&& t0 == Step::Perform(Action::ReadData { account: 8 })
            &&& s0.expects(Outcome::Data(data)) && !s0.fatal(Outcome::Data(data))
            &&& t1 == Step::Perform(Action::ReadTokenAccount { account: 7 })
            &&& s1.expects(vault) && !s1.fatal(vault)
            &&& t2 == Step::Perform(Action::DeriveAddress { seeds, program_id: ID })
            &&& s2.expects(Outcome::Address(escrow)) && !s2.fatal(Outcome::Address(escrow))
            &&& t3 == Step::Perform(
                Action::Transfer { from: 5, to: 6, authority: 0, amount: e.receive_amount, signer: None },
            )
            &&& s3.expects(Outcome::Completed) && !s3.fatal(Outcome::Completed)
            &&& t4 == Step::Perform(
                Action::Transfer { from: 7, to: 4, authority: 8, amount: vault_amount, signer: Some(seeds) },
            )
            &&& s4.expects(Outcome::Completed) && !s4.fatal(Outcome::Completed)
            &&& t5 == Step::Perform(
                Action::CloseTokenAccount { account: 7, destination: 1, authority: 8, signer: Some(seeds) },
            )
            &&& s5.expects(Outcome::Completed) && !s5.fatal(Outcome::Completed)
            &&& t6 == Step::Perform(Action::ReadLamports { recipient: 1, source: 8 })
            &&& s6.expects(lamports) && !s6.fatal(lamports)
            &&& t7 == Step::Perform(
                Action::SetLamports {
                    recipient: 1,
                    recipient_lamports: (maker_lamports + escrow_lamports) as u64,
                    source: 8,
                    source_lamports: 0,
                },
            )
            &&& s7.expects(Outcome::Completed) && !s7.fatal(Outcome::Completed)
            &&& t8 == Step::Finish(Ok(()))
        }),
{
}

/// A `Refund` signed by the maker, on an escrow account that holds `e` and has
/// the derived address, and a vault owned by the escrow that holds
/// `vault_amount` tokens, moves all `vault_amount` tokens back to the maker's
/// token account (the escrow signing with the seeds of its address), closes
/// the vault to the maker, gives the maker the escrow's lamports, and
/// succeeds once these actions do.
pub proof fn law_refund_returns_vault(
    accounts: Seq<AccountKey>,
    e: Escrow,
    data: Vec<u8>,
    vault_amount: u64,
    maker_lamports: u64,
    escrow_lamports: u64,
)
    requires
        accounts.len() == 8,
        accounts[0].is_signer,
        data@.len() == ESCROW_LEN,
        Escrow::spec_read(data@) == e,
        maker_lamports + escrow_lamports <= u64::MAX,
    ensures
        ({
            let escrow = accounts[5].key;
            let seeds = EscrowSeeds { maker: accounts[0].key, bump: e.bump };
            let vault = Outcome::TokenAccount { owner: escrow, amount: vault_amount };
            let lamports = Outcome::Lamports { recipient: maker_lamports, source: escrow_lamports };
            let (s0, t0) = spec_process_instruction(accounts, seq![2u8]);
            let (s1, t1) = s0.spec_resume(Outcome::Data(data));
            let (s2, t2) = s1.spec_resume(vault);
            let (s3, t3) = s2.spec_resume(Outcome::Address(escrow));
            let (s4, t4) = s3.spec_resume(Outcome::Completed);
            let (s5, t5) = s4.spec_resume(Outcome::Completed);
            let (s6, t6) = s5.spec_resume(lamports);
            let (s7, t7) = s6.spec_resume(Outcome::Completed);
            &&& t0 == Step::Perform(Action::ReadData { account: 5 })
            &&& s0.expects(Outcome::Data(data)) && !s0.fatal(Outcome::Data(data))
            &&& t1 == Step::Perform(Action::ReadTokenAccount { account: 4 })
            &&& s1.expects(vault) && !s1.fatal(vault)
            &&& t2 == Step::Perform(Action::DeriveAddress { seeds, program_id: ID })
            &&& s2.expects(Outcome::Address(escrow)) && !s2.fatal(Outcome::Address(escrow))
            &&& t3 == Step::Perform(
                Action::Transfer { from: 4, to: 3, authority: 5, amount: vault_amount, signer: Some(seeds) },
            )
            &&& s3.expects(Outcome::Completed) && !s3.fatal(Outcome::Completed)
            &&& t4 == Step::Perform(
                Action::CloseTokenAccount { account: 4, destination: 0, authority: 5, signer: Some(seeds) },
            )
            &&& s4.expects(Outcome::Completed) && !s4.fatal(Outcome::Completed)
            &&& t5 == Step::Perform(Action::ReadLamports { recipient: 0, source: 5 })
            &&& s5.expects(lamports) && !s5.fatal(lamports)
            &&& t6 == Step::Perform(
                Action::SetLamports {
                    recipient: 0,
                    recipient_lamports: (maker_lamports + escrow_lamports) as u64,
                    source: 5,
                    source_lamports: 0,
                },
            )
            &&& s6.expects(Outcome::Completed) && !s6.fatal(Outcome::Completed)
            &&& t7 == Step::Finish(Ok(()))
        }),
{
}

/// What a `Take` makes the taker pay is what the `Make` of the offer recorded:
/// once the escrow account (of `Escrow::LEN` bytes) holds the state that
/// `Make` wrote, a `Take` on it asks the taker for the `receive_amount` of the
/// `Make`'s data, and signs for the vault with the maker's key and the bump
/// of the `Make`.
pub proof fn law_take_pays_what_make_recorded(
    make_accounts: Seq<AccountKey>,
    ix: MakeIxData,
    old_data: Seq<u8>,
    take_accounts: Seq<AccountKey>,
    data: Vec<u8>,
    vault_amount: u64,
)
    requires
        make_accounts.len() == 8,
        take_accounts.len() == 11,
        take_accounts[0].is_signer,
        take_accounts[1].key == make_accounts[0].key,
        old_data.len() == ESCROW_LEN,
        data@ == offer_of(make_accounts, ix).spec_write(old_data),
    ensures
        ({
            let escrow = take_accounts[8].key;
            let seeds = EscrowSeeds { maker: make_accounts[0].key, bump: ix.bump };
            let (s0, t0) = spec_process_instruction(take_accounts, seq![1u8]);
            let (s1, t1) = s0.spec_resume(Outcome::Data(data));
            let (s2, t2) = s1.spec_resume(
                Outcome::TokenAccount { owner: escrow, amount: vault_amount },
            );
            let (s3, t3) = s2.spec_resume(Outcome::Address(escrow));
            let (s4, t4) = s3.spec_resume(Outcome::Completed);
            &&& t2 == Step::Perform(Action::DeriveAddress { seeds, program_id: ID })
            &&& t3 == Step::Perform(
                Action::Transfer { from: 5, to: 6, authority: 0, amount: ix.receive_amount, signer: None },
            )
            &&& t4 == Step::Perform(
                Action::Transfer { from: 7, to: 4, authority: 8, amount: vault_amount, signer: Some(seeds) },
            )
        }),
{
    law_load_reads_back_write(offer_of(make_accounts, ix), old_data);
}

} // verus!
