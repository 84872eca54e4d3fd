use pinocchio_escrow::codec::{keys_equal, read_key, read_u64_le, write_key, write_u64_le};
use pinocchio_escrow::error::EscrowError;
use pinocchio_escrow::instruction::{process_make, process_refund, process_take, MakeIxData, MyProgramInstruction};
use pinocchio_escrow::processor::{process_instruction, AccountKey, Action, EscrowSeeds, Outcome, Step};
use pinocchio_escrow::state::Escrow;

use pinocchio_escrow::ID as PROGRAM;
const OTHER_PROGRAM: [u8; 32] = [0x77; 32];
const ESCROW_KEY: [u8; 32] = [0xEE; 32];

fn keys(n: usize, signer: bool) -> Vec<AccountKey> {
    (0..n)
        .map(|i| AccountKey { key: [i as u8 + 1; 32], is_signer: i == 0 && signer })
        .collect()
}

fn with_escrow(mut k: Vec<AccountKey>, at: usize) -> Vec<AccountKey> {
    k[at].key = ESCROW_KEY;
    k
}

fn ix_bytes(deposit: u64, receive: u64, bump: u8) -> Vec<u8> {
    MakeIxData { deposit_amount: deposit, receive_amount: receive, bump }.to_bytes()
}

fn finish_err(step: Step) -> EscrowError {
    match step {
        Step::Finish(Err(e)) => e,
        other => panic!("expected an error, got {:?}", other),
    }
}

#[test]
fn discriminators_select_instructions() {
    assert_eq!(MyProgramInstruction::try_from(&0), Ok(MyProgramInstruction::Make));
    assert_eq!(MyProgramInstruction::try_from(&1), Ok(MyProgramInstruction::Take));
    assert_eq!(MyProgramInstruction::try_from(&2), Ok(MyProgramInstruction::Refund));
    assert_eq!(MyProgramInstruction::try_from(&3), Err(EscrowError::InvalidInstructionData));
    assert_eq!(MyProgramInstruction::try_from(&255), Err(EscrowError::InvalidInstructionData));
}

#[test]
fn empty_or_unknown_instruction_is_refused() {
    let k = keys(8, true);
    let (_, step) = process_instruction(&PROGRAM, &k, &[]);
    assert_eq!(finish_err(step), EscrowError::InvalidInstructionData);
    let (_, step) = process_instruction(&PROGRAM, &k, &[7, 0, 0]);
    assert_eq!(finish_err(step), EscrowError::InvalidInstructionData);
}

#[test]
fn make_ix_data_layout() {
    let b = ix_bytes(10, 9, 254);
    let mut expected = vec![0u8; 24];
    expected[0] = 10;
    expected[8] = 9;
    expected[16] = 254;
    assert_eq!(b, expected);
    let b = ix_bytes(0x0102_0304_0506_0708, u64::MAX, 1);
    assert_eq!(&b[0..8], &[8, 7, 6, 5, 4, 3, 2, 1]);
    assert_eq!(&b[8..16], &[255; 8]);
    assert_eq!(MakeIxData::load(&b), Ok(MakeIxData { deposit_amount: 0x0102_0304_0506_0708, receive_amount: u64::MAX, bump: 1 }));
    assert_eq!(MakeIxData::load(&b[..23]), Err(EscrowError::InvalidInstructionData));
    let mut long = b.clone();
    long.push(0);
    assert_eq!(MakeIxData::load(&long), Err(EscrowError::InvalidInstructionData));
}

#[test]
fn escrow_layout() {
    let e = Escrow { is_initialized: true, maker: [1; 32], mint_a: [2; 32], mint_b: [3; 32], receive_amount: 0x1122, bump: 7 };
    let b = e.to_bytes();
    assert_eq!(b.len(), Escrow::LEN);
    assert_eq!(b.len(), 120);
    assert_eq!(b[0], 1);
    assert_eq!(&b[1..33], &[1; 32]);
    assert_eq!(&b[33..65], &[2; 32]);
    assert_eq!(&b[65..97], &[3; 32]);
    assert_eq!(&b[97..104], &[0; 7]);
    assert_eq!(&b[104..112], &[0x22, 0x11, 0, 0, 0, 0, 0, 0]);
    assert_eq!(b[112], 7);
    assert_eq!(&b[113..120], &[0; 7]);
    assert_eq!(Escrow::load(&b), Ok(e));
    assert_eq!(Escrow::load(&b[..119]), Err(EscrowError::InvalidAccountData));
}

#[test]
fn initialize_writes_fields_and_keeps_padding() {
    let mut data = vec![0xAAu8; 120];
    Escrow::initialize(&mut data, [4; 32], [5; 32], [6; 32], 9, 200);
    assert_eq!(data[0], 1);
    assert_eq!(&data[97..104], &[0xAA; 7]);
    assert_eq!(&data[113..120], &[0xAA; 7]);
    let e = Escrow::load(&data).unwrap();
    assert_eq!(e, Escrow { is_initialized: true, maker: [4; 32], mint_a: [5; 32], mint_b: [6; 32], receive_amount: 9, bump: 200 });
}

#[test]
fn flag_byte_reads_as_set_when_nonzero() {
    let mut data = Escrow { is_initialized: false, maker: [1; 32], mint_a: [2; 32], mint_b: [3; 32], receive_amount: 1, bump: 1 }.to_bytes();
    assert_eq!(data[0], 0);
    assert!(!Escrow::load(&data).unwrap().is_initialized);
    data[0] = 5;
    assert!(Escrow::load(&data).unwrap().is_initialized);
}

#[test]
fn codec_helpers() {
    let mut s = vec![0u8; 50];
    write_u64_le(&mut s, 3, 0xDEAD_BEEF);
    assert_eq!(&s[3..11], &[0xEF, 0xBE, 0xAD, 0xDE, 0, 0, 0, 0]);
    assert_eq!(read_u64_le(&s, 3), 0xDEAD_BEEF);
    write_key(&mut s, 10, &[9; 32]);
    assert_eq!(read_key(&s, 10), [9; 32]);
    assert_eq!(s[42], 0);
    assert!(keys_equal(&[1; 32], &[1; 32]));
    let mut other = [1u8; 32];
    other[31] = 2;
    assert!(!keys_equal(&[1; 32], &other));
}

#[test]
fn escrow_seeds_are_escrow_maker_bump() {
    let seeds = EscrowSeeds { maker: [3; 32], bump: 250 };
    assert_eq!(seeds.to_vecs(), vec![b"escrow".to_vec(), vec![3; 32], vec![250]]);
}

#[test]
fn make_refuses_wrong_account_count() {
    for n in [0usize, 7, 9] {
        let (_, step) = process_make(&keys(n, true), &ix_bytes(1, 1, 1));
        assert_eq!(finish_err(step), EscrowError::NotEnoughAccountKeys);
    }
}

#[test]
fn make_requires_maker_signature() {
    let (_, step) = process_make(&keys(8, false), &ix_bytes(1, 1, 1));
    assert_eq!(finish_err(step), EscrowError::MissingRequiredSignature);
}

#[test]
fn make_refuses_bad_data() {
    let (_, step) = process_make(&keys(8, true), &[0; 23]);
    assert_eq!(finish_err(step), EscrowError::InvalidInstructionData);
}

#[test]
fn make_refuses_wrong_escrow_address() {
    let k = with_escrow(keys(8, true), 5);
    let (s, step) = process_make(&k, &ix_bytes(1, 1, 3));
    assert_eq!(step, Step::Perform(Action::DeriveAddress { seeds: EscrowSeeds { maker: k[0].key, bump: 3 }, program_id: PROGRAM }));
    let (_, step) = s.resume(Outcome::Address([0x42; 32]));
    assert_eq!(finish_err(step), EscrowError::InvalidAccountData);
}

#[test]
fn make_passes_on_outside_failures() {
    let k = with_escrow(keys(8, true), 5);
    let (s, _) = process_make(&k, &ix_bytes(1, 1, 3));
    let (_, step) = s.resume(Outcome::Failed(14 << 32));
    assert_eq!(finish_err(step), EscrowError::Runtime(14 << 32));
    let (s, _) = process_make(&k, &ix_bytes(1, 1, 3));
    let (s, _) = s.resume(Outcome::Address(ESCROW_KEY));
    let (s, step) = s.resume(Outcome::TokenAccount { owner: ESCROW_KEY, amount: 0 });
    assert_eq!(step, Step::Perform(Action::CreateAccount { payer: 0, account: 5, space: 120, owner: PROGRAM }));
    let (_, step) = s.resume(Outcome::Failed(6 << 32));
    assert_eq!(finish_err(step), EscrowError::Runtime(6 << 32));
}

#[test]
fn make_aborts_on_foreign_vault() {
    let k = with_escrow(keys(8, true), 5);
    let (s, _) = process_make(&k, &ix_bytes(1, 1, 3));
    let (s, _) = s.resume(Outcome::Address(ESCROW_KEY));
    assert!(s.is_fatal(&Outcome::TokenAccount { owner: [1; 32], amount: 0 }));
    assert!(s.is_fatal(&Outcome::Failed(4 << 32)));
    assert!(!s.is_fatal(&Outcome::TokenAccount { owner: ESCROW_KEY, amount: 0 }));
    assert!(!s.expects_outcome(&Outcome::Completed));
}

#[test]
fn take_refuses_wrong_accounts() {
    let (_, step) = process_take(&keys(10, true));
    assert_eq!(finish_err(step), EscrowError::NotEnoughAccountKeys);
    let (_, step) = process_take(&keys(11, false));
    assert_eq!(finish_err(step), EscrowError::MissingRequiredSignature);
}

#[test]
fn take_refuses_bad_escrow_data() {
    let k = with_escrow(keys(11, true), 8);
    let (s, step) = process_take(&k);
    assert_eq!(step, Step::Perform(Action::ReadData { account: 8 }));
    let (_, step) = s.resume(Outcome::Data(vec![0; 119]));
    assert_eq!(finish_err(step), EscrowError::InvalidAccountData);
}

fn take_after_escrow_read() -> pinocchio_escrow::instruction::ReleaseState {
    let k = with_escrow(keys(11, true), 8);
    let (s, _) = process_take(&k);
    let e = Escrow { is_initialized: true, maker: k[1].key, mint_a: [3; 32], mint_b: [4; 32], receive_amount: 9, bump: 250 };
    let (s, step) = s.resume(Outcome::Data(e.to_bytes()));
    assert_eq!(step, Step::Perform(Action::ReadTokenAccount { account: 7 }));
    s
}

#[test]
fn take_passes_on_vault_read_failure() {
    let s = take_after_escrow_read();
    let (_, step) = s.resume(Outcome::Failed(4 << 32));
    assert_eq!(finish_err(step), EscrowError::Runtime(4 << 32));
}

#[test]
fn take_refuses_wrong_escrow_address() {
    let s = take_after_escrow_read();
    let (s, step) = s.resume(Outcome::TokenAccount { owner: ESCROW_KEY, amount: 10 });
    assert_eq!(step, Step::Perform(Action::DeriveAddress { seeds: EscrowSeeds { maker: [2; 32], bump: 250 }, program_id: PROGRAM }));
    let (_, step) = s.resume(Outcome::Address([0x42; 32]));
    assert_eq!(finish_err(step), EscrowError::InvalidAccountData);
}

#[test]
fn take_aborts_on_foreign_vault_only_after_address_check() {
    let s = take_after_escrow_read();
    let (s, _) = s.resume(Outcome::TokenAccount { owner: [0x42; 32], amount: 10 });
    assert!(s.is_fatal(&Outcome::Address(ESCROW_KEY)));
    assert!(!s.is_fatal(&Outcome::Address([0x42; 32])));
}

#[test]
fn take_pays_then_releases_then_closes() {
    let s = take_after_escrow_read();
    let (s, _) = s.resume(Outcome::TokenAccount { owner: ESCROW_KEY, amount: 10 });
    let seeds = EscrowSeeds { maker: [2; 32], bump: 250 };
    let (s, step) = s.resume(Outcome::Address(ESCROW_KEY));
    assert_eq!(step, Step::Perform(Action::Transfer { from: 5, to: 6, authority: 0, amount: 9, signer: None }));
    let (s, step) = s.resume(Outcome::Completed);
    assert_eq!(step, Step::Perform(Action::Transfer { from: 7, to: 4, authority: 8, amount: 10, signer: Some(seeds) }));
    let (s, step) = s.resume(Outcome::Completed);
    assert_eq!(step, Step::Perform(Action::CloseTokenAccount { account: 7, destination: 1, authority: 8, signer: Some(seeds) }));
    let (s, step) = s.resume(Outcome::Completed);
    assert_eq!(step, Step::Perform(Action::ReadLamports { recipient: 1, source: 8 }));
    assert!(s.is_fatal(&Outcome::Lamports { recipient: u64::MAX, source: 1 }));
    let (s, step) = s.resume(Outcome::Lamports { recipient: 500, source: 70 });
    assert_eq!(step, Step::Perform(Action::SetLamports { recipient: 1, recipient_lamports: 570, source: 8, source_lamports: 0 }));
    let (_, step) = s.resume(Outcome::Completed);
    assert_eq!(step, Step::Finish(Ok(())));
}

#[test]
fn take_payment_failure_ends_instruction() {
    let s = take_after_escrow_read();
    let (s, _) = s.resume(Outcome::TokenAccount { owner: ESCROW_KEY, amount: 10 });
    let (s, _) = s.resume(Outcome::Address(ESCROW_KEY));
    let (_, step) = s.resume(Outcome::Failed(1));
    assert_eq!(finish_err(step), EscrowError::Runtime(1));
}

#[test]
fn refund_releases_vault_to_maker() {
    let k = with_escrow(keys(8, true), 5);
    let (s, step) = process_refund(&k);
    assert_eq!(step, Step::Perform(Action::ReadData { account: 5 }));
    let e = Escrow { is_initialized: true, maker: k[0].key, mint_a: [2; 32], mint_b: [3; 32], receive_amount: 9, bump: 251 };
    let (s, _) = s.resume(Outcome::Data(e.to_bytes()));
    let (s, _) = s.resume(Outcome::TokenAccount { owner: ESCROW_KEY, amount: 33 });
    let seeds = EscrowSeeds { maker: k[0].key, bump: 251 };
    let (_, step) = s.resume(Outcome::Address(ESCROW_KEY));
    assert_eq!(step, Step::Perform(Action::Transfer { from: 4, to: 3, authority: 5, amount: 33, signer: Some(seeds) }));
}

#[test]
fn refund_refuses_wrong_accounts() {
    let (_, step) = process_refund(&keys(9, true));
    assert_eq!(finish_err(step), EscrowError::NotEnoughAccountKeys);
    let (_, step) = process_refund(&keys(8, false));
    assert_eq!(finish_err(step), EscrowError::MissingRequiredSignature);
}

#[test]
fn make_then_take_charges_recorded_amount() {
    let make_keys = with_escrow(keys(8, true), 5);
    let (s, _) = process_make(&make_keys, &ix_bytes(10, 9, 240));
    let (s, _) = s.resume(Outcome::Address(ESCROW_KEY));
    let (s, _) = s.resume(Outcome::TokenAccount { owner: ESCROW_KEY, amount: 0 });
    let (_, step) = s.resume(Outcome::Completed);
    let state = match step {
        Step::Perform(Action::InitializeEscrow { account: 5, state }) => state,
        other => panic!("unexpected {:?}", other),
    };
    let mut data = vec![0u8; 120];
    Escrow::initialize(&mut data, state.maker, state.mint_a, state.mint_b, state.receive_amount, state.bump);

    let mut take_keys = with_escrow(keys(11, true), 8);
    take_keys[1].key = make_keys[0].key;
    let (s, _) = process_take(&take_keys);
    let (s, _) = s.resume(Outcome::Data(data));
    let (s, step) = s.resume(Outcome::TokenAccount { owner: ESCROW_KEY, amount: 10 });
    assert_eq!(step, Step::Perform(Action::DeriveAddress { seeds: EscrowSeeds { maker: make_keys[0].key, bump: 240 }, program_id: PROGRAM }));
    let (_, step) = s.resume(Outcome::Address(ESCROW_KEY));
    assert_eq!(step, Step::Perform(Action::Transfer { from: 5, to: 6, authority: 0, amount: 9, signer: None }));
}

#[test]
fn program_id_passed_in_is_not_read() {
    let k = with_escrow(keys(8, true), 5);
    let mut data = vec![0u8];
    data.extend_from_slice(&ix_bytes(10, 9, 3));
    let (s1, t1) = process_instruction(&PROGRAM, &k, &data);
    let (s2, t2) = process_instruction(&OTHER_PROGRAM, &k, &data);
    assert_eq!(s1, s2);
    assert_eq!(t1, Step::Perform(Action::DeriveAddress { seeds: EscrowSeeds { maker: k[0].key, bump: 3 }, program_id: PROGRAM }));
    assert_eq!(t1, t2);
    let (s, _) = s2.resume(Outcome::Address(ESCROW_KEY));
    let (_, step) = s.resume(Outcome::TokenAccount { owner: ESCROW_KEY, amount: 0 });
    assert_eq!(step, Step::Perform(Action::CreateAccount { payer: 0, account: 5, space: 120, owner: PROGRAM }));
    assert_ne!(PROGRAM, OTHER_PROGRAM);
}
