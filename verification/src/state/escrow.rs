use crate::codec::{le_bytes, le_value, lemma_le_roundtrip, read_key, read_u64_le, splice, write_key, write_u64_le};
use crate::error::EscrowError;
use pinocchio::pubkey::Pubkey;
use vstd::prelude::*;

verus! {

/// Size in bytes of an escrow account's data.
pub const ESCROW_LEN: usize = 120;

/// The state an escrow account holds: who made the offer, the two mints, how
/// many tokens of mint B the maker wants, and the bump of the escrow's address.
///
/// Its bytes follow the C layout of these fields in this order:
/// `is_initialized` at 0, `maker` at 1, `mint_a` at 33, `mint_b` at 65,
/// `receive_amount` (little endian) at 104, `bump` at 112; 120 bytes in all,
/// the others being padding.
#[derive(Clone, Copy, Debug, PartialEq, Eq)]
pub struct Escrow {
    pub is_initialized: bool,
    pub maker: Pubkey,
    pub mint_a: Pubkey,
    pub mint_b: Pubkey,
    pub receive_amount: u64,
    pub bump: u8,
}

/// The byte that stores a flag.
pub open spec fn flag_byte(b: bool) -> u8 {
    if b {
        1
    } else {
        0
    }
}

impl Escrow {
    /// Size in bytes of an escrow account's data.
    pub const LEN: usize = ESCROW_LEN;

    /// `s` with the fields of `self` written at their offsets; padding and any
    /// bytes past the layout are left as they were.
    pub open spec fn spec_write(self, s: Seq<u8>) -> Seq<u8> {
        splice(
            splice(
                splice(
                    splice(
                        splice(splice(s, 0, seq![flag_byte(self.is_initialized)]), 1, self.maker@),
                        33,
                        self.mint_a@,
                    ),
                    65,
                    self.mint_b@,
                ),
                104,
                le_bytes(self.receive_amount),
            ),
            112,
            seq![self.bump],
        )
    }

    /// `self` is what the field bytes of `s` hold.
    pub open spec fn is_read_from(self, s: Seq<u8>) -> bool {
        &&& self.is_initialized == (s[0] != 0)
        &&& self.maker@ == s.subrange(1, 33)
        &&& self.mint_a@ == s.subrange(33, 65)
        &&& self.mint_b@ == s.subrange(65, 97)
        &&& self.receive_amount == le_value(s, 104)
        &&& self.bump == s[112]
    }

    /// The escrow that the field bytes of `s` hold.
    pub open spec fn spec_read(s: Seq<u8>) -> Escrow {
        choose|e: Escrow| e.is_read_from(s)
    }

    /// The escrow stored in the data of an escrow account.
    ///
    /// Fails with `InvalidAccountData` unless the data is exactly
    /// [`Escrow::LEN`] bytes long. A flag byte other than 0 reads as set.
    pub fn load(data: &[u8]) -> (res: Result<Escrow, EscrowError>)
        ensures
            data@.len() != ESCROW_LEN ==> res == Err::<Escrow, EscrowError>(
                EscrowError::InvalidAccountData,
            ),
            data@.len() == ESCROW_LEN ==> res == Ok::<Escrow, EscrowError>(
                Escrow::spec_read(data@),
            ) && Escrow::spec_read(data@).is_read_from(data@),
    {
        if data.len() != ESCROW_LEN {
            return Err(EscrowError::InvalidAccountData);
        }
        let e = Escrow {
            is_initialized: data[0] != 0,
            maker: read_key(data, 1),
            mint_a: read_key(data, 33),
            mint_b: read_key(data, 65),
            receive_amount: read_u64_le(data, 104),
            bump: data[112],
        };
        proof {
            lemma_read_unique(e, Escrow::spec_read(data@), data@);
        }
        Ok(e)
    }

    /// Writes the fields of `self` at their offsets in `data`.
    pub fn write_to(&self, data: &mut [u8])
        requires
            old(data)@.len() >= ESCROW_LEN,
        ensures
            final(data)@ == self.spec_write(old(data)@),
    {
        data[0] = if self.is_initialized {
            1
        } else {
            0
        };
        assert(data@ =~= splice(old(data)@, 0, seq![flag_byte(self.is_initialized)]));
        write_key(data, 1, &self.maker);
        write_key(data, 33, &self.mint_a);
        write_key(data, 65, &self.mint_b);
        write_u64_le(data, 104, self.receive_amount);
        let ghost before = data@;
        data[112] = self.bump;
        assert(data@ =~= splice(before, 112, seq![self.bump]));
    }

    /// Records a new offer in the data of an escrow account: the escrow is
    /// marked initialized and holds the given maker, mints, amount and bump.
    pub fn initialize(
        data: &mut [u8],
        maker: Pubkey,
        mint_a: Pubkey,
        mint_b: Pubkey,
        receive_amount: u64,
        bump: u8,
    )
        requires
            old(data)@.len() >= ESCROW_LEN,
        ensures
            final(data)@ == (Escrow {
                is_initialized: true,
                maker,
                mint_a,
                mint_b,
                receive_amount,
                bump,
            }).spec_write(old(data)@),
    {
        let escrow = Escrow { is_initialized: true, maker, mint_a, mint_b, receive_amount, bump };
        escrow.write_to(data);
    }

    /// The bytes of an escrow account that holds `self`, padding zeroed.
    pub fn to_bytes(&self) -> (bytes: Vec<u8>)
        ensures
            bytes@ == self.spec_write(Seq::new(ESCROW_LEN as nat, |i: int| 0u8)),
    {
        let mut bytes: Vec<u8> = vec![0u8; ESCROW_LEN];
        assert(bytes@ =~= Seq::new(ESCROW_LEN as nat, |i: int| 0u8));
        self.write_to(bytes.as_mut_slice());
        bytes
    }
}

/// Two escrows read from the same bytes are the same escrow.
pub proof fn lemma_read_unique(a: Escrow, b: Escrow, s: Seq<u8>)
    requires
        a.is_read_from(s),
        b.is_read_from(s),
    ensures
        a == b,
{
    assert(a.maker =~= b.maker);
    assert(a.mint_a =~= b.mint_a);
    assert(a.mint_b =~= b.mint_b);
}

/// The bytes written for `e` are read as `e`.
pub proof fn lemma_written_is_read(e: Escrow, s: Seq<u8>)
    requires
        s.len() >= ESCROW_LEN,
    ensures
        e.is_read_from(e.spec_write(s)),
{
    let w = e.spec_write(s);
    assert(w.len() == s.len());
    assert(w[0] == flag_byte(e.is_initialized));
    assert(w.subrange(1, 33) =~= e.maker@);
    assert(w.subrange(33, 65) =~= e.mint_a@);
    assert(w.subrange(65, 97) =~= e.mint_b@);
    assert(w.subrange(104, 112) =~= le_bytes(e.receive_amount));
    assert(w[112] == e.bump);
    lemma_le_roundtrip(e.receive_amount);
    assert(le_value(w, 104) == le_value(w.subrange(104, 112), 0));
}

/// What an escrow account holds after [`Escrow::initialize`] (or
/// [`Escrow::write_to`]) is what [`Escrow::load`] reads back: the escrow read
/// from the bytes written for `e` is `e`.
pub proof fn law_load_reads_back_write(e: Escrow, s: Seq<u8>)
    requires
        s.len() == ESCROW_LEN,
    ensures
        e.spec_write(s).len() == ESCROW_LEN,
        Escrow::spec_read(e.spec_write(s)) == e,
{
    lemma_written_is_read(e, s);
    let r = Escrow::spec_read(e.spec_write(s));
    lemma_read_unique(r, e, e.spec_write(s));
}

} // verus!
