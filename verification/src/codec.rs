//! Little-endian encoding of `u64` values and byte-range helpers.
use pinocchio::pubkey::Pubkey;
use vstd::prelude::*;

verus! {

/// The value of the eight bytes of `s` that start at `at`, least significant first.
pub open spec fn le_value(s: Seq<u8>, at: int) -> int {
    s[at] as int + s[at + 1] as int * 0x100 + s[at + 2] as int * 0x1_0000 + s[at + 3] as int
        * 0x100_0000 + s[at + 4] as int * 0x1_0000_0000 + s[at + 5] as int * 0x100_0000_0000
        + s[at + 6] as int * 0x1_0000_0000_0000 + s[at + 7] as int * 0x100_0000_0000_0000
}

/// The eight bytes of `v`, least significant first.
pub open spec fn le_bytes(v: u64) -> Seq<u8> {
    seq![
        (v % 0x100) as u8,
        ((v / 0x100) % 0x100) as u8,
        ((v / 0x1_0000) % 0x100) as u8,
        ((v / 0x100_0000) % 0x100) as u8,
        ((v / 0x1_0000_0000) % 0x100) as u8,
        ((v / 0x100_0000_0000) % 0x100) as u8,
        ((v / 0x1_0000_0000_0000) % 0x100) as u8,
        ((v / 0x100_0000_0000_0000) % 0x100) as u8,
    ]
}

/// `s` with the bytes from `at` on replaced by `bytes`.
pub open spec fn splice(s: Seq<u8>, at: int, bytes: Seq<u8>) -> Seq<u8> {
    s.take(at) + bytes + s.skip(at + bytes.len())
}

/// Decoding the encoding of `v` gives back `v`.
pub proof fn lemma_le_roundtrip(v: u64)
    ensures
        le_value(le_bytes(v), 0) == v,
{
    let b = le_bytes(v);
    assert((v % 0x100) as u8 as int + ((v / 0x100) % 0x100) as u8 as int * 0x100
        + ((v / 0x1_0000) % 0x100) as u8 as int * 0x1_0000
        + ((v / 0x100_0000) % 0x100) as u8 as int * 0x100_0000
        + ((v / 0x1_0000_0000) % 0x100) as u8 as int * 0x1_0000_0000
        + ((v / 0x100_0000_0000) % 0x100) as u8 as int * 0x100_0000_0000
        + ((v / 0x1_0000_0000_0000) % 0x100) as u8 as int * 0x1_0000_0000_0000
        + ((v / 0x100_0000_0000_0000) % 0x100) as u8 as int * 0x100_0000_0000_0000 == v)
        by (bit_vector);
}

/// Reads the little-endian `u64` stored in `s[at..at + 8]`.
pub fn read_u64_le(s: &[u8], at: usize) -> (v: u64)
    requires
        at + 8 <= s@.len(),
    ensures
        v == le_value(s@, at as int),
{
    s[at] as u64 + s[at + 1] as u64 * 0x100 + s[at + 2] as u64 * 0x1_0000 + s[at + 3] as u64
        * 0x100_0000 + s[at + 4] as u64 * 0x1_0000_0000 + s[at + 5] as u64 * 0x100_0000_0000
        + s[at + 6] as u64 * 0x1_0000_0000_0000 + s[at + 7] as u64 * 0x100_0000_0000_0000
}

/// Writes `v` in little-endian order into `s[at..at + 8]`.
pub fn write_u64_le(s: &mut [u8], at: usize, v: u64)
    requires
        at + 8 <= old(s)@.len(),
    ensures
        final(s)@ == splice(old(s)@, at as int, le_bytes(v)),
{
    s[at] = (v % 0x100) as u8;
    s[at + 1] = ((v / 0x100) % 0x100) as u8;
    s[at + 2] = ((v / 0x1_0000) % 0x100) as u8;
    s[at + 3] = ((v / 0x100_0000) % 0x100) as u8;
    s[at + 4] = ((v / 0x1_0000_0000) % 0x100) as u8;
    s[at + 5] = ((v / 0x100_0000_0000) % 0x100) as u8;
    s[at + 6] = ((v / 0x1_0000_0000_0000) % 0x100) as u8;
    s[at + 7] = ((v / 0x100_0000_0000_0000) % 0x100) as u8;
    assert(s@ =~= splice(old(s)@, at as int, le_bytes(v)));
}

/// Reads the 32-byte key stored in `s[at..at + 32]`.
pub fn read_key(s: &[u8], at: usize) -> (k: Pubkey)
    requires
        at + 32 <= s@.len(),
    ensures
        k@ == s@.subrange(at as int, at + 32),
{
    let mut k: Pubkey = [0u8; 32];
    let mut i: usize = 0;
    while i < 32
        invariant
            i <= 32,
            at + 32 <= s.len(),
            forall|j: int| 0 <= j < i ==> k@[j] == s@[at + j],
        decreases 32 - i,
    {
        k[i] = s[at + i];
        i = i + 1;
    }
    assert(k@ =~= s@.subrange(at as int, at + 32));
    k
}

/// Writes the 32-byte key `k` into `s[at..at + 32]`.
pub fn write_key(s: &mut [u8], at: usize, k: &Pubkey)
    requires
        at + 32 <= old(s)@.len(),
    ensures
        final(s)@ == splice(old(s)@, at as int, k@),
{
    let mut i: usize = 0;
    while i < 32
        invariant
            i <= 32,
            at + 32 <= s.len(),
            s@.len() == old(s)@.len(),
            forall|j: int| 0 <= j < at || at + 32 <= j < s@.len() ==> s@[j] == old(s)@[j],
            forall|j: int| at + i <= j < at + 32 ==> s@[j] == old(s)@[j],
            forall|j: int| 0 <= j < i ==> s@[at + j] == k@[j],
        decreases 32 - i,
    {
        s[at + i] = k[i];
        i = i + 1;
    }
    assert(s@ =~= splice(old(s)@, at as int, k@));
}

/// Whether two keys are the same.
pub fn keys_equal(a: &Pubkey, b: &Pubkey) -> (eq: bool)
    ensures
        eq == (*a == *b),
{
    let mut i: usize = 0;
    while i < 32
        invariant
            i <= 32,
            forall|j: int| 0 <= j < i ==> a@[j] == b@[j],
        decreases 32 - i,
    {
        if a[i] != b[i] {
            return false;
        }
        i = i + 1;
    }
    assert(*a =~= *b);
    true
}

} // verus!
