//! The program's fixed values.
use pinocchio::pubkey::Pubkey;
use vstd::prelude::*;

verus! {

/// The program's own id: the address it is deployed at. Escrow addresses are
/// derived under it, and escrow accounts are created owned by it.
pub const ID: Pubkey = [
    0x3d, 0x5a, 0x91, 0x0e, 0xc4, 0x27, 0x8b, 0xf2, 0x16, 0x6e, 0xa9, 0x40, 0xd3, 0x71, 0x0b, 0x8c,
    0x55, 0xe2, 0x9f, 0x34, 0x7a, 0xc8, 0x01, 0x6b, 0xbd, 0x48, 0x92, 0xf7, 0x23, 0x5e, 0xa0, 0x19,
];

} // verus!
