//! Fixed addresses.

use vstd::prelude::*;
use crate::types::address::Address;

verus! {

/// The bytes of the wrapped-ether token's address on mainnet.
pub open spec fn weth_address_bytes() -> Seq<u8> {
    seq![
        0xc0u8, 0x2a, 0xaa, 0x39, 0xb2, 0x23, 0xfe, 0x8d, 0x0a, 0x0e,
        0x5c, 0x4f, 0x27, 0xea, 0xd9, 0x08, 0x3c, 0x75, 0x6c, 0xc2,
    ]
}

/// The address of the wrapped-ether token, the base asset of every swap.
pub fn get_weth_address() -> (r: Address)
    ensures
        r@ == weth_address_bytes(),
{
    let r = Address {
        bytes: [
            0xc0, 0x2a, 0xaa, 0x39, 0xb2, 0x23, 0xfe, 0x8d, 0x0a, 0x0e,
            0x5c, 0x4f, 0x27, 0xea, 0xd9, 0x08, 0x3c, 0x75, 0x6c, 0xc2,
        ],
    };
    assert(r@ =~= weth_address_bytes());
    r
}

} // verus!
