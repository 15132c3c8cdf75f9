//! The identity of the marketplace program.

use crate::address::Address;
use vstd::prelude::*;

verus! {

/// The bytes of the address under which the marketplace is deployed; in
/// base 58 it reads `3J4pJELCCwVFjD58iBUUa46pmrZNXwkWGwQkYm8pAc4j`.
pub open spec fn id_bytes() -> Seq<u8> {
    seq![
        34u8, 22u8, 143u8, 208u8, 21u8, 243u8, 1u8, 155u8, 74u8, 50u8, 9u8, 116u8, 103u8, 205u8,
        140u8, 45u8, 61u8, 209u8, 217u8, 158u8, 152u8, 235u8, 67u8, 167u8, 9u8, 205u8, 25u8,
        179u8, 140u8, 86u8, 46u8, 252u8,
    ]
}

/// The address under which the marketplace is deployed.
pub fn id() -> (r: Address)
    ensures
        r@ == id_bytes(),
{
    let r = Address {
        bytes: [
            34u8, 22u8, 143u8, 208u8, 21u8, 243u8, 1u8, 155u8, 74u8, 50u8, 9u8, 116u8, 103u8,
            205u8, 140u8, 45u8, 61u8, 209u8, 217u8, 158u8, 152u8, 235u8, 67u8, 167u8, 9u8, 205u8,
            25u8, 179u8, 140u8, 86u8, 46u8, 252u8,
        ],
    };
    assert(r@ =~= id_bytes());
    r
}

/// Whether `address` is the one under which the marketplace is deployed.
pub fn check_id(address: &Address) -> (r: bool)
    ensures
        r == (address@ == id_bytes()),
{
    let own = id();
    address.same(&own)
}

} // verus!
