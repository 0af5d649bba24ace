use vstd::prelude::*;

use crate::constants::VALID_ROLE_MASK;
use crate::errors::StablecoinError;

verus! {

/// Holds at least one of the roles named by `mask`.
pub open spec fn spec_has_any_role(roles: u8, mask: u8) -> bool {
    roles & mask != 0
}

pub fn has_any_role(roles: u8, mask: u8) -> (held: bool)
    ensures
        held == spec_has_any_role(roles, mask),
{
    roles & mask != 0
}

/// A bitmask is valid when it sets none of the bits outside the seven
/// defined role bits.
pub open spec fn spec_valid_roles(roles: u8) -> bool {
    roles & !VALID_ROLE_MASK == 0
}

/// An exact copy of a byte string, for carrying one value into both a
/// record and its event.
pub fn clone_bytes(v: &Vec<u8>) -> (r: Vec<u8>)
    ensures
        r@ == v@,
{
    let mut r: Vec<u8> = Vec::new();
    let mut i: usize = 0;
    while i < v.len()
        invariant
            i <= v@.len(),
            r@ =~= v@.take(i as int),
        decreases v@.len() - i,
    {
        r.push(v[i]);
        i = i + 1;
    }
    proof {
        assert(r@ =~= v@);
    }
    r
}

pub fn require_valid_roles(roles: u8) -> (r: Result<(), StablecoinError>)
    ensures
        r is Ok <==> spec_valid_roles(roles),
        r is Err ==> r == Err::<(), StablecoinError>(StablecoinError::InvalidRoles),
{
    if roles & !VALID_ROLE_MASK == 0 {
        Ok(())
    } else {
        Err(StablecoinError::InvalidRoles)
    }
}

} // verus!
