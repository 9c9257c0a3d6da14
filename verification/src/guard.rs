//! Authority guard: a stateless check that a presented caller identity
//! matches a build's recorded owner identity.

use vstd::prelude::*;

use crate::types::Build;

verus! {

/// Compares two 32-byte identity keys for equality.
pub fn keys_equal(a: &[u8; 32], b: &[u8; 32]) -> (r: bool)
    ensures
        r == (a@ == b@),
{
    let mut i: usize = 0;
    while i < 32
        invariant
            0 <= i <= 32,
            forall|k: int| 0 <= k < i ==> a@[k] == b@[k],
        decreases 32 - i,
    {
        if a[i] != b[i] {
            assert(a@[i as int] != b@[i as int]);
            return false;
        }
        i += 1;
    }
    assert(a@ =~= b@);
    true
}

/// True exactly when `presented` is the identity recorded as the build's
/// owning authority. Pure: no state, no side effects.
pub fn is_authorized(presented: &[u8; 32], build: &Build) -> (r: bool)
    ensures
        r == (presented@ == build.authority@),
{
    keys_equal(presented, &build.authority)
}

} // verus!
