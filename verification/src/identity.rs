//! Identity and credential values: both are opaque, fixed-length byte strings.

use vstd::prelude::*;

verus! {

/// The address under which a provider keeps a client's mailbox.
pub type DestinationAddressBytes = [u8; 32];

/// The credential a provider issues at registration.
pub type AuthToken = [u8; 32];

/// Byte-exact equality of two 32-byte identifiers.
pub fn same_bytes(a: &[u8; 32], b: &[u8; 32]) -> (equal: bool)
    ensures
        equal <==> a@ == b@,
{
    let mut i: usize = 0;
    while i < 32
        invariant
            i <= 32,
            forall|j: int| 0 <= j < i ==> a@[j] == b@[j],
        decreases 32 - i,
    {
        if a[i] != b[i] {
            return false;
        }
        i += 1;
    }
    assert(a@ =~= b@);
    true
}

} // verus!
