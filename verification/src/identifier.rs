//! Block identifiers: thirty-two bytes, of which the all-zero value is set apart.

use vstd::prelude::*;

verus! {

/// The content-derived key of a block.
pub type Identifier = [u8; 32];

/// Whether every byte of `bytes` is zero: the value a block carries in place of a parent
/// when it has none.
pub open spec fn is_sentinel(bytes: Seq<u8>) -> bool {
    forall|i: int| 0 <= i < bytes.len() ==> bytes[i] == 0u8
}

/// Tests an identifier for the sentinel.
pub fn is_zero(id: &Identifier) -> (zero: bool)
    ensures
        zero == is_sentinel(id@),
{
    let mut i: usize = 0;
    while i < 32
        invariant
            i <= 32,
            forall|j: int| 0 <= j < i ==> id@[j] == 0u8,
        decreases 32 - i,
    {
        if id[i] != 0 {
            return false;
        }
        i += 1;
    }
    true
}

} // verus!
