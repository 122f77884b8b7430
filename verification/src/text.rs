//! Comparison of text by its bytes.

use vstd::prelude::*;

verus! {

/// Returns whether the bytes of `text` are exactly `expected`.
pub fn bytes_equal(text: &[u8], expected: &[u8]) -> (equal: bool)
    ensures
        equal == (text@ == expected@),
{
    if text.len() != expected.len() {
        return false;
    }
    let mut i: usize = 0;
    while i < text.len()
        invariant
            text@.len() == expected@.len(),
            i <= text@.len(),
            forall|j: int| 0 <= j < i ==> text@[j] == expected@[j],
        decreases text@.len() - i,
    {
        if text[i] != expected[i] {
            return false;
        }
        i = i + 1;
    }
    assert(text@ =~= expected@);
    true
}

} // verus!
