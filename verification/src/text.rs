//! Text as the graphics driver wants it: a run of bytes that ends with a
//! single zero byte and holds no other.

use vstd::prelude::*;
use vstd::string::*;

verus! {

/// Why a text cannot be handed to the driver.
#[derive(Clone, Copy, Debug, PartialEq, Eq, Structural)]
pub enum TextError {
    /// The text has no bytes at all.
    Empty,
    /// The text holds a zero byte, which the driver would take for its end.
    InteriorNul {
        /// Index of the first zero byte.
        position: usize,
    },
}

/// Whether some byte of `bytes` is zero.
pub open spec fn has_nul(bytes: Seq<u8>) -> bool {
    exists|i: int| 0 <= i < bytes.len() && bytes[i] == 0u8
}

/// Whether `position` is the index of the first zero byte of `bytes`.
pub open spec fn is_first_nul(bytes: Seq<u8>, position: int) -> bool {
    &&& 0 <= position < bytes.len()
    &&& bytes[position] == 0u8
    &&& forall|j: int| 0 <= j < position ==> bytes[j] != 0u8
}

/// Copies a text into a zero-terminated buffer.
///
/// An empty text and a text with a zero byte in it are refused; any other
/// text comes back as its own bytes followed by one zero.
pub fn nul_terminated(text: &str) -> (out: Result<Vec<u8>, TextError>)
    ensures
        match out {
            Ok(terminated) => {
                &&& text.spec_bytes().len() > 0
                &&& !has_nul(text.spec_bytes())
                &&& terminated@ == text.spec_bytes().push(0u8)
            },
            Err(TextError::Empty) => text.spec_bytes().len() == 0,
            Err(TextError::InteriorNul { position }) => is_first_nul(
                text.spec_bytes(),
                position as int,
            ),
        },
{
    let bytes = text.as_bytes();
    let n = bytes.len();
    if n == 0 {
        return Err(TextError::Empty);
    }
    let mut terminated: Vec<u8> = Vec::new();
    let mut i: usize = 0;
    while i < n
        invariant
            bytes@ == text.spec_bytes(),
            n == bytes@.len(),
            i <= n,
            terminated@ == bytes@.subrange(0, i as int),
            forall|j: int| 0 <= j < i ==> bytes@[j] != 0u8,
        decreases n - i,
    {
        let b = bytes[i];
        if b == 0 {
            return Err(TextError::InteriorNul { position: i });
        }
        terminated.push(b);
        assert(terminated@ == bytes@.subrange(0, i + 1));
        i += 1;
    }
    assert(bytes@.subrange(0, n as int) == bytes@);
    terminated.push(0);
    Ok(terminated)
}

/// A text has at most one first zero byte: the position that is reported
/// for a refused text is the only one that could be.
pub proof fn lemma_first_nul_is_unique(bytes: Seq<u8>, p: int, q: int)
    requires
        is_first_nul(bytes, p),
        is_first_nul(bytes, q),
    ensures
        p == q,
        has_nul(bytes),
{
}

} // verus!
