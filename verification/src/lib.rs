//! Menu-driven window lifecycle controller for a desktop shell.
//!
//! The library models the decision logic of a native application shell:
//! the static application menu, the dispatch from menu command identifiers
//! to window lifecycle operations, the registry of live windows, and the
//! per-window policy for attaching the shared native menu. The host
//! windowing system itself is driven by an unverified front end that
//! performs the effects this library decides on.

use vstd::prelude::*;

pub mod command;
pub mod dispatch;
pub mod laws;
pub mod menu;
pub mod shell;

verus! {

/// Compares two strings character by character.
pub fn str_eq(a: &str, b: &str) -> (r: bool)
    ensures
        r == (a@ == b@),
{
    let alen = a.unicode_len();
    let blen = b.unicode_len();
    if alen != blen {
        proof {
            assert(a@ != b@) by {
                if a@ == b@ {
                    assert(a@.len() == b@.len());
                }
            }
        }
        return false;
    }
    let mut i: usize = 0;
    while i < alen
        invariant
            i <= alen,
            alen == a@.len(),
            alen == b@.len(),
            forall|j: int| 0 <= j < i ==> a@[j] == b@[j],
        decreases alen - i,
    {
        if a.get_char(i) != b.get_char(i) {
            return false;
        }
        i += 1;
    }
    proof {
        assert(a@ =~= b@);
    }
    true
}

} // verus!
