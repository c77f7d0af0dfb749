//! References to Python objects, as the laws on call sequences count them.

use vstd::multiset::Multiset;
use vstd::prelude::*;

verus! {

/// The reference, unless it is null.
pub open spec fn held(obj: usize) -> Multiset<usize> {
    if obj == 0 {
        Multiset::empty()
    } else {
        Multiset::singleton(obj)
    }
}

} // verus!
