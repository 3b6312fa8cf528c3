//! Keeps the set of transaction kinds closed.

use vstd::prelude::*;

verus! {

/// Implemented by the two kinds of this crate and by nothing else: the module
/// is private, so no other crate can name the trait.
pub trait Sealed {
}

} // verus!
