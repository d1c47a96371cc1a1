//! Port C pins.

use vstd::prelude::*;

verus! {

/// Pin PC4 in the mode `MODE`.
pub struct PC4<MODE>(pub MODE);

/// Pin PC5 in the mode `MODE`.
pub struct PC5<MODE>(pub MODE);

} // verus!
