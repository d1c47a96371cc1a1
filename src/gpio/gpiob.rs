//! Port B pins.

use vstd::prelude::*;

verus! {

/// Pin PB1 in the mode `MODE`.
pub struct PB1<MODE>(pub MODE);

/// Pin PB2 in the mode `MODE`.
pub struct PB2<MODE>(pub MODE);

/// Pin PB3 in the mode `MODE`.
pub struct PB3<MODE>(pub MODE);

/// Pin PB4 in the mode `MODE`.
pub struct PB4<MODE>(pub MODE);

/// Pin PB6 in the mode `MODE`.
pub struct PB6<MODE>(pub MODE);

/// Pin PB7 in the mode `MODE`.
pub struct PB7<MODE>(pub MODE);

} // verus!
