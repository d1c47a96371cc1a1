//! Port A pins.

use vstd::prelude::*;

verus! {

/// Pin PA0 in the mode `MODE`.
pub struct PA0<MODE>(pub MODE);

/// Pin PA1 in the mode `MODE`.
pub struct PA1<MODE>(pub MODE);

/// Pin PA2 in the mode `MODE`.
pub struct PA2<MODE>(pub MODE);

/// Pin PA3 in the mode `MODE`.
pub struct PA3<MODE>(pub MODE);

} // verus!
