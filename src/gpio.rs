//! Analog-mode pins that can feed a comparator input.

use vstd::prelude::*;

pub mod gpioa;
pub mod gpiob;
pub mod gpioc;

verus! {

/// Marker for a pin placed in analog mode.
#[derive(Copy, Clone, PartialEq, Eq, Structural)]
pub struct Analog;

} // verus!
