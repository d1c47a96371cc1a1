//! DAC output channels, typed by whether the channel is enabled.

use vstd::prelude::*;

verus! {

/// Marker for an enabled DAC channel.
#[derive(Copy, Clone, PartialEq, Eq, Structural)]
pub struct Enabled;

/// Marker for a disabled DAC channel.
#[derive(Copy, Clone, PartialEq, Eq, Structural)]
pub struct Disabled;

/// DAC output channel 1 in the state `ED`.
pub struct Channel1<ED>(pub ED);

/// DAC output channel 2 in the state `ED`.
pub struct Channel2<ED>(pub ED);

} // verus!
