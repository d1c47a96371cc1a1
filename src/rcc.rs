//! The reset and clock control registers that the comparator bring-up uses.

use vstd::prelude::*;

verus! {

/// Clock enable of the system configuration and comparator block, in `apbenr2`.
pub const SYSCFGEN_SHIFT: u32 = 0;
/// Reset of the system configuration and comparator block, in `apbrstr2`.
pub const SYSCFGRST_SHIFT: u32 = 0;

/// Reset and clock control: the peripheral clock enable and reset registers of
/// the bus the comparators sit on.
pub struct Rcc {
    pub apbenr2: u32,
    pub apbrstr2: u32,
}

} // verus!
