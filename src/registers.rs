//! Control/status register image of one comparator unit, with its bit-field
//! layout and field writes that leave every other bit untouched.

use vstd::prelude::*;

verus! {

/// Enable bit.
pub const EN_SHIFT: u32 = 0;
/// Negative input selection, four bits.
pub const INMSEL_SHIFT: u32 = 4;
/// Positive input selection, two bits.
pub const INPSEL_SHIFT: u32 = 8;
/// Window mode: take the positive input from the other unit's positive pin.
pub const WINMODE_SHIFT: u32 = 11;
/// Window output: report this unit's output XOR the other unit's output.
pub const WINOUT_SHIFT: u32 = 14;
/// Output polarity: set to invert the comparison.
pub const POLARITY_SHIFT: u32 = 15;
/// Hysteresis level, two bits.
pub const HYST_SHIFT: u32 = 16;
/// Power mode, two bits.
pub const PWRMODE_SHIFT: u32 = 18;
/// Comparator output level, driven by the hardware.
pub const VALUE_SHIFT: u32 = 30;

/// Masks of one-, two- and four-bit fields.
pub const MASK_1: u32 = 0x1;
pub const MASK_2: u32 = 0x3;
pub const MASK_4: u32 = 0xf;

/// The field of `mask`'s width at bit `shift` of `w`.
pub open spec fn field(w: u32, shift: u32, mask: u32) -> u32 {
    (w >> shift) & mask
}

/// `w` with the field of `mask`'s width at bit `shift` replaced by `v`.
pub open spec fn with_field(w: u32, shift: u32, mask: u32, v: u32) -> u32 {
    (w & !(mask << shift)) | ((v & mask) << shift)
}

/// The enable bit of a register word.
pub open spec fn en(w: u32) -> u32 {
    field(w, EN_SHIFT, MASK_1)
}

/// The negative input selection of a register word.
pub open spec fn inmsel(w: u32) -> u32 {
    field(w, INMSEL_SHIFT, MASK_4)
}

/// The positive input selection of a register word.
pub open spec fn inpsel(w: u32) -> u32 {
    field(w, INPSEL_SHIFT, MASK_2)
}

/// The window mode bit of a register word.
pub open spec fn winmode(w: u32) -> u32 {
    field(w, WINMODE_SHIFT, MASK_1)
}

/// The window output bit of a register word.
pub open spec fn winout(w: u32) -> u32 {
    field(w, WINOUT_SHIFT, MASK_1)
}

/// The polarity bit of a register word.
pub open spec fn polarity(w: u32) -> u32 {
    field(w, POLARITY_SHIFT, MASK_1)
}

/// The hysteresis level of a register word.
pub open spec fn hyst(w: u32) -> u32 {
    field(w, HYST_SHIFT, MASK_2)
}

/// The power mode of a register word.
pub open spec fn pwrmode(w: u32) -> u32 {
    field(w, PWRMODE_SHIFT, MASK_2)
}

/// The output bit of a register word.
pub open spec fn value(w: u32) -> u32 {
    field(w, VALUE_SHIFT, MASK_1)
}

/// Number of bits of a field of the given mask.
pub open spec fn span(mask: u32) -> u32 {
    if mask == MASK_1 {
        1
    } else if mask == MASK_2 {
        2
    } else {
        4
    }
}

/// A mask of one of the widths the register uses.
pub open spec fn is_mask(mask: u32) -> bool {
    mask == MASK_1 || mask == MASK_2 || mask == MASK_4
}

/// A field reads back the value written to it.
pub broadcast proof fn lemma_field_written(w: u32, shift: u32, mask: u32, v: u32)
    requires
        is_mask(mask),
        shift + span(mask) <= 32,
        v <= mask,
    ensures
        #[trigger] field(with_field(w, shift, mask, v), shift, mask) == v,
{
    assert(((((w & !(mask << shift)) | ((v & mask) << shift)) >> shift) & mask) == v)
        by (bit_vector)
        requires
            (mask == 1 && shift + 1 <= 32) || (mask == 3 && shift + 2 <= 32) || (mask == 15
                && shift + 4 <= 32),
            v <= mask,
    ;
}

/// Writing one field leaves every field that shares no bit with it unchanged.
pub broadcast proof fn lemma_field_kept(w: u32, shift: u32, mask: u32, v: u32, s2: u32, m2: u32)
    requires
        is_mask(mask),
        is_mask(m2),
        shift + span(mask) <= s2 || s2 + span(m2) <= shift,
        s2 + span(m2) <= 32,
        shift + span(mask) <= 32,
    ensures
        #[trigger] field(with_field(w, shift, mask, v), s2, m2) == field(w, s2, m2),
{
    assert(((((w & !(mask << shift)) | ((v & mask) << shift)) >> s2) & m2) == ((w >> s2) & m2))
        by (bit_vector)
        requires
            mask == 1 || mask == 3 || mask == 15,
            m2 == 1 || m2 == 3 || m2 == 15,
            (mask == 1 && shift + 1 <= s2) || (mask == 3 && shift + 2 <= s2) || (mask == 15
                && shift + 4 <= s2) || (m2 == 1 && s2 + 1 <= shift) || (m2 == 3 && s2 + 2
                <= shift) || (m2 == 15 && s2 + 4 <= shift),
            s2 + 4 <= 32 || (m2 == 1 && s2 + 1 <= 32) || (m2 == 3 && s2 + 2 <= 32),
            shift + 4 <= 32 || (mask == 1 && shift + 1 <= 32) || (mask == 3 && shift + 2 <= 32),
    ;
}

/// Writing a field twice keeps only the second value.
pub broadcast proof fn lemma_field_overwritten(w: u32, shift: u32, mask: u32, v1: u32, v2: u32)
    ensures
        #[trigger] with_field(with_field(w, shift, mask, v1), shift, mask, v2) == with_field(
            w,
            shift,
            mask,
            v2,
        ),
{
    assert(((((w & !(mask << shift)) | ((v1 & mask) << shift)) & !(mask << shift)) | ((v2 & mask)
        << shift)) == ((w & !(mask << shift)) | ((v2 & mask) << shift))) by (bit_vector);
}

/// What field writes do to field reads.
pub broadcast group group_fields {
    lemma_field_written,
    lemma_field_kept,
    lemma_field_overwritten,
}

/// Replaces one field of a register word.
pub fn set_field(w: u32, shift: u32, mask: u32, v: u32) -> (r: u32)
    requires
        shift < 32,
    ensures
        r == with_field(w, shift, mask, v),
{
    (w & !(mask << shift)) | ((v & mask) << shift)
}

/// Reads one field of a register word.
pub fn get_field(w: u32, shift: u32, mask: u32) -> (r: u32)
    requires
        shift < 32,
    ensures
        r == field(w, shift, mask),
{
    (w >> shift) & mask
}

/// Image of one comparator control/status register.
pub struct Csr {
    bits: u32,
}

impl View for Csr {
    type V = u32;

    closed spec fn view(&self) -> u32 {
        self.bits
    }
}

impl Csr {
    /// The register as it reads after a peripheral reset.
    pub(crate) fn reset_value() -> (r: Csr)
        ensures
            r@ == 0,
    {
        Csr { bits: 0 }
    }

    /// Reads the whole register.
    pub fn read(&self) -> (r: u32)
        ensures
            r == self@,
    {
        self.bits
    }

    /// Writes the whole register.
    pub(crate) fn write(&mut self, bits: u32)
        ensures
            final(self)@ == bits,
    {
        self.bits = bits;
    }
}

} // verus!
