//! Comparator units, their input bindings and configuration, the window
//! comparator built from two units, and peripheral bring-up.

use vstd::prelude::*;

use crate::dac;
use crate::gpio::gpioa;
use crate::gpio::gpiob;
use crate::gpio::gpioc;
use crate::gpio::Analog;
use crate::rcc::{Rcc, SYSCFGEN_SHIFT, SYSCFGRST_SHIFT};
use crate::registers::{
    en, get_field, group_fields, hyst, inmsel, inpsel, polarity, pwrmode, set_field, value, winmode,
    winout, with_field, Csr, EN_SHIFT, HYST_SHIFT, INMSEL_SHIFT, INPSEL_SHIFT, MASK_1, MASK_2,
    MASK_4, POLARITY_SHIFT, PWRMODE_SHIFT, VALUE_SHIFT, WINMODE_SHIFT, WINOUT_SHIFT,
};

verus! {

broadcast use group_fields;

/// One bit of a register field for a flag.
pub open spec fn flag(b: bool) -> u32 {
    if b {
        1
    } else {
        0
    }
}

fn flag_bits(b: bool) -> (r: u32)
    ensures
        r == flag(b),
{
    if b {
        1
    } else {
        0
    }
}

// ---------------------------------------------------------------------------
// Register handles
// ---------------------------------------------------------------------------

/// Register handle of one comparator unit; its view is the unit's
/// control/status register.
pub trait Instance: View<V = u32> {
    /// The unit's control/status register.
    fn csr(&self) -> (r: &Csr)
        ensures
            r@ == self@,
    ;

    /// Writes the unit's control/status register.
    fn write_csr(&mut self, bits: u32)
        ensures
            final(self)@ == bits,
    ;
}

/// Register handle of comparator unit 1.
pub struct COMP1 {
    csr: Csr,
}

/// Register handle of comparator unit 2.
pub struct COMP2 {
    csr: Csr,
}

impl View for COMP1 {
    type V = u32;

    closed spec fn view(&self) -> u32 {
        self.csr@
    }
}

impl View for COMP2 {
    type V = u32;

    closed spec fn view(&self) -> u32 {
        self.csr@
    }
}

impl Instance for COMP1 {
    fn csr(&self) -> (r: &Csr) {
        &self.csr
    }

    fn write_csr(&mut self, bits: u32) {
        self.csr.write(bits);
    }
}

impl Instance for COMP2 {
    fn csr(&self) -> (r: &Csr) {
        &self.csr
    }

    fn write_csr(&mut self, bits: u32) {
        self.csr.write(bits);
    }
}

/// Sets one field of a unit's register, leaving the rest of it as it was.
fn modify_field<C: Instance>(comp: &mut C, shift: u32, mask: u32, v: u32)
    requires
        shift < 32,
    ensures
        final(comp)@ == with_field(old(comp)@, shift, mask, v),
{
    let w = comp.csr().read();
    comp.write_csr(set_field(w, shift, mask, v));
}

// ---------------------------------------------------------------------------
// Configuration
// ---------------------------------------------------------------------------

/// Hysteresis level.
#[derive(Copy, Clone, PartialEq, Eq, Structural)]
pub enum Hysteresis {
    Off,
    Low,
    Medium,
    High,
}

impl Hysteresis {
    /// Encoding of the level in the hysteresis field.
    pub open spec fn spec_bits(self) -> u32 {
        match self {
            Hysteresis::Off => 0b00,
            Hysteresis::Low => 0b01,
            Hysteresis::Medium => 0b10,
            Hysteresis::High => 0b11,
        }
    }

    pub fn bits(self) -> (r: u32)
        ensures
            r == self.spec_bits(),
    {
        match self {
            Hysteresis::Off => 0b00,
            Hysteresis::Low => 0b01,
            Hysteresis::Medium => 0b10,
            Hysteresis::High => 0b11,
        }
    }
}

/// Power and speed mode.
#[derive(Copy, Clone, PartialEq, Eq, Structural)]
pub enum PowerMode {
    HighSpeed,
    MediumSpeed,
}

impl PowerMode {
    /// Encoding of the mode in the power mode field.
    pub open spec fn spec_bits(self) -> u32 {
        match self {
            PowerMode::HighSpeed => 0b00,
            PowerMode::MediumSpeed => 0b01,
        }
    }

    pub fn bits(self) -> (r: u32)
        ensures
            r == self.spec_bits(),
    {
        match self {
            PowerMode::HighSpeed => 0b00,
            PowerMode::MediumSpeed => 0b01,
        }
    }
}

/// What a [`Config`] holds.
#[derive(Copy, Clone, PartialEq, Eq, Structural)]
pub struct ConfigView {
    pub power_mode: PowerMode,
    pub hysteresis: Hysteresis,
    pub inverted: bool,
    pub output_xor: bool,
}

/// Electrical configuration of one comparator unit, built from the defaults
/// (no hysteresis, high speed, not inverted, no XOR) by the builder methods.
#[derive(Copy, Clone, PartialEq, Eq, Structural)]
pub struct Config {
    power_mode: PowerMode,
    hysteresis: Hysteresis,
    inverted: bool,
    output_xor: bool,
}

impl View for Config {
    type V = ConfigView;

    closed spec fn view(&self) -> ConfigView {
        ConfigView {
            power_mode: self.power_mode,
            hysteresis: self.hysteresis,
            inverted: self.inverted,
            output_xor: self.output_xor,
        }
    }
}

impl Default for Config {
    fn default() -> (r: Self)
        ensures
            r@ == (ConfigView {
                hysteresis: Hysteresis::Off,
                inverted: false,
                power_mode: PowerMode::HighSpeed,
                output_xor: false,
            }),
    {
        Self {
            hysteresis: Hysteresis::Off,
            inverted: false,
            power_mode: PowerMode::HighSpeed,
            output_xor: false,
        }
    }
}

impl Config {
    pub fn hysteresis(self, hysteresis: Hysteresis) -> (r: Self)
        ensures
            r@ == (ConfigView { hysteresis, ..self@ }),
    {
        Config { hysteresis, ..self }
    }

    pub fn output_inverted(self) -> (r: Self)
        ensures
            r@ == (ConfigView { inverted: true, ..self@ }),
    {
        Config { inverted: true, ..self }
    }

    pub fn output_polarity(self, inverted: bool) -> (r: Self)
        ensures
            r@ == (ConfigView { inverted, ..self@ }),
    {
        Config { inverted, ..self }
    }

    pub fn power_mode(self, power_mode: PowerMode) -> (r: Self)
        ensures
            r@ == (ConfigView { power_mode, ..self@ }),
    {
        Config { power_mode, ..self }
    }

    /// Sets the output to be comparator 1 XOR comparator 2, as window mode
    /// needs.
    pub fn output_xor(self) -> (r: Self)
        ensures
            r@ == (ConfigView { output_xor: true, ..self@ }),
    {
        Config { output_xor: true, ..self }
    }

    /// The same configuration with the XOR output set as given.
    fn with_output_xor(self, output_xor: bool) -> (r: Self)
        ensures
            r@ == (ConfigView { output_xor, ..self@ }),
    {
        Config { output_xor, ..self }
    }
}

/// `w` with the hysteresis, polarity, power mode and XOR output fields set
/// from `c`.
pub open spec fn apply_config(w: u32, c: ConfigView) -> u32 {
    let w1 = with_field(w, HYST_SHIFT, MASK_2, c.hysteresis.spec_bits());
    let w2 = with_field(w1, POLARITY_SHIFT, MASK_1, flag(c.inverted));
    let w3 = with_field(w2, PWRMODE_SHIFT, MASK_2, c.power_mode.spec_bits());
    with_field(w3, WINOUT_SHIFT, MASK_1, flag(c.output_xor))
}

// ---------------------------------------------------------------------------
// Input bindings
// ---------------------------------------------------------------------------

/// Where a positive input source is routed on a unit.
#[derive(Copy, Clone, PartialEq, Eq, Structural)]
pub enum PositiveRouting {
    /// Through the positive input selection field, with this code.
    Select(u32),
    /// Through window mode: the other unit's positive pin.
    Window,
}

impl PositiveRouting {
    /// A selection code fits the two-bit field.
    pub open spec fn wf(self) -> bool {
        match self {
            PositiveRouting::Select(code) => code <= 0b11,
            PositiveRouting::Window => true,
        }
    }
}

/// `w` with a positive input routed as `r`.
pub open spec fn route_positive(w: u32, r: PositiveRouting) -> u32 {
    match r {
        PositiveRouting::Select(code) => with_field(w, INPSEL_SHIFT, MASK_2, code),
        PositiveRouting::Window => with_field(w, WINMODE_SHIFT, MASK_1, 1),
    }
}

/// `w` with the negative input selection set to `code`.
pub open spec fn route_negative(w: u32, code: u32) -> u32 {
    with_field(w, INMSEL_SHIFT, MASK_4, code)
}

/// `w` after a unit is initialized with these inputs and configuration.
pub open spec fn configured(w: u32, p: PositiveRouting, n: u32, c: ConfigView) -> u32 {
    apply_config(route_negative(route_positive(w, p), n), c)
}

/// Comparator positive input, for unit `C`.
pub trait PositiveInput<C: Instance> {
    /// Where this source is routed on unit `C`.
    spec fn routing(&self) -> PositiveRouting;

    fn setup(&self, comp: &mut C)
        ensures
            final(comp)@ == route_positive(old(comp)@, self.routing()),
            self.routing().wf(),
    ;
}

/// Comparator negative input, for unit `C`.
pub trait NegativeInput<C: Instance> {
    /// Code of this source in unit `C`'s negative input selection field.
    spec fn selection(&self) -> u32;

    fn setup(&self, comp: &mut C)
        ensures
            final(comp)@ == route_negative(old(comp)@, self.selection()),
            self.selection() <= 0b1111,
    ;
}

/// Routes a positive input source: the one place where a positive binding
/// touches the register.
fn bind_positive<C: Instance>(comp: &mut C, routing: PositiveRouting)
    requires
        routing.wf(),
    ensures
        final(comp)@ == route_positive(old(comp)@, routing),
{
    match routing {
        PositiveRouting::Select(code) => modify_field(comp, INPSEL_SHIFT, MASK_2, code),
        PositiveRouting::Window => modify_field(comp, WINMODE_SHIFT, MASK_1, 1),
    }
}

/// Routes a negative input source: the one place where a negative binding
/// touches the register.
fn bind_negative<C: Instance>(comp: &mut C, code: u32)
    requires
        code <= 0b1111,
    ensures
        final(comp)@ == route_negative(old(comp)@, code),
{
    modify_field(comp, INMSEL_SHIFT, MASK_4, code);
}

/// Comparator input open (not connected).
#[derive(Copy, Clone, PartialEq, Eq, Structural)]
pub struct Open;

/// Comparator 1 positive input used as positive input for comparator 2, as
/// window mode needs.
#[derive(Copy, Clone, PartialEq, Eq, Structural)]
pub struct Comp1InP;

/// Comparator 2 positive input used as positive input for comparator 1, as
/// window mode needs.
#[derive(Copy, Clone, PartialEq, Eq, Structural)]
pub struct Comp2InP;


// The binding table: which source may feed which input of which unit, and
// with which code. A pair missing here does not compile.

impl PositiveInput<COMP1> for Comp2InP {
    open spec fn routing(&self) -> PositiveRouting {
        PositiveRouting::Window
    }

    fn setup(&self, comp: &mut COMP1) {
        bind_positive(comp, PositiveRouting::Window);
    }
}

impl PositiveInput<COMP2> for Comp1InP {
    open spec fn routing(&self) -> PositiveRouting {
        PositiveRouting::Window
    }

    fn setup(&self, comp: &mut COMP2) {
        bind_positive(comp, PositiveRouting::Window);
    }
}

impl PositiveInput<COMP1> for gpioc::PC5<Analog> {
    open spec fn routing(&self) -> PositiveRouting {
        PositiveRouting::Select(0b00)
    }

    fn setup(&self, comp: &mut COMP1) {
        bind_positive(comp, PositiveRouting::Select(0b00));
    }
}

impl PositiveInput<COMP1> for gpiob::PB2<Analog> {
    open spec fn routing(&self) -> PositiveRouting {
        PositiveRouting::Select(0b01)
    }

    fn setup(&self, comp: &mut COMP1) {
        bind_positive(comp, PositiveRouting::Select(0b01));
    }
}

impl PositiveInput<COMP1> for gpioa::PA1<Analog> {
    open spec fn routing(&self) -> PositiveRouting {
        PositiveRouting::Select(0b10)
    }

    fn setup(&self, comp: &mut COMP1) {
        bind_positive(comp, PositiveRouting::Select(0b10));
    }
}

impl PositiveInput<COMP1> for Open {
    open spec fn routing(&self) -> PositiveRouting {
        PositiveRouting::Select(0b11)
    }

    fn setup(&self, comp: &mut COMP1) {
        bind_positive(comp, PositiveRouting::Select(0b11));
    }
}

impl PositiveInput<COMP2> for gpiob::PB4<Analog> {
    open spec fn routing(&self) -> PositiveRouting {
        PositiveRouting::Select(0b00)
    }

    fn setup(&self, comp: &mut COMP2) {
        bind_positive(comp, PositiveRouting::Select(0b00));
    }
}

impl PositiveInput<COMP2> for gpiob::PB6<Analog> {
    open spec fn routing(&self) -> PositiveRouting {
        PositiveRouting::Select(0b01)
    }

    fn setup(&self, comp: &mut COMP2) {
        bind_positive(comp, PositiveRouting::Select(0b01));
    }
}

impl PositiveInput<COMP2> for gpioa::PA3<Analog> {
    open spec fn routing(&self) -> PositiveRouting {
        PositiveRouting::Select(0b10)
    }

    fn setup(&self, comp: &mut COMP2) {
        bind_positive(comp, PositiveRouting::Select(0b10));
    }
}

impl PositiveInput<COMP2> for Open {
    open spec fn routing(&self) -> PositiveRouting {
        PositiveRouting::Select(0b11)
    }

    fn setup(&self, comp: &mut COMP2) {
        bind_positive(comp, PositiveRouting::Select(0b11));
    }
}

impl NegativeInput<COMP1> for gpiob::PB1<Analog> {
    open spec fn selection(&self) -> u32 {
        0b0110
    }

    fn setup(&self, comp: &mut COMP1) {
        bind_negative(comp, 0b0110);
    }
}

impl NegativeInput<COMP1> for gpioc::PC4<Analog> {
    open spec fn selection(&self) -> u32 {
        0b0111
    }

    fn setup(&self, comp: &mut COMP1) {
        bind_negative(comp, 0b0111);
    }
}

impl NegativeInput<COMP1> for gpioa::PA0<Analog> {
    open spec fn selection(&self) -> u32 {
        0b1000
    }

    fn setup(&self, comp: &mut COMP1) {
        bind_negative(comp, 0b1000);
    }
}

impl NegativeInput<COMP2> for gpiob::PB3<Analog> {
    open spec fn selection(&self) -> u32 {
        0b0110
    }

    fn setup(&self, comp: &mut COMP2) {
        bind_negative(comp, 0b0110);
    }
}

impl NegativeInput<COMP2> for gpiob::PB7<Analog> {
    open spec fn selection(&self) -> u32 {
        0b0111
    }

    fn setup(&self, comp: &mut COMP2) {
        bind_negative(comp, 0b0111);
    }
}

impl NegativeInput<COMP2> for gpioa::PA2<Analog> {
    open spec fn selection(&self) -> u32 {
        0b1000
    }

    fn setup(&self, comp: &mut COMP2) {
        bind_negative(comp, 0b1000);
    }
}

impl NegativeInput<COMP1> for dac::Channel1<dac::Enabled> {
    open spec fn selection(&self) -> u32 {
        0b0100
    }

    fn setup(&self, comp: &mut COMP1) {
        bind_negative(comp, 0b0100);
    }
}

impl NegativeInput<COMP1> for dac::Channel2<dac::Enabled> {
    open spec fn selection(&self) -> u32 {
        0b0101
    }

    fn setup(&self, comp: &mut COMP1) {
        bind_negative(comp, 0b0101);
    }
}

impl NegativeInput<COMP2> for dac::Channel1<dac::Enabled> {
    open spec fn selection(&self) -> u32 {
        0b0100
    }

    fn setup(&self, comp: &mut COMP2) {
        bind_negative(comp, 0b0100);
    }
}

impl NegativeInput<COMP2> for dac::Channel2<dac::Enabled> {
    open spec fn selection(&self) -> u32 {
        0b0101
    }

    fn setup(&self, comp: &mut COMP2) {
        bind_negative(comp, 0b0101);
    }
}

/// Internal reference voltage, or a fraction of it, as negative input.
#[derive(Copy, Clone, PartialEq, Eq, Structural)]
pub enum RefintInput {
    /// VRefint * 1/4
    VRefintM14,
    /// VRefint * 1/2
    VRefintM12,
    /// VRefint * 3/4
    VRefintM34,
    /// VRefint
    VRefint,
}

impl RefintInput {
    /// Code of the tap in the negative input selection field.
    pub open spec fn spec_bits(self) -> u32 {
        match self {
            RefintInput::VRefintM14 => 0b0000,
            RefintInput::VRefintM12 => 0b0001,
            RefintInput::VRefintM34 => 0b0010,
            RefintInput::VRefint => 0b0011,
        }
    }

    pub fn bits(self) -> (r: u32)
        ensures
            r == self.spec_bits(),
    {
        match self {
            RefintInput::VRefintM14 => 0b0000,
            RefintInput::VRefintM12 => 0b0001,
            RefintInput::VRefintM34 => 0b0010,
            RefintInput::VRefint => 0b0011,
        }
    }
}

impl NegativeInput<COMP1> for RefintInput {
    open spec fn selection(&self) -> u32 {
        self.spec_bits()
    }

    fn setup(&self, comp: &mut COMP1) {
        bind_negative(comp, self.bits());
    }
}

impl NegativeInput<COMP2> for RefintInput {
    open spec fn selection(&self) -> u32 {
        self.spec_bits()
    }

    fn setup(&self, comp: &mut COMP2) {
        bind_negative(comp, self.bits());
    }
}

// ---------------------------------------------------------------------------
// Single comparator
// ---------------------------------------------------------------------------

/// Output of a unit on its own: high when enabled and the positive input is
/// above the negative one, flipped when the polarity bit is set.
pub open spec fn unit_output(w: u32, above: bool) -> bool {
    en(w) == 1 && (above != (polarity(w) == 1))
}

/// Output level the hardware drives for a unit with register word `w`, where
/// `above` tells whether its positive input is above its negative input and
/// `partner` is the other unit's own output.
pub open spec fn driven_value(w: u32, above: bool, partner: bool) -> bool {
    if winout(w) == 1 {
        unit_output(w, above) != partner
    } else {
        unit_output(w, above)
    }
}

/// `w` with the output bit at `level`.
pub open spec fn latched(w: u32, level: bool) -> u32 {
    with_field(w, VALUE_SHIFT, MASK_1, flag(level))
}

/// `w` with the enable bit set.
pub open spec fn enabled(w: u32) -> u32 {
    with_field(w, EN_SHIFT, MASK_1, 1)
}

/// `w` with the enable bit clear.
pub open spec fn disabled(w: u32) -> u32 {
    with_field(w, EN_SHIFT, MASK_1, 0)
}

/// One comparator unit, owning the register handle `C`.
pub struct Comparator<C> {
    regs: C,
}

impl<C: Instance> View for Comparator<C> {
    type V = u32;

    closed spec fn view(&self) -> u32 {
        self.regs@
    }
}

pub trait ComparatorExt<COMP: Instance>: View<V = u32> {
    /// Routes the inputs, then writes hysteresis, polarity, power mode and
    /// XOR output from `config` in one register update.
    fn init<P: PositiveInput<COMP>, N: NegativeInput<COMP>>(
        &mut self,
        positive_input: P,
        negative_input: N,
        config: Config,
    )
        ensures
            final(self)@ == configured(
                old(self)@,
                positive_input.routing(),
                negative_input.selection(),
                config@,
            ),
    ;

    /// The output bit of the unit.
    fn output(&self) -> (r: bool)
        ensures
            r == (value(self@) == 1),
    ;

    fn enable(&mut self)
        ensures
            final(self)@ == enabled(old(self)@),
    ;

    fn disable(&mut self)
        ensures
            final(self)@ == disabled(old(self)@),
    ;
}

impl<C: Instance> ComparatorExt<C> for Comparator<C> {
    fn init<P: PositiveInput<C>, N: NegativeInput<C>>(
        &mut self,
        positive_input: P,
        negative_input: N,
        config: Config,
    ) {
        positive_input.setup(&mut self.regs);
        negative_input.setup(&mut self.regs);
        let w = self.regs.csr().read();
        let w = set_field(w, HYST_SHIFT, MASK_2, config.hysteresis.bits());
        let w = set_field(w, POLARITY_SHIFT, MASK_1, flag_bits(config.inverted));
        let w = set_field(w, PWRMODE_SHIFT, MASK_2, config.power_mode.bits());
        let w = set_field(w, WINOUT_SHIFT, MASK_1, flag_bits(config.output_xor));
        self.regs.write_csr(w);
    }

    fn output(&self) -> (r: bool) {
        get_field(self.regs.csr().read(), VALUE_SHIFT, MASK_1) == 1
    }

    fn enable(&mut self) {
        modify_field(&mut self.regs, EN_SHIFT, MASK_1, 1);
    }

    fn disable(&mut self) {
        modify_field(&mut self.regs, EN_SHIFT, MASK_1, 0);
    }
}

impl<C: Instance> Comparator<C> {
    /// The unit's control/status register, for reading.
    pub fn csr(&self) -> (r: &Csr)
        ensures
            r@ == self@,
    {
        self.regs.csr()
    }

    /// The unit's own output for the given input condition.
    fn own_output(&self, above: bool) -> (r: bool)
        ensures
            r == unit_output(self@, above),
    {
        let w = self.regs.csr().read();
        get_field(w, EN_SHIFT, MASK_1) == 1 && (above != (get_field(w, POLARITY_SHIFT, MASK_1)
            == 1))
    }

    /// Latches the output level the hardware drives: `above` tells whether
    /// the positive input is above the negative input, `partner` is the other
    /// unit's own output.
    pub fn sense(&mut self, above: bool, partner: bool)
        ensures
            final(self)@ == latched(old(self)@, driven_value(old(self)@, above, partner)),
    {
        let w = self.regs.csr().read();
        let own = self.own_output(above);
        let level = if get_field(w, WINOUT_SHIFT, MASK_1) == 1 {
            own != partner
        } else {
            own
        };
        modify_field(&mut self.regs, VALUE_SHIFT, MASK_1, flag_bits(level));
    }
}

// ---------------------------------------------------------------------------
// Window comparator
// ---------------------------------------------------------------------------

/// Two comparators sharing one input pin, bracketing it between a lower and
/// an upper threshold.
pub struct WindowComparator<U, L> {
    pub upper: Comparator<U>,
    pub lower: Comparator<L>,
}

pub trait WindowComparatorExt<UC: Instance, LC: Instance> {
    /// Register word of the upper unit.
    spec fn upper_csr(&self) -> u32;

    /// Register word of the lower unit.
    spec fn lower_csr(&self) -> u32;

    /// Wires `input` to the upper unit against `upper_threshold`, with the
    /// XOR output forced on, and the lower unit, through the cross-link to the
    /// upper unit's positive pin, against `lower_threshold`, with the XOR
    /// output forced off. The caller's XOR setting is overridden.
    fn init<I: PositiveInput<UC>, L: NegativeInput<LC>, U: NegativeInput<UC>>(
        &mut self,
        input: I,
        lower_threshold: L,
        upper_threshold: U,
        config: Config,
    )
        ensures
            final(self).upper_csr() == configured(
                old(self).upper_csr(),
                input.routing(),
                upper_threshold.selection(),
                ConfigView { output_xor: true, ..config@ },
            ),
            final(self).lower_csr() == configured(
                old(self).lower_csr(),
                PositiveRouting::Window,
                lower_threshold.selection(),
                ConfigView { output_xor: false, ..config@ },
            ),
            winout(final(self).upper_csr()) == 1,
            winout(final(self).lower_csr()) == 0,
    ;

    /// `true` when the input is between the lower and upper thresholds.
    fn output(&self) -> (r: bool)
        ensures
            r == (value(self.upper_csr()) == 1),
    ;

    /// `true` when the input is above the lower threshold.
    fn above_lower(&self) -> (r: bool)
        ensures
            r == (value(self.lower_csr()) == 1),
    ;

    fn enable(&mut self)
        ensures
            final(self).upper_csr() == enabled(old(self).upper_csr()),
            final(self).lower_csr() == enabled(old(self).lower_csr()),
    ;

    fn disable(&mut self)
        ensures
            final(self).upper_csr() == disabled(old(self).upper_csr()),
            final(self).lower_csr() == disabled(old(self).lower_csr()),
    ;
}

impl WindowComparatorExt<COMP1, COMP2> for WindowComparator<COMP1, COMP2> {
    open spec fn upper_csr(&self) -> u32 {
        self.upper@
    }

    open spec fn lower_csr(&self) -> u32 {
        self.lower@
    }

    fn init<I: PositiveInput<COMP1>, L: NegativeInput<COMP2>, U: NegativeInput<COMP1>>(
        &mut self,
        input: I,
        lower_threshold: L,
        upper_threshold: U,
        config: Config,
    ) {
        self.upper.init(input, upper_threshold, config.with_output_xor(true));
        self.lower.init(Comp1InP, lower_threshold, config.with_output_xor(false));
    }

    fn output(&self) -> (r: bool) {
        self.upper.output()
    }

    fn above_lower(&self) -> (r: bool) {
        self.lower.output()
    }

    fn enable(&mut self) {
        self.upper.enable();
        self.lower.enable();
    }

    fn disable(&mut self) {
        self.upper.disable();
        self.lower.disable();
    }
}

impl WindowComparatorExt<COMP2, COMP1> for WindowComparator<COMP2, COMP1> {
    open spec fn upper_csr(&self) -> u32 {
        self.upper@
    }

    open spec fn lower_csr(&self) -> u32 {
        self.lower@
    }

    fn init<I: PositiveInput<COMP2>, L: NegativeInput<COMP1>, U: NegativeInput<COMP2>>(
        &mut self,
        input: I,
        lower_threshold: L,
        upper_threshold: U,
        config: Config,
    ) {
        self.upper.init(input, upper_threshold, config.with_output_xor(true));
        self.lower.init(Comp2InP, lower_threshold, config.with_output_xor(false));
    }

    fn output(&self) -> (r: bool) {
        self.upper.output()
    }

    fn above_lower(&self) -> (r: bool) {
        self.lower.output()
    }

    fn enable(&mut self) {
        self.upper.enable();
        self.lower.enable();
    }

    fn disable(&mut self) {
        self.upper.disable();
        self.lower.disable();
    }
}

impl<U: Instance, L: Instance> WindowComparator<U, L> {
    /// Latches the output levels the hardware drives for both units, given
    /// whether the shared input is above each threshold.
    pub fn sense(&mut self, above_lower: bool, above_upper: bool)
        ensures
            final(self).upper@ == latched(
                old(self).upper@,
                driven_value(old(self).upper@, above_upper, unit_output(old(self).lower@, above_lower)),
            ),
            final(self).lower@ == latched(
                old(self).lower@,
                driven_value(old(self).lower@, above_lower, unit_output(old(self).upper@, above_upper)),
            ),
    {
        let upper_own = self.upper.own_output(above_upper);
        let lower_own = self.lower.own_output(above_lower);
        self.upper.sense(above_upper, lower_own);
        self.lower.sense(above_lower, upper_own);
    }
}

// ---------------------------------------------------------------------------
// Bring-up
// ---------------------------------------------------------------------------

/// The comparator peripheral block shared by both units. Splitting it
/// consumes it, so each unit's handle exists at most once.
pub struct COMP {
    _block: (),
}

impl COMP {
    /// The block as the device's peripheral set hands it out.
    pub fn new() -> (r: COMP) {
        COMP { _block: () }
    }
}

/// Enables the comparator clock, pulses the block's reset, and hands out the
/// two units with their registers at the reset value.
pub fn split(_comp: COMP, rcc: &mut Rcc) -> (r: (Comparator<COMP1>, Comparator<COMP2>))
    ensures
        final(rcc).apbenr2 == with_field(old(rcc).apbenr2, SYSCFGEN_SHIFT, MASK_1, 1),
        final(rcc).apbrstr2 == with_field(old(rcc).apbrstr2, SYSCFGRST_SHIFT, MASK_1, 0),
        r.0@ == 0,
        r.1@ == 0,
{
    rcc.apbenr2 = set_field(rcc.apbenr2, SYSCFGEN_SHIFT, MASK_1, 1);
    rcc.apbrstr2 = set_field(rcc.apbrstr2, SYSCFGRST_SHIFT, MASK_1, 1);
    rcc.apbrstr2 = set_field(rcc.apbrstr2, SYSCFGRST_SHIFT, MASK_1, 0);
    (
        Comparator { regs: COMP1 { csr: Csr::reset_value() } },
        Comparator { regs: COMP2 { csr: Csr::reset_value() } },
    )
}

pub trait ComparatorSplit {
    fn split(self, rcc: &mut Rcc) -> (r: (Comparator<COMP1>, Comparator<COMP2>))
        ensures
            final(rcc).apbenr2 == with_field(old(rcc).apbenr2, SYSCFGEN_SHIFT, MASK_1, 1),
            final(rcc).apbrstr2 == with_field(old(rcc).apbrstr2, SYSCFGRST_SHIFT, MASK_1, 0),
            r.0@ == 0,
            r.1@ == 0,
    ;
}

impl ComparatorSplit for COMP {
    fn split(self, rcc: &mut Rcc) -> (r: (Comparator<COMP1>, Comparator<COMP2>)) {
        split(self, rcc)
    }
}

// ---------------------------------------------------------------------------
// Properties of the register words
// ---------------------------------------------------------------------------

/// Initializing a unit leaves each field holding its encoding: the positive
/// selection code (or the window mode flag for the cross-link, with the
/// selection untouched), the negative selection code, and the hysteresis,
/// polarity, power mode and XOR output of the configuration. The enable and
/// output bits are left as they were.
pub proof fn init_fields(w: u32, p: PositiveRouting, n: u32, c: ConfigView)
    requires
        p.wf(),
        n <= 0b1111,
    ensures
        ({
            let r = configured(w, p, n, c);
            &&& match p {
                PositiveRouting::Select(code) => inpsel(r) == code
                    && winmode(r) == winmode(w),
                PositiveRouting::Window => winmode(r) == 1
                    && inpsel(r) == inpsel(w),
            }
            &&& inmsel(r) == n
            &&& hyst(r) == c.hysteresis.spec_bits()
            &&& polarity(r) == flag(c.inverted)
            &&& pwrmode(r) == c.power_mode.spec_bits()
            &&& winout(r) == flag(c.output_xor)
            &&& en(r) == en(w)
            &&& value(r) == value(w)
        }),
{
}

/// Disabling right after enabling leaves the enable bit clear, enabling
/// right after disabling leaves it set, and repeating either changes nothing.
pub proof fn enable_disable(w: u32)
    ensures
        en(disabled(enabled(w))) == 0,
        en(enabled(disabled(w))) == 1,
        enabled(enabled(w)) == enabled(w),
        disabled(disabled(w)) == disabled(w),
{
}

/// A unit initialized without XOR output and then enabled reports the
/// comparison as it is when not inverted, and its negation when inverted.
pub proof fn polarity_of_output(
    w: u32,
    p: PositiveRouting,
    n: u32,
    c: ConfigView,
    above: bool,
    partner: bool,
)
    requires
        !c.output_xor,
    ensures
        ({
            let r = enabled(configured(w, p, n, c));
            value(latched(r, driven_value(r, above, partner))) == flag(
                above != c.inverted,
            )
        }),
{
}

/// A window comparator initialized with a non-inverted configuration and
/// enabled reports, for an input strictly between the thresholds, inside and
/// above the lower threshold; below the lower threshold, neither; above the
/// upper threshold, above the lower threshold but not inside.
pub proof fn window_brackets_input(
    wu: u32,
    wl: u32,
    input_routing: PositiveRouting,
    upper_code: u32,
    lower_code: u32,
    c: ConfigView,
    input: int,
    lower: int,
    upper: int,
)
    requires
        !c.inverted,
        lower < upper,
    ensures
        ({
            let u = enabled(
                configured(wu, input_routing, upper_code, ConfigView { output_xor: true, ..c }),
            );
            let l = enabled(
                configured(wl, PositiveRouting::Window, lower_code, ConfigView { output_xor: false, ..c }),
            );
            let inside = driven_value(u, input > upper, unit_output(l, input > lower));
            let above_lower = driven_value(l, input > lower, unit_output(u, input > upper));
            &&& lower < input < upper ==> inside && above_lower
            &&& input < lower ==> !inside && !above_lower
            &&& upper < input ==> !inside && above_lower
        }),
{
}

} // verus!
