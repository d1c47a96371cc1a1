use analog_comparator::comparator::{
    split, ComparatorExt, ComparatorSplit, Config, Hysteresis, PowerMode,
    RefintInput, WindowComparator, WindowComparatorExt, COMP,
};
use analog_comparator::gpio::gpioa::{PA1, PA3};
use analog_comparator::gpio::gpiob::PB1;
use analog_comparator::gpio::Analog;
use analog_comparator::rcc::Rcc;

fn bit(w: u32, shift: u32) -> u32 {
    (w >> shift) & 1
}

fn hyst(w: u32) -> u32 {
    (w >> 16) & 0b11
}

fn pwrmode(w: u32) -> u32 {
    (w >> 18) & 0b11
}

#[test]
fn split_enables_clock_and_resets() {
    let mut rcc = Rcc { apbenr2: 0x8000_0010, apbrstr2: 0x0000_0101 };
    let (c1, c2) = split(COMP::new(), &mut rcc);
    assert_eq!(rcc.apbenr2, 0x8000_0011);
    assert_eq!(rcc.apbrstr2, 0x0000_0100);
    assert_eq!(c1.csr().read(), 0);
    assert_eq!(c2.csr().read(), 0);
}

#[test]
fn split_through_trait() {
    let mut rcc = Rcc { apbenr2: 0, apbrstr2: 0 };
    let (c1, c2) = COMP::new().split(&mut rcc);
    assert_eq!(rcc.apbenr2, 1);
    assert_eq!(rcc.apbrstr2, 0);
    assert!(!c1.output());
    assert!(!c2.output());
}

#[test]
fn default_config_writes_zero_fields() {
    let mut rcc = Rcc { apbenr2: 0, apbrstr2: 0 };
    let (mut c1, _) = split(COMP::new(), &mut rcc);
    c1.init(PA1(Analog), PB1(Analog), Config::default());
    let w = c1.csr().read();
    assert_eq!(hyst(w), 0);
    assert_eq!(pwrmode(w), 0);
    assert_eq!(bit(w, 15), 0);
    assert_eq!(bit(w, 14), 0);
    assert_eq!(bit(w, 0), 0);
    assert_eq!(w, 0x0000_0260);
}

#[test]
fn config_fields_encoded() {
    let mut rcc = Rcc { apbenr2: 0, apbrstr2: 0 };
    let (mut c1, mut c2) = split(COMP::new(), &mut rcc);
    let config = Config::default()
        .hysteresis(Hysteresis::Medium)
        .power_mode(PowerMode::MediumSpeed)
        .output_inverted()
        .output_xor();
    c1.init(PA1(Analog), RefintInput::VRefint, config);
    let w = c1.csr().read();
    assert_eq!(hyst(w), 0b10);
    assert_eq!(pwrmode(w), 0b01);
    assert_eq!(bit(w, 15), 1);
    assert_eq!(bit(w, 14), 1);
    let config = config.hysteresis(Hysteresis::High).output_polarity(false);
    c2.init(PA3(Analog), RefintInput::VRefint, config);
    let w = c2.csr().read();
    assert_eq!(hyst(w), 0b11);
    assert_eq!(bit(w, 15), 0);
    assert_eq!(Hysteresis::Low.bits(), 0b01);
    assert_eq!(PowerMode::HighSpeed.bits(), 0b00);
}

#[test]
fn enable_disable_toggle_and_repeat() {
    let mut rcc = Rcc { apbenr2: 0, apbrstr2: 0 };
    let (mut c1, _) = split(COMP::new(), &mut rcc);
    c1.init(PA1(Analog), RefintInput::VRefintM12, Config::default());
    let configured = c1.csr().read();
    c1.enable();
    assert_eq!(bit(c1.csr().read(), 0), 1);
    c1.disable();
    assert_eq!(bit(c1.csr().read(), 0), 0);
    assert_eq!(c1.csr().read(), configured);
    c1.disable();
    assert_eq!(bit(c1.csr().read(), 0), 0);
    c1.enable();
    c1.enable();
    assert_eq!(bit(c1.csr().read(), 0), 1);
    assert_eq!(c1.csr().read(), configured | 1);
}

#[test]
fn output_follows_polarity() {
    let mut rcc = Rcc { apbenr2: 0, apbrstr2: 0 };
    let (mut c1, mut c2) = split(COMP::new(), &mut rcc);
    c1.init(PA1(Analog), RefintInput::VRefint, Config::default());
    c1.enable();
    c1.sense(true, false);
    assert!(c1.output());
    c1.sense(false, false);
    assert!(!c1.output());

    c2.init(PA3(Analog), RefintInput::VRefint, Config::default().output_inverted());
    c2.enable();
    c2.sense(true, false);
    assert!(!c2.output());
    c2.sense(false, false);
    assert!(c2.output());
}

#[test]
fn disabled_unit_reads_low() {
    let mut rcc = Rcc { apbenr2: 0, apbrstr2: 0 };
    let (mut c1, _) = split(COMP::new(), &mut rcc);
    c1.init(PA1(Analog), RefintInput::VRefint, Config::default());
    c1.sense(true, false);
    assert!(!c1.output());
}

fn window() -> WindowComparator<analog_comparator::comparator::COMP1, analog_comparator::comparator::COMP2> {
    let mut rcc = Rcc { apbenr2: 0, apbrstr2: 0 };
    let (c1, c2) = split(COMP::new(), &mut rcc);
    let mut w = WindowComparator { upper: c1, lower: c2 };
    w.init(PA1(Analog), RefintInput::VRefintM14, RefintInput::VRefintM34, Config::default());
    w.enable();
    w
}

#[test]
fn window_input_inside() {
    let mut w = window();
    w.sense(true, false);
    assert!(w.output());
    assert!(w.above_lower());
}

#[test]
fn window_input_below_lower() {
    let mut w = window();
    w.sense(false, false);
    assert!(!w.output());
    assert!(!w.above_lower());
}

#[test]
fn window_input_above_upper() {
    let mut w = window();
    w.sense(true, true);
    assert!(!w.output());
    assert!(w.above_lower());
}

#[test]
fn window_wiring() {
    let w = window();
    let u = w.upper.csr().read();
    let l = w.lower.csr().read();
    assert_eq!((u >> 8) & 0b11, 0b10);
    assert_eq!((u >> 4) & 0b1111, 0b0010);
    assert_eq!(bit(u, 11), 0);
    assert_eq!(bit(l, 11), 1);
    assert_eq!((l >> 4) & 0b1111, 0b0000);
    assert_eq!(bit(u, 0), 1);
    assert_eq!(bit(l, 0), 1);
}

#[test]
fn window_overrides_caller_xor() {
    let mut rcc = Rcc { apbenr2: 0, apbrstr2: 0 };
    let (c1, c2) = split(COMP::new(), &mut rcc);
    let mut w = WindowComparator { upper: c2, lower: c1 };
    // The caller asks for XOR output; the lower unit gets none all the same.
    w.init(PA3(Analog), RefintInput::VRefintM12, RefintInput::VRefint, Config::default().output_xor());
    assert_eq!(bit(w.upper.csr().read(), 14), 1);
    assert_eq!(bit(w.lower.csr().read(), 14), 0);
    // The caller asks for none; the upper unit gets it all the same.
    w.init(PA3(Analog), RefintInput::VRefintM12, RefintInput::VRefint, Config::default());
    assert_eq!(bit(w.upper.csr().read(), 14), 1);
    assert_eq!(bit(w.lower.csr().read(), 14), 0);
    assert_eq!(bit(w.lower.csr().read(), 11), 1);
    w.enable();
    w.disable();
    assert_eq!(bit(w.upper.csr().read(), 0), 0);
    assert_eq!(bit(w.lower.csr().read(), 0), 0);

}
