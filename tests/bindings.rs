use analog_comparator::comparator::{
    split, Comp1InP, Comp2InP, Comparator, ComparatorExt, Config, Open, RefintInput, COMP,
    COMP1, COMP2,
};
use analog_comparator::dac::{Channel1, Channel2, Enabled};
use analog_comparator::gpio::gpioa::{PA0, PA1, PA2, PA3};
use analog_comparator::gpio::gpiob::{PB1, PB2, PB3, PB4, PB6, PB7};
use analog_comparator::gpio::gpioc::{PC4, PC5};
use analog_comparator::gpio::Analog;
use analog_comparator::rcc::Rcc;

fn units() -> (Comparator<COMP1>, Comparator<COMP2>) {
    let mut rcc = Rcc { apbenr2: 0, apbrstr2: 0 };
    split(COMP::new(), &mut rcc)
}

fn inpsel(w: u32) -> u32 {
    (w >> 8) & 0b11
}

fn inmsel(w: u32) -> u32 {
    (w >> 4) & 0b1111
}

fn winmode(w: u32) -> u32 {
    (w >> 11) & 1
}

#[test]
fn comp1_positive_pins() {
    let (mut c1, _) = units();
    c1.init(PC5(Analog), RefintInput::VRefint, Config::default());
    assert_eq!(inpsel(c1.csr().read()), 0b00);
    c1.init(PB2(Analog), RefintInput::VRefint, Config::default());
    assert_eq!(inpsel(c1.csr().read()), 0b01);
    c1.init(PA1(Analog), RefintInput::VRefint, Config::default());
    assert_eq!(inpsel(c1.csr().read()), 0b10);
    c1.init(Open, RefintInput::VRefint, Config::default());
    assert_eq!(inpsel(c1.csr().read()), 0b11);
    assert_eq!(winmode(c1.csr().read()), 0);
}

#[test]
fn comp2_positive_pins() {
    let (_, mut c2) = units();
    c2.init(PB4(Analog), RefintInput::VRefint, Config::default());
    assert_eq!(inpsel(c2.csr().read()), 0b00);
    c2.init(PB6(Analog), RefintInput::VRefint, Config::default());
    assert_eq!(inpsel(c2.csr().read()), 0b01);
    c2.init(PA3(Analog), RefintInput::VRefint, Config::default());
    assert_eq!(inpsel(c2.csr().read()), 0b10);
    c2.init(Open, RefintInput::VRefint, Config::default());
    assert_eq!(inpsel(c2.csr().read()), 0b11);
}

#[test]
fn cross_link_sets_window_mode_only() {
    let (mut c1, mut c2) = units();
    c1.init(PA1(Analog), RefintInput::VRefint, Config::default());
    c1.init(Comp2InP, RefintInput::VRefint, Config::default());
    assert_eq!(winmode(c1.csr().read()), 1);
    assert_eq!(inpsel(c1.csr().read()), 0b10);
    c2.init(Comp1InP, RefintInput::VRefint, Config::default());
    assert_eq!(winmode(c2.csr().read()), 1);
    assert_eq!(inpsel(c2.csr().read()), 0b00);
}

#[test]
fn comp1_negative_pins() {
    let (mut c1, _) = units();
    c1.init(PA1(Analog), PB1(Analog), Config::default());
    assert_eq!(inmsel(c1.csr().read()), 0b0110);
    c1.init(PA1(Analog), PC4(Analog), Config::default());
    assert_eq!(inmsel(c1.csr().read()), 0b0111);
    c1.init(PA1(Analog), PA0(Analog), Config::default());
    assert_eq!(inmsel(c1.csr().read()), 0b1000);
    assert_eq!(inpsel(c1.csr().read()), 0b10);
}

#[test]
fn comp2_negative_pins() {
    let (_, mut c2) = units();
    c2.init(PA3(Analog), PB3(Analog), Config::default());
    assert_eq!(inmsel(c2.csr().read()), 0b0110);
    c2.init(PA3(Analog), PB7(Analog), Config::default());
    assert_eq!(inmsel(c2.csr().read()), 0b0111);
    c2.init(PA3(Analog), PA2(Analog), Config::default());
    assert_eq!(inmsel(c2.csr().read()), 0b1000);
}

#[test]
fn reference_taps() {
    let (mut c1, mut c2) = units();
    c1.init(PA1(Analog), RefintInput::VRefintM34, Config::default());
    assert_eq!(inmsel(c1.csr().read()), 0b0010);
    assert_eq!(inpsel(c1.csr().read()), 0b10);
    c1.init(PA1(Analog), RefintInput::VRefintM14, Config::default());
    assert_eq!(inmsel(c1.csr().read()), 0b0000);
    c2.init(PA3(Analog), RefintInput::VRefintM12, Config::default());
    assert_eq!(inmsel(c2.csr().read()), 0b0001);
    c2.init(PA3(Analog), RefintInput::VRefint, Config::default());
    assert_eq!(inmsel(c2.csr().read()), 0b0011);
    assert_eq!(RefintInput::VRefintM34.bits(), 0b0010);
}

#[test]
fn dac_channels() {
    let (mut c1, mut c2) = units();
    c1.init(PA1(Analog), Channel1(Enabled), Config::default());
    assert_eq!(inmsel(c1.csr().read()), 0b0100);
    c1.init(PA1(Analog), Channel2(Enabled), Config::default());
    assert_eq!(inmsel(c1.csr().read()), 0b0101);
    c2.init(PA3(Analog), Channel1(Enabled), Config::default());
    assert_eq!(inmsel(c2.csr().read()), 0b0100);
    c2.init(PA3(Analog), Channel2(Enabled), Config::default());
    assert_eq!(inmsel(c2.csr().read()), 0b0101);
}
