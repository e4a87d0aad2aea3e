use fabri_os::gpio;
use fabri_os::gpio::Af;
use fabri_os::gpio::Gpio;
use fabri_os::gpio::GpioPorts;
use fabri_os::gpio::Lck;
use fabri_os::gpio::Mode;
use fabri_os::gpio::Ospeed;
use fabri_os::gpio::Otype;
use fabri_os::gpio::Pin;
use fabri_os::gpio::Pupd;
use fabri_os::rcc::Rcc;
use fabri_os::regs;

#[test]
fn port_base_addresses() {
    assert_eq!(Gpio::A.base(), 0x4800_0000);
    assert_eq!(Gpio::B.base(), 0x4800_0400);
    assert_eq!(Gpio::F.base(), 0x4800_1400);
}

#[test]
fn pin_set_and_clr_touch_only_their_bit() {
    let mut ports = GpioPorts::new();
    Pin::A5.set(&mut ports);
    assert_eq!(ports.a.odr, 1 << 5);
    Pin::A0.set(&mut ports);
    assert_eq!(ports.a.odr, (1 << 5) | 1);
    Pin::B7.set(&mut ports);
    assert_eq!(ports.b.odr, 1 << 7);
    assert_eq!(ports.a.odr, (1 << 5) | 1);
    Pin::A5.clr(&mut ports);
    assert_eq!(ports.a.odr, 1);
    Pin::C13.set(&mut ports);
    assert_eq!(ports.c.odr, 1 << 13);
    Pin::D2.set(&mut ports);
    assert_eq!(ports.d.odr, 1 << 2);
    Pin::F11.set(&mut ports);
    assert_eq!(ports.f.odr, 1 << 11);
}

#[test]
fn multi_pin_masks_fold_the_whole_list() {
    let pins = [Pin::A0, Pin::A3, Pin::A5];
    assert_eq!(Pin::create_mult(&pins), 0b10_1001);

    let mut ports = GpioPorts::new();
    Pin::setmult(&mut ports, &pins);
    assert_eq!(ports.a.odr, 0b10_1001);
    Pin::clrmult(&mut ports, &[Pin::A3]);
    assert_eq!(ports.a.odr, 0b10_0001);
}

#[test]
fn pin_get_masks_input_register_with_line_number() {
    let mut ports = GpioPorts::new();
    // the sampled value is the line number and-ed with the input register
    ports.a.idr = 0xFFFF_FFFF;
    assert!(Pin::A5.get(&ports));
    assert!(!Pin::A0.get(&ports)); // line number zero always samples false
    ports.a.idr = 0;
    assert!(!Pin::A5.get(&ports));
}

#[test]
fn cfg_mode_writes_two_bit_field() {
    let mut ports = GpioPorts::new();
    Pin::A5.cfg_mode(&mut ports, Mode::Output);
    assert_eq!(ports.a.moder, 0b01 << 10);
    Pin::A5.cfg_mode(&mut ports, Mode::Analog);
    assert_eq!(ports.a.moder, 0b11 << 10);
    Pin::A5.cfg_mode(&mut ports, Mode::Input);
    assert_eq!(ports.a.moder, 0);
    // a second pin's field is independent
    Pin::A1.cfg_mode(&mut ports, Mode::Alternate);
    Pin::A5.cfg_mode(&mut ports, Mode::Output);
    assert_eq!(ports.a.moder, (0b10 << 2) | (0b01 << 10));
}

#[test]
fn cfg_otype_ospeed_pupd_write_their_fields() {
    let mut ports = GpioPorts::new();
    Pin::B3.cfg_otype(&mut ports, Otype::OpenDrain);
    assert_eq!(ports.b.otyper, 1 << 3);
    Pin::B3.cfg_otype(&mut ports, Otype::PushPull);
    assert_eq!(ports.b.otyper, 0);
    Pin::B3.cfg_ospeed(&mut ports, Ospeed::VeryHigh);
    assert_eq!(ports.b.ospeedr, 0b11 << 6);
    Pin::B3.cfg_pupd(&mut ports, Pupd::PullDown);
    assert_eq!(ports.b.pupdr, 0b10 << 6);
}

#[test]
fn cfg_af_selects_low_or_high_register() {
    let mut ports = GpioPorts::new();
    Pin::A7.cfg_af(&mut ports, Af::AlternateFunc5);
    assert_eq!(ports.a.afrl, 0x5 << 28);
    assert_eq!(ports.a.afrh, 0);
    Pin::A8.cfg_af(&mut ports, Af::AlternateFunc14);
    assert_eq!(ports.a.afrh, 0xE);
    Pin::A15.cfg_af(&mut ports, Af::AlternateFunc1);
    assert_eq!(ports.a.afrh, 0xE | (0x1 << 28));
    // low-half selection works on the lock-less ports too
    Pin::C0.cfg_af(&mut ports, Af::AlternateFunc2);
    assert_eq!(ports.c.afrl, 0x2);
}

#[test]
fn lock_register_round_trip_keeps_low_seventeen_bits() {
    let mut ports = GpioPorts::new();
    Gpio::A.write_lckr(&mut ports, Lck(0xFFFF_FFFF));
    assert_eq!(Gpio::A.read_lckr(&ports).0, 0x0001_FFFF);
    Gpio::B.write_lckr(&mut ports, Lck(0x0000_0042));
    assert_eq!(Gpio::B.read_lckr(&ports).0, 0x42);
    assert_eq!(Gpio::A.read_lckr(&ports).0, 0x0001_FFFF);
}

#[test]
fn init_enables_port_clocks_and_led_pin() {
    let mut rcc = Rcc::new();
    let mut ports = GpioPorts::new();
    gpio::init(&mut rcc, &mut ports);
    assert_eq!(rcc.ahbenr, 0x007E_0000);
    assert_eq!(ports.a.moder, 0b01 << 10);
}

#[test]
fn led_helper_drives_port_a_bit_five() {
    let mut ports = GpioPorts::new();
    gpio::app_set_led_on(&mut ports.a);
    assert_eq!(ports.a.odr, 1 << 5);
}

#[test]
fn register_helpers_compute_exact_values() {
    let mut reg: u32 = 0;
    regs::set_reg_bitmsk(&mut reg, 0b1010);
    assert_eq!(reg, 0b1010);
    regs::clr_reg_bitmsk(&mut reg, 0b0010);
    assert_eq!(reg, 0b1000);
    regs::set_reg(&mut reg, 0xDEAD_0000);
    assert_eq!(reg, 0xDEAD_0000);
    assert_eq!(regs::get_reg(&reg), 0xDEAD_0000);

    // only the bits of the modification mask change: bit three is set and
    // bit two is cleared, the low bits stay
    let mut reg2: u32 = 0b0111;
    regs::modify_reg_bits(&mut reg2, 0b1100, 0b1000);
    assert_eq!(reg2, 0b1011);
}
