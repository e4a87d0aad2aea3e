//! General-purpose-I/O pin abstraction over register images.
//!
//! Each port is a register block; ports A and B carry a lock register that
//! ports C through F lack. A `Pin` names one line of one port, and every pin
//! operation is exact bit arithmetic on the owned images in `GpioPorts`.

use vstd::prelude::*;

use crate::rcc::Rcc;
use crate::regs;

verus! {

/// The six GPIO port instances.
#[derive(Copy, Clone, PartialEq, Eq, Structural, Debug)]
pub enum Gpio {
    A,
    B,
    C,
    D,
    E,
    F,
}

/// Pin direction / function selection.
#[derive(Copy, Clone, PartialEq, Eq, Structural, Debug)]
pub enum Mode {
    Input,
    Output,
    Alternate,
    Analog,
}

/// Output driver type.
#[derive(Copy, Clone, PartialEq, Eq, Structural, Debug)]
pub enum Otype {
    PushPull,
    OpenDrain,
}

/// Output slew-rate class.
#[derive(Copy, Clone, PartialEq, Eq, Structural, Debug)]
pub enum Ospeed {
    Low,
    Medium,
    High,
    VeryHigh,
}

/// Pull-up / pull-down selection.
#[derive(Copy, Clone, PartialEq, Eq, Structural, Debug)]
pub enum Pupd {
    NoPullUpPullDown,
    PullUp,
    PullDown,
}

/// Alternate-function number.
#[derive(Copy, Clone, PartialEq, Eq, Structural, Debug)]
pub enum Af {
    AlternateFunc0,
    AlternateFunc1,
    AlternateFunc2,
    AlternateFunc3,
    AlternateFunc4,
    AlternateFunc5,
    AlternateFunc6,
    AlternateFunc7,
    AlternateFunc8,
    AlternateFunc9,
    AlternateFunc10,
    AlternateFunc11,
    AlternateFunc12,
    AlternateFunc13,
    AlternateFunc14,
    AlternateFunc15,
}

/// The pins the LQFP64 package routes out.
#[derive(Copy, Clone, PartialEq, Eq, Structural, Debug)]
pub enum Pin {
    A0,
    A1,
    A2,
    A3,
    A4,
    A5,
    A6,
    A7,
    A8,
    A9,
    A10,
    A11,
    A12,
    A13,
    A14,
    A15,
    B0,
    B1,
    B2,
    B3,
    B4,
    B5,
    B6,
    B7,
    B8,
    B9,
    B10,
    B11,
    B12,
    B13,
    B14,
    B15,
    C0,
    C1,
    C2,
    C3,
    C4,
    C5,
    C6,
    C7,
    C8,
    C9,
    C10,
    C11,
    C12,
    C13,
    C14,
    C15,
    D2,
    F0,
    F1,
    F11,
}

/// Names one configuration register inside a port block.
#[derive(Copy, Clone, PartialEq, Eq, Structural, Debug)]
pub enum RegSel {
    Moder,
    Otyper,
    Ospeedr,
    Pupdr,
    Idr,
    Odr,
    Lckr,
    Afrl,
    Afrh,
}

/// Register image of a port A or B block, in hardware order.
#[derive(Copy, Clone)]
pub struct GpioAB {
    pub moder: u32,
    pub otyper: u32,
    pub ospeedr: u32,
    pub pupdr: u32,
    pub idr: u32,
    pub odr: u32,
    pub bsrr: u32,
    pub lckr: u32,
    pub afrl: u32,
    pub afrh: u32,
    pub brr: u32,
}

/// Register image of a port C through F block; these blocks reserve the
/// word where A and B keep their lock register.
#[derive(Copy, Clone)]
pub struct GpioCDEF {
    pub moder: u32,
    pub otyper: u32,
    pub ospeedr: u32,
    pub pupdr: u32,
    pub idr: u32,
    pub odr: u32,
    pub bsrr: u32,
    pub reserved0: u32,
    pub afrl: u32,
    pub afrh: u32,
    pub brr: u32,
}

/// The images of all six port blocks.
#[derive(Copy, Clone)]
pub struct GpioPorts {
    pub a: GpioAB,
    pub b: GpioAB,
    pub c: GpioCDEF,
    pub d: GpioCDEF,
    pub e: GpioCDEF,
    pub f: GpioCDEF,
}

/// Value written to or read from a port's lock register.
pub struct Lck(pub u32);

impl Gpio {
    /// Base address of the port's register block on the target's bus.
    pub fn base(self) -> (r: u32)
        ensures
            r == self.base_spec(),
    {
        match self {
            Gpio::A => 0x4800_0000,
            Gpio::B => 0x4800_0400,
            Gpio::C => 0x4800_0800,
            Gpio::D => 0x4800_0C00,
            Gpio::E => 0x4800_1000,
            Gpio::F => 0x4800_1400,
        }
    }

    pub open spec fn base_spec(self) -> u32 {
        match self {
            Gpio::A => 0x4800_0000u32,
            Gpio::B => 0x4800_0400u32,
            Gpio::C => 0x4800_0800u32,
            Gpio::D => 0x4800_0C00u32,
            Gpio::E => 0x4800_1000u32,
            Gpio::F => 0x4800_1400u32,
        }
    }

    /// True of ports A and B, the two whose block carries a lock register.
    pub open spec fn is_ab(self) -> bool {
        self is A || self is B
    }
}

impl Mode {
    pub open spec fn val_spec(self) -> u32 {
        match self {
            Mode::Input => 0u32,
            Mode::Output => 1u32,
            Mode::Alternate => 2u32,
            Mode::Analog => 3u32,
        }
    }

    fn val(self) -> (r: u32)
        ensures
            r == self.val_spec(),
            r <= 3,
    {
        match self {
            Mode::Input => 0,
            Mode::Output => 1,
            Mode::Alternate => 2,
            Mode::Analog => 3,
        }
    }
}

impl Otype {
    pub open spec fn val_spec(self) -> u32 {
        match self {
            Otype::PushPull => 0u32,
            Otype::OpenDrain => 1u32,
        }
    }

    fn val(self) -> (r: u32)
        ensures
            r == self.val_spec(),
            r <= 1,
    {
        match self {
            Otype::PushPull => 0,
            Otype::OpenDrain => 1,
        }
    }
}

impl Ospeed {
    pub open spec fn val_spec(self) -> u32 {
        match self {
            Ospeed::Low => 0u32,
            Ospeed::Medium => 1u32,
            Ospeed::High => 2u32,
            Ospeed::VeryHigh => 3u32,
        }
    }

    fn val(self) -> (r: u32)
        ensures
            r == self.val_spec(),
            r <= 3,
    {
        match self {
            Ospeed::Low => 0,
            Ospeed::Medium => 1,
            Ospeed::High => 2,
            Ospeed::VeryHigh => 3,
        }
    }
}

impl Pupd {
    pub open spec fn val_spec(self) -> u32 {
        match self {
            Pupd::NoPullUpPullDown => 0u32,
            Pupd::PullUp => 1u32,
            Pupd::PullDown => 2u32,
        }
    }

    fn val(self) -> (r: u32)
        ensures
            r == self.val_spec(),
            r <= 2,
    {
        match self {
            Pupd::NoPullUpPullDown => 0,
            Pupd::PullUp => 1,
            Pupd::PullDown => 2,
        }
    }
}

impl Af {
    pub open spec fn val_spec(self) -> u32 {
        match self {
            Af::AlternateFunc0 => 0u32,
            Af::AlternateFunc1 => 1u32,
            Af::AlternateFunc2 => 2u32,
            Af::AlternateFunc3 => 3u32,
            Af::AlternateFunc4 => 4u32,
            Af::AlternateFunc5 => 5u32,
            Af::AlternateFunc6 => 6u32,
            Af::AlternateFunc7 => 7u32,
            Af::AlternateFunc8 => 8u32,
            Af::AlternateFunc9 => 9u32,
            Af::AlternateFunc10 => 10u32,
            Af::AlternateFunc11 => 11u32,
            Af::AlternateFunc12 => 12u32,
            Af::AlternateFunc13 => 13u32,
            Af::AlternateFunc14 => 14u32,
            Af::AlternateFunc15 => 15u32,
        }
    }

    fn val(self) -> (r: u32)
        ensures
            r == self.val_spec(),
            r <= 15,
    {
        match self {
            Af::AlternateFunc0 => 0,
            Af::AlternateFunc1 => 1,
            Af::AlternateFunc2 => 2,
            Af::AlternateFunc3 => 3,
            Af::AlternateFunc4 => 4,
            Af::AlternateFunc5 => 5,
            Af::AlternateFunc6 => 6,
            Af::AlternateFunc7 => 7,
            Af::AlternateFunc8 => 8,
            Af::AlternateFunc9 => 9,
            Af::AlternateFunc10 => 10,
            Af::AlternateFunc11 => 11,
            Af::AlternateFunc12 => 12,
            Af::AlternateFunc13 => 13,
            Af::AlternateFunc14 => 14,
            Af::AlternateFunc15 => 15,
        }
    }
}

/// Reading of one named register of one port.
pub open spec fn port_reg(p: GpioPorts, g: Gpio, s: RegSel) -> u32 {
    match g {
        Gpio::A => ab_reg(p.a, s),
        Gpio::B => ab_reg(p.b, s),
        Gpio::C => cdef_reg(p.c, s),
        Gpio::D => cdef_reg(p.d, s),
        Gpio::E => cdef_reg(p.e, s),
        Gpio::F => cdef_reg(p.f, s),
    }
}

/// The port set with one named register of one port replaced by `v`.
pub open spec fn port_with_reg(p: GpioPorts, g: Gpio, s: RegSel, v: u32) -> GpioPorts {
    match g {
        Gpio::A => GpioPorts { a: ab_with(p.a, s, v), ..p },
        Gpio::B => GpioPorts { b: ab_with(p.b, s, v), ..p },
        Gpio::C => GpioPorts { c: cdef_with(p.c, s, v), ..p },
        Gpio::D => GpioPorts { d: cdef_with(p.d, s, v), ..p },
        Gpio::E => GpioPorts { e: cdef_with(p.e, s, v), ..p },
        Gpio::F => GpioPorts { f: cdef_with(p.f, s, v), ..p },
    }
}

pub open spec fn ab_reg(r: GpioAB, s: RegSel) -> u32 {
    match s {
        RegSel::Moder => r.moder,
        RegSel::Otyper => r.otyper,
        RegSel::Ospeedr => r.ospeedr,
        RegSel::Pupdr => r.pupdr,
        RegSel::Idr => r.idr,
        RegSel::Odr => r.odr,
        RegSel::Lckr => r.lckr,
        RegSel::Afrl => r.afrl,
        RegSel::Afrh => r.afrh,
    }
}

pub open spec fn ab_with(r: GpioAB, s: RegSel, v: u32) -> GpioAB {
    match s {
        RegSel::Moder => GpioAB { moder: v, ..r },
        RegSel::Otyper => GpioAB { otyper: v, ..r },
        RegSel::Ospeedr => GpioAB { ospeedr: v, ..r },
        RegSel::Pupdr => GpioAB { pupdr: v, ..r },
        RegSel::Idr => GpioAB { idr: v, ..r },
        RegSel::Odr => GpioAB { odr: v, ..r },
        RegSel::Lckr => GpioAB { lckr: v, ..r },
        RegSel::Afrl => GpioAB { afrl: v, ..r },
        RegSel::Afrh => GpioAB { afrh: v, ..r },
    }
}

/// Ports C through F have no lock register; selecting `Lckr` reads as zero
/// and writes change nothing.
pub open spec fn cdef_reg(r: GpioCDEF, s: RegSel) -> u32 {
    match s {
        RegSel::Moder => r.moder,
        RegSel::Otyper => r.otyper,
        RegSel::Ospeedr => r.ospeedr,
        RegSel::Pupdr => r.pupdr,
        RegSel::Idr => r.idr,
        RegSel::Odr => r.odr,
        RegSel::Lckr => 0u32,
        RegSel::Afrl => r.afrl,
        RegSel::Afrh => r.afrh,
    }
}

pub open spec fn cdef_with(r: GpioCDEF, s: RegSel, v: u32) -> GpioCDEF {
    match s {
        RegSel::Moder => GpioCDEF { moder: v, ..r },
        RegSel::Otyper => GpioCDEF { otyper: v, ..r },
        RegSel::Ospeedr => GpioCDEF { ospeedr: v, ..r },
        RegSel::Pupdr => GpioCDEF { pupdr: v, ..r },
        RegSel::Idr => GpioCDEF { idr: v, ..r },
        RegSel::Odr => GpioCDEF { odr: v, ..r },
        RegSel::Lckr => r,
        RegSel::Afrl => GpioCDEF { afrl: v, ..r },
        RegSel::Afrh => GpioCDEF { afrh: v, ..r },
    }
}

fn ab_reg_mut(r: &mut GpioAB, s: RegSel) -> (ret: &mut u32)
    ensures
        *ret == ab_reg(*old(r), s),
        *final(r) == ab_with(*old(r), s, *final(ret)),
{
    match s {
        RegSel::Moder => &mut r.moder,
        RegSel::Otyper => &mut r.otyper,
        RegSel::Ospeedr => &mut r.ospeedr,
        RegSel::Pupdr => &mut r.pupdr,
        RegSel::Idr => &mut r.idr,
        RegSel::Odr => &mut r.odr,
        RegSel::Lckr => &mut r.lckr,
        RegSel::Afrl => &mut r.afrl,
        RegSel::Afrh => &mut r.afrh,
    }
}

fn cdef_reg_mut(r: &mut GpioCDEF, s: RegSel) -> (ret: &mut u32)
    requires
        !(s is Lckr),
    ensures
        *ret == cdef_reg(*old(r), s),
        *final(r) == cdef_with(*old(r), s, *final(ret)),
{
    match s {
        RegSel::Moder => &mut r.moder,
        RegSel::Otyper => &mut r.otyper,
        RegSel::Ospeedr => &mut r.ospeedr,
        RegSel::Pupdr => &mut r.pupdr,
        RegSel::Idr => &mut r.idr,
        RegSel::Odr => &mut r.odr,
        RegSel::Lckr => &mut r.odr,  // unreachable: excluded by the precondition
        RegSel::Afrl => &mut r.afrl,
        RegSel::Afrh => &mut r.afrh,
    }
}

/// Borrow one named register of one port for a read/modify/write.
fn port_reg_mut(ports: &mut GpioPorts, g: Gpio, s: RegSel) -> (ret: &mut u32)
    requires
        !g.is_ab() ==> !(s is Lckr),
    ensures
        *ret == port_reg(*old(ports), g, s),
        *final(ports) == port_with_reg(*old(ports), g, s, *final(ret)),
{
    match g {
        Gpio::A => ab_reg_mut(&mut ports.a, s),
        Gpio::B => ab_reg_mut(&mut ports.b, s),
        Gpio::C => cdef_reg_mut(&mut ports.c, s),
        Gpio::D => cdef_reg_mut(&mut ports.d, s),
        Gpio::E => cdef_reg_mut(&mut ports.e, s),
        Gpio::F => cdef_reg_mut(&mut ports.f, s),
    }
}

fn ab_reg_read(r: &GpioAB, s: RegSel) -> (v: u32)
    ensures
        v == ab_reg(*r, s),
{
    match s {
        RegSel::Moder => r.moder,
        RegSel::Otyper => r.otyper,
        RegSel::Ospeedr => r.ospeedr,
        RegSel::Pupdr => r.pupdr,
        RegSel::Idr => r.idr,
        RegSel::Odr => r.odr,
        RegSel::Lckr => r.lckr,
        RegSel::Afrl => r.afrl,
        RegSel::Afrh => r.afrh,
    }
}

fn cdef_reg_read(r: &GpioCDEF, s: RegSel) -> (v: u32)
    ensures
        v == cdef_reg(*r, s),
{
    match s {
        RegSel::Moder => r.moder,
        RegSel::Otyper => r.otyper,
        RegSel::Ospeedr => r.ospeedr,
        RegSel::Pupdr => r.pupdr,
        RegSel::Idr => r.idr,
        RegSel::Odr => r.odr,
        RegSel::Lckr => 0,
        RegSel::Afrl => r.afrl,
        RegSel::Afrh => r.afrh,
    }
}

/// Read one named register of one port.
fn port_reg_read(ports: &GpioPorts, g: Gpio, s: RegSel) -> (r: u32)
    ensures
        r == port_reg(*ports, g, s),
{
    match g {
        Gpio::A => ab_reg_read(&ports.a, s),
        Gpio::B => ab_reg_read(&ports.b, s),
        Gpio::C => cdef_reg_read(&ports.c, s),
        Gpio::D => cdef_reg_read(&ports.d, s),
        Gpio::E => cdef_reg_read(&ports.e, s),
        Gpio::F => cdef_reg_read(&ports.f, s),
    }
}

/// Combined output-data-register mask of a pin list, folded left to right.
pub open spec fn mult_mask_spec(pins: Seq<Pin>) -> u32
    decreases pins.len(),
{
    if pins.len() == 0 {
        0u32
    } else {
        mult_mask_spec(pins.drop_last()) | pins.last().odr_mask_spec()
    }
}

/// All pins of the list sit on the same port.
pub open spec fn all_same_port(pins: Seq<Pin>) -> bool {
    forall|i: int| 0 <= i < pins.len() ==> #[trigger] pins[i].port_spec() == pins[0].port_spec()
}

proof fn lemma_or_basics(a: u32)
    ensures
        a | a == a,
        0u32 | a == a,
{
    assert(a | a == a && 0u32 | a == a) by (bit_vector);
}

impl Pin {
    /// The port a pin belongs to and its line number within that port.
    pub open spec fn io_set_spec(self) -> (Gpio, u32) {
        match self {
            Pin::A0 => (Gpio::A, 0u32),
            Pin::A1 => (Gpio::A, 1u32),
            Pin::A2 => (Gpio::A, 2u32),
            Pin::A3 => (Gpio::A, 3u32),
            Pin::A4 => (Gpio::A, 4u32),
            Pin::A5 => (Gpio::A, 5u32),
            Pin::A6 => (Gpio::A, 6u32),
            Pin::A7 => (Gpio::A, 7u32),
            Pin::A8 => (Gpio::A, 8u32),
            Pin::A9 => (Gpio::A, 9u32),
            Pin::A10 => (Gpio::A, 10u32),
            Pin::A11 => (Gpio::A, 11u32),
            Pin::A12 => (Gpio::A, 12u32),
            Pin::A13 => (Gpio::A, 13u32),
            Pin::A14 => (Gpio::A, 14u32),
            Pin::A15 => (Gpio::A, 15u32),
            Pin::B0 => (Gpio::B, 0u32),
            Pin::B1 => (Gpio::B, 1u32),
            Pin::B2 => (Gpio::B, 2u32),
            Pin::B3 => (Gpio::B, 3u32),
            Pin::B4 => (Gpio::B, 4u32),
            Pin::B5 => (Gpio::B, 5u32),
            Pin::B6 => (Gpio::B, 6u32),
            Pin::B7 => (Gpio::B, 7u32),
            Pin::B8 => (Gpio::B, 8u32),
            Pin::B9 => (Gpio::B, 9u32),
            Pin::B10 => (Gpio::B, 10u32),
            Pin::B11 => (Gpio::B, 11u32),
            Pin::B12 => (Gpio::B, 12u32),
            Pin::B13 => (Gpio::B, 13u32),
            Pin::B14 => (Gpio::B, 14u32),
            Pin::B15 => (Gpio::B, 15u32),
            Pin::C0 => (Gpio::C, 0u32),
            Pin::C1 => (Gpio::C, 1u32),
            Pin::C2 => (Gpio::C, 2u32),
            Pin::C3 => (Gpio::C, 3u32),
            Pin::C4 => (Gpio::C, 4u32),
            Pin::C5 => (Gpio::C, 5u32),
            Pin::C6 => (Gpio::C, 6u32),
            Pin::C7 => (Gpio::C, 7u32),
            Pin::C8 => (Gpio::C, 8u32),
            Pin::C9 => (Gpio::C, 9u32),
            Pin::C10 => (Gpio::C, 10u32),
            Pin::C11 => (Gpio::C, 11u32),
            Pin::C12 => (Gpio::C, 12u32),
            Pin::C13 => (Gpio::C, 13u32),
            Pin::C14 => (Gpio::C, 14u32),
            Pin::C15 => (Gpio::C, 15u32),
            Pin::D2 => (Gpio::D, 2u32),
            Pin::F0 => (Gpio::F, 0u32),
            Pin::F1 => (Gpio::F, 1u32),
            Pin::F11 => (Gpio::F, 11u32),
        }
    }

    pub open spec fn port_spec(self) -> Gpio {
        self.io_set_spec().0
    }

    pub open spec fn pin_no_spec(self) -> u32 {
        self.io_set_spec().1
    }

    /// The single-bit output-data-register mask of this pin.
    pub open spec fn odr_mask_spec(self) -> u32 {
        1u32 << self.pin_no_spec()
    }

    /// Resolve a pin to its port and line number.
    pub fn get_io_set(self) -> (r: (Gpio, u32))
        ensures
            r == self.io_set_spec(),
            r.1 <= 15,
    {
        match self {
            Pin::A0 => (Gpio::A, 0),
            Pin::A1 => (Gpio::A, 1),
            Pin::A2 => (Gpio::A, 2),
            Pin::A3 => (Gpio::A, 3),
            Pin::A4 => (Gpio::A, 4),
            Pin::A5 => (Gpio::A, 5),
            Pin::A6 => (Gpio::A, 6),
            Pin::A7 => (Gpio::A, 7),
            Pin::A8 => (Gpio::A, 8),
            Pin::A9 => (Gpio::A, 9),
            Pin::A10 => (Gpio::A, 10),
            Pin::A11 => (Gpio::A, 11),
            Pin::A12 => (Gpio::A, 12),
            Pin::A13 => (Gpio::A, 13),
            Pin::A14 => (Gpio::A, 14),
            Pin::A15 => (Gpio::A, 15),
            Pin::B0 => (Gpio::B, 0),
            Pin::B1 => (Gpio::B, 1),
            Pin::B2 => (Gpio::B, 2),
            Pin::B3 => (Gpio::B, 3),
            Pin::B4 => (Gpio::B, 4),
            Pin::B5 => (Gpio::B, 5),
            Pin::B6 => (Gpio::B, 6),
            Pin::B7 => (Gpio::B, 7),
            Pin::B8 => (Gpio::B, 8),
            Pin::B9 => (Gpio::B, 9),
            Pin::B10 => (Gpio::B, 10),
            Pin::B11 => (Gpio::B, 11),
            Pin::B12 => (Gpio::B, 12),
            Pin::B13 => (Gpio::B, 13),
            Pin::B14 => (Gpio::B, 14),
            Pin::B15 => (Gpio::B, 15),
            Pin::C0 => (Gpio::C, 0),
            Pin::C1 => (Gpio::C, 1),
            Pin::C2 => (Gpio::C, 2),
            Pin::C3 => (Gpio::C, 3),
            Pin::C4 => (Gpio::C, 4),
            Pin::C5 => (Gpio::C, 5),
            Pin::C6 => (Gpio::C, 6),
            Pin::C7 => (Gpio::C, 7),
            Pin::C8 => (Gpio::C, 8),
            Pin::C9 => (Gpio::C, 9),
            Pin::C10 => (Gpio::C, 10),
            Pin::C11 => (Gpio::C, 11),
            Pin::C12 => (Gpio::C, 12),
            Pin::C13 => (Gpio::C, 13),
            Pin::C14 => (Gpio::C, 14),
            Pin::C15 => (Gpio::C, 15),
            Pin::D2 => (Gpio::D, 2),
            Pin::F0 => (Gpio::F, 0),
            Pin::F1 => (Gpio::F, 1),
            Pin::F11 => (Gpio::F, 11),
        }
    }

    /// The ports after this pin's output bit is driven high.
    pub open spec fn set_spec(p: GpioPorts, pin: Pin) -> GpioPorts {
        port_with_reg(
            p,
            pin.port_spec(),
            RegSel::Odr,
            port_reg(p, pin.port_spec(), RegSel::Odr) | pin.odr_mask_spec(),
        )
    }

    /// The ports after this pin's output bit is driven low.
    pub open spec fn clr_spec(p: GpioPorts, pin: Pin) -> GpioPorts {
        port_with_reg(
            p,
            pin.port_spec(),
            RegSel::Odr,
            port_reg(p, pin.port_spec(), RegSel::Odr) & !pin.odr_mask_spec(),
        )
    }

    /// Drive the pin's output high.
    pub fn set(self, ports: &mut GpioPorts)
        ensures
            *final(ports) == Pin::set_spec(*old(ports), self),
    {
        let io_pair = self.get_io_set();
        let odr: u32 = 1u32 << io_pair.1;
        let reg = port_reg_mut(ports, io_pair.0, RegSel::Odr);
        regs::set_reg_bitmsk(reg, odr);
    }

    /// Drive the pin's output low.
    pub fn clr(self, ports: &mut GpioPorts)
        ensures
            *final(ports) == Pin::clr_spec(*old(ports), self),
    {
        let io_pair = self.get_io_set();
        let odr: u32 = 1u32 << io_pair.1;
        let reg = port_reg_mut(ports, io_pair.0, RegSel::Odr);
        regs::clr_reg_bitmsk(reg, odr);
    }

    /// Fold the output masks of several pins of one port into one value.
    pub fn create_mult(pins: &[Pin]) -> (r: u32)
        requires
            pins@.len() >= 1,
            all_same_port(pins@),
        ensures
            r == mult_mask_spec(pins@),
    {
        let first = pins[0].get_io_set();
        let mut odr: u32 = 1u32 << first.1;
        let mut i: usize = 0;
        while i < pins.len()
            invariant
                0 <= i <= pins@.len(),
                pins@.len() >= 1,
                i == 0 ==> odr == pins@[0].odr_mask_spec(),
                i > 0 ==> odr == mult_mask_spec(pins@.take(i as int)),
            decreases pins@.len() - i,
        {
            let nxt = pins[i].get_io_set();
            let next_odr: u32 = 1u32 << nxt.1;
            proof {
                let prefix = pins@.take(i as int);
                let prefix1 = pins@.take(i as int + 1);
                assert(prefix1.drop_last() =~= prefix);
                assert(prefix1.last() == pins@[i as int]);
                assert(mult_mask_spec(prefix1) == mult_mask_spec(prefix) | pins@[
                i as int].odr_mask_spec());
                if i == 0 {
                    assert(prefix.len() == 0);
                    assert(mult_mask_spec(prefix) == 0u32);
                    lemma_or_basics(pins@[0].odr_mask_spec());
                }
            }
            odr = odr | next_odr;
            i = i + 1;
        }
        proof {
            assert(pins@.take(pins@.len() as int) =~= pins@);
        }
        odr
    }

    /// Drive several pins of one port high at once.
    pub fn setmult(ports: &mut GpioPorts, pins: &[Pin])
        requires
            pins@.len() >= 1,
            all_same_port(pins@),
        ensures
            *final(ports) == port_with_reg(
                *old(ports),
                pins@[0].port_spec(),
                RegSel::Odr,
                (port_reg(*old(ports), pins@[0].port_spec(), RegSel::Odr) | mult_mask_spec(pins@)),
            ),
    {
        let io_pair = pins[0].get_io_set();
        let regval = Pin::create_mult(pins);
        let reg = port_reg_mut(ports, io_pair.0, RegSel::Odr);
        regs::set_reg_bitmsk(reg, regval);
    }

    /// Drive several pins of one port low at once.
    pub fn clrmult(ports: &mut GpioPorts, pins: &[Pin])
        requires
            pins@.len() >= 1,
            all_same_port(pins@),
        ensures
            *final(ports) == port_with_reg(
                *old(ports),
                pins@[0].port_spec(),
                RegSel::Odr,
                (port_reg(*old(ports), pins@[0].port_spec(), RegSel::Odr) & !mult_mask_spec(pins@)),
            ),
    {
        let io_pair = pins[0].get_io_set();
        let regval = Pin::create_mult(pins);
        let reg = port_reg_mut(ports, io_pair.0, RegSel::Odr);
        regs::clr_reg_bitmsk(reg, regval);
    }

    /// Sample the pin's input register, masked by the pin's line number.
    pub fn get(self, ports: &GpioPorts) -> (r: bool)
        ensures
            r == ((self.pin_no_spec() & port_reg(*ports, self.port_spec(), RegSel::Idr)) != 0),
    {
        let io_pair = self.get_io_set();
        let idr_msk: u32 = io_pair.1;
        let v = port_reg_read(ports, io_pair.0, RegSel::Idr);
        idr_msk & v != 0
    }

    /// One configuration register of the pin's port after a masked update.
    pub open spec fn cfg_spec(
        p: GpioPorts,
        g: Gpio,
        s: RegSel,
        mod_mask: u32,
        regval: u32,
    ) -> GpioPorts {
        port_with_reg(p, g, s, regs::modified_bits(port_reg(p, g, s), mod_mask, regval))
    }

    pub open spec fn cfg_mode_spec(p: GpioPorts, pin: Pin, mode: Mode) -> GpioPorts {
        let bit_pos = (pin.pin_no_spec() * 2) as u32;
        Pin::cfg_spec(
            p,
            pin.port_spec(),
            RegSel::Moder,
            (0x3u32 << bit_pos),
            (mode.val_spec() << bit_pos),
        )
    }

    /// Select the pin's mode in its port's mode register.
    pub fn cfg_mode(self, ports: &mut GpioPorts, mode: Mode)
        ensures
            *final(ports) == Pin::cfg_mode_spec(*old(ports), self, mode),
    {
        let io_pair = self.get_io_set();
        let bit_pos: u32 = io_pair.1 * 2;
        let regval: u32 = mode.val() << bit_pos;
        let mod_mask: u32 = 0x3u32 << bit_pos;
        let reg = port_reg_mut(ports, io_pair.0, RegSel::Moder);
        regs::modify_reg_bits(reg, mod_mask, regval);
    }

    pub open spec fn cfg_otype_spec(p: GpioPorts, pin: Pin, otype: Otype) -> GpioPorts {
        let bit_pos = pin.pin_no_spec();
        Pin::cfg_spec(
            p,
            pin.port_spec(),
            RegSel::Otyper,
            (0x1u32 << bit_pos),
            (otype.val_spec() << bit_pos),
        )
    }

    /// Select the pin's output driver type.
    pub fn cfg_otype(self, ports: &mut GpioPorts, otype: Otype)
        ensures
            *final(ports) == Pin::cfg_otype_spec(*old(ports), self, otype),
    {
        let io_pair = self.get_io_set();
        let bit_pos: u32 = io_pair.1;
        let regval: u32 = otype.val() << bit_pos;
        let mod_mask: u32 = 0x1u32 << bit_pos;
        let reg = port_reg_mut(ports, io_pair.0, RegSel::Otyper);
        regs::modify_reg_bits(reg, mod_mask, regval);
    }

    pub open spec fn cfg_ospeed_spec(p: GpioPorts, pin: Pin, ospeed: Ospeed) -> GpioPorts {
        let bit_pos = (pin.pin_no_spec() * 2) as u32;
        Pin::cfg_spec(
            p,
            pin.port_spec(),
            RegSel::Ospeedr,
            (0x3u32 << bit_pos),
            (ospeed.val_spec() << bit_pos),
        )
    }

    /// Select the pin's slew-rate class.
    pub fn cfg_ospeed(self, ports: &mut GpioPorts, ospeed: Ospeed)
        ensures
            *final(ports) == Pin::cfg_ospeed_spec(*old(ports), self, ospeed),
    {
        let io_pair = self.get_io_set();
        let bit_pos: u32 = io_pair.1 * 2;
        let regval: u32 = ospeed.val() << bit_pos;
        let mod_mask: u32 = 0x3u32 << bit_pos;
        let reg = port_reg_mut(ports, io_pair.0, RegSel::Ospeedr);
        regs::modify_reg_bits(reg, mod_mask, regval);
    }

    pub open spec fn cfg_pupd_spec(p: GpioPorts, pin: Pin, pupd: Pupd) -> GpioPorts {
        let bit_pos = (pin.pin_no_spec() * 2) as u32;
        Pin::cfg_spec(
            p,
            pin.port_spec(),
            RegSel::Pupdr,
            (0x3u32 << bit_pos),
            (pupd.val_spec() << bit_pos),
        )
    }

    /// Select the pin's pull-up / pull-down wiring.
    pub fn cfg_pupd(self, ports: &mut GpioPorts, pupd: Pupd)
        ensures
            *final(ports) == Pin::cfg_pupd_spec(*old(ports), self, pupd),
    {
        let io_pair = self.get_io_set();
        let bit_pos: u32 = io_pair.1 * 2;
        let regval: u32 = pupd.val() << bit_pos;
        let mod_mask: u32 = 0x3u32 << bit_pos;
        let reg = port_reg_mut(ports, io_pair.0, RegSel::Pupdr);
        regs::modify_reg_bits(reg, mod_mask, regval);
    }

    pub open spec fn cfg_af_spec(p: GpioPorts, pin: Pin, af: Af) -> GpioPorts {
        if pin.pin_no_spec() < 8 {
            let bit_pos = (pin.pin_no_spec() * 4) as u32;
            Pin::cfg_spec(
                p,
                pin.port_spec(),
                RegSel::Afrl,
                (0xFu32 << bit_pos),
                (af.val_spec() << bit_pos),
            )
        } else {
            let bit_pos = ((pin.pin_no_spec() - 8) * 4) as u32;
            Pin::cfg_spec(
                p,
                pin.port_spec(),
                RegSel::Afrh,
                (0xFu32 << bit_pos),
                (af.val_spec() << bit_pos),
            )
        }
    }

    /// Select the pin's alternate function. The high half of the selection
    /// register is only reachable on ports A and B.
    pub fn cfg_af(self, ports: &mut GpioPorts, af: Af)
        requires
            self.pin_no_spec() >= 8 ==> self.port_spec().is_ab(),
        ensures
            *final(ports) == Pin::cfg_af_spec(*old(ports), self, af),
    {
        let io_pair = self.get_io_set();
        let bit_no: u32 = io_pair.1;
        if bit_no < 8 {
            let bit_pos: u32 = bit_no * 4;
            let regval: u32 = af.val() << bit_pos;
            let mod_mask: u32 = 0xFu32 << bit_pos;
            let reg = port_reg_mut(ports, io_pair.0, RegSel::Afrl);
            regs::modify_reg_bits(reg, mod_mask, regval);
        } else {
            let bit_pos: u32 = (bit_no - 8) * 4;
            let regval: u32 = af.val() << bit_pos;
            let mod_mask: u32 = 0xFu32 << bit_pos;
            let reg = port_reg_mut(ports, io_pair.0, RegSel::Afrh);
            regs::modify_reg_bits(reg, mod_mask, regval);
        }
    }
}

impl Gpio {
    /// Write the port's lock register; only the low seventeen bits are kept.
    pub fn write_lckr(self, ports: &mut GpioPorts, lock_reg_val: Lck)
        requires
            self.is_ab(),
        ensures
            *final(ports) == port_with_reg(
                *old(ports),
                self,
                RegSel::Lckr,
                (lock_reg_val.0 & 0x0001_FFFF),
            ),
    {
        let regval: u32 = lock_reg_val.0 & 0x0001_FFFF;
        let reg = port_reg_mut(ports, self, RegSel::Lckr);
        regs::set_reg(reg, regval);
    }

    /// Read the port's lock register back.
    pub fn read_lckr(self, ports: &GpioPorts) -> (r: Lck)
        requires
            self.is_ab(),
        ensures
            r.0 == port_reg(*ports, self, RegSel::Lckr),
    {
        Lck(port_reg_read(ports, self, RegSel::Lckr))
    }
}

impl GpioAB {
    /// A port image with every register cleared.
    pub fn new() -> (r: GpioAB)
        ensures
            r == GpioAB::reset_value(),
    {
        GpioAB {
            moder: 0,
            otyper: 0,
            ospeedr: 0,
            pupdr: 0,
            idr: 0,
            odr: 0,
            bsrr: 0,
            lckr: 0,
            afrl: 0,
            afrh: 0,
            brr: 0,
        }
    }

    pub open spec fn reset_value() -> GpioAB {
        GpioAB {
            moder: 0,
            otyper: 0,
            ospeedr: 0,
            pupdr: 0,
            idr: 0,
            odr: 0,
            bsrr: 0,
            lckr: 0,
            afrl: 0,
            afrh: 0,
            brr: 0,
        }
    }
}

impl GpioCDEF {
    /// A port image with every register cleared.
    pub fn new() -> (r: GpioCDEF)
        ensures
            r == GpioCDEF::reset_value(),
    {
        GpioCDEF {
            moder: 0,
            otyper: 0,
            ospeedr: 0,
            pupdr: 0,
            idr: 0,
            odr: 0,
            bsrr: 0,
            reserved0: 0,
            afrl: 0,
            afrh: 0,
            brr: 0,
        }
    }

    pub open spec fn reset_value() -> GpioCDEF {
        GpioCDEF {
            moder: 0,
            otyper: 0,
            ospeedr: 0,
            pupdr: 0,
            idr: 0,
            odr: 0,
            bsrr: 0,
            reserved0: 0,
            afrl: 0,
            afrh: 0,
            brr: 0,
        }
    }
}

impl GpioPorts {
    /// Images of all six ports with every register cleared.
    pub fn new() -> (r: GpioPorts)
        ensures
            r.a == GpioAB::reset_value(),
            r.b == GpioAB::reset_value(),
            r.c == GpioCDEF::reset_value(),
            r.d == GpioCDEF::reset_value(),
            r.e == GpioCDEF::reset_value(),
            r.f == GpioCDEF::reset_value(),
    {
        GpioPorts {
            a: GpioAB::new(),
            b: GpioAB::new(),
            c: GpioCDEF::new(),
            d: GpioCDEF::new(),
            e: GpioCDEF::new(),
            f: GpioCDEF::new(),
        }
    }
}

/// Enable the clocks of ports A through F and make the user-led pin an
/// output.
pub fn init(rcc: &mut Rcc, ports: &mut GpioPorts)
    ensures
        *final(rcc) == (Rcc { ahbenr: old(rcc).ahbenr | 0x007E_0000, ..*old(rcc) }),
        *final(ports) == Pin::cfg_mode_spec(*old(ports), Pin::A5, Mode::Output),
{
    // enable clock of io port A-F peripheral instance
    regs::set_reg_bitmsk(&mut rcc.ahbenr, 0x007E_0000);

    // define gpioa pin 5 as output
    Pin::A5.cfg_mode(ports, Mode::Output);
}

/// Drive the user led high directly on port A's output register.
pub fn app_set_led_on(gpioa: &mut GpioAB)
    ensures
        *final(gpioa) == (GpioAB { odr: old(gpioa).odr | (1u32 << 5u32), ..*old(gpioa) }),
{
    regs::set_reg_bitmsk(&mut gpioa.odr, 1u32 << 5);
}

} // verus!
