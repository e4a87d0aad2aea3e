//! Register image of the reset-and-clock-control peripheral.

use vstd::prelude::*;

verus! {

/// Cpu operation frequency in Hz; 8 MHz.
pub const F_CPU_HZ: u32 = 8_000_000;

/// Register block of the Rcc module, laid out as the hardware orders it.
/// On the target the block sits at a fixed address; here it is an owned
/// image that the clock-enable helpers update in place.
#[derive(Copy, Clone)]
pub struct Rcc {
    pub cr: u32,
    pub cfgr: u32,
    pub cir: u32,
    pub apb2rstr: u32,
    pub apb1rstr: u32,
    pub ahbenr: u32,
    pub apb2enr: u32,
    pub apb1enr: u32,
    pub bdcr: u32,
    pub csr: u32,
    pub ahbrstr: u32,
    pub cfgr2: u32,
    pub cfgr3: u32,
    pub cr2: u32,
}

impl Rcc {
    /// A fresh register image with every register cleared, as after reset.
    pub fn new() -> (r: Rcc)
        ensures
            r == Rcc::reset_value(),
    {
        Rcc {
            cr: 0,
            cfgr: 0,
            cir: 0,
            apb2rstr: 0,
            apb1rstr: 0,
            ahbenr: 0,
            apb2enr: 0,
            apb1enr: 0,
            bdcr: 0,
            csr: 0,
            ahbrstr: 0,
            cfgr2: 0,
            cfgr3: 0,
            cr2: 0,
        }
    }

    /// The image of the block right after reset.
    pub open spec fn reset_value() -> Rcc {
        Rcc {
            cr: 0,
            cfgr: 0,
            cir: 0,
            apb2rstr: 0,
            apb1rstr: 0,
            ahbenr: 0,
            apb2enr: 0,
            apb1enr: 0,
            bdcr: 0,
            csr: 0,
            ahbrstr: 0,
            cfgr2: 0,
            cfgr3: 0,
            cr2: 0,
        }
    }
}

} // verus!
