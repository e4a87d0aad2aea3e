//! Led manager: drives a table of leds that are either solid or blinking.
//!
//! The solid states are pushed onto the pins on every pass; the blink states
//! toggle whenever the blink software timer fires.

use vstd::prelude::*;

use crate::gpio::GpioPorts;
use crate::gpio::Pin;
use crate::rte::RteData;
use crate::swtimer::TimerId;
use crate::swtimer::ToutTimer;

verus! {

/// The drive state of one led.
#[derive(Copy, Clone, PartialEq, Eq, Structural, Debug)]
pub enum LedState {
    Off,
    On,
    BlinkOff,
    BlinkOn,
}

/// One led: its drive state and the pin that powers it.
#[derive(Copy, Clone)]
pub struct Led {
    pub state: LedState,
    pub pin: Pin,
}

/// The led table the manager walks.
pub struct LedmData {
    pub leds: Vec<Led>,
}

/// The single led the default build manages, blinking on the user-led pin.
pub open spec fn initial_led() -> Led {
    Led { state: LedState::BlinkOff, pin: Pin::A5 }
}

/// Ports after one led's solid state is pushed onto its pin; blink states
/// leave the pins to the blink timer callback.
pub open spec fn led_update_ports(led: Led, p: GpioPorts) -> GpioPorts {
    if led.state is Off {
        Pin::clr_spec(p, led.pin)
    } else if led.state is On {
        Pin::set_spec(p, led.pin)
    } else {
        p
    }
}

/// Ports after the whole led table is pushed out, first entry first.
pub open spec fn update_fold(leds: Seq<Led>, p: GpioPorts) -> GpioPorts
    decreases leds.len(),
{
    if leds.len() == 0 {
        p
    } else {
        led_update_ports(leds.last(), update_fold(leds.drop_last(), p))
    }
}

/// One led after a blink toggle, with the ports it leaves behind.
pub open spec fn led_blink_step(led: Led, p: GpioPorts) -> (Led, GpioPorts) {
    if led.state is BlinkOff {
        (Led { state: LedState::BlinkOn, ..led }, Pin::clr_spec(p, led.pin))
    } else if led.state is BlinkOn {
        (Led { state: LedState::BlinkOff, ..led }, Pin::set_spec(p, led.pin))
    } else {
        (led, p)
    }
}

/// The led table and ports after every blinking led toggles once, first
/// entry first.
pub open spec fn blink_fold(leds: Seq<Led>, p: GpioPorts) -> (Seq<Led>, GpioPorts)
    decreases leds.len(),
{
    if leds.len() == 0 {
        (leds, p)
    } else {
        let (pre, p1) = blink_fold(leds.drop_last(), p);
        let (last2, p2) = led_blink_step(leds.last(), p1);
        (pre.push(last2), p2)
    }
}

impl LedmData {
    /// The led table the default build starts with.
    pub fn init() -> (r: Self)
        ensures
            r.leds@.len() == 1,
            r.leds@[0] == initial_led(),
    {
        let mut leds: Vec<Led> = Vec::new();
        leds.push(Led { state: LedState::BlinkOff, pin: Pin::A5 });
        LedmData { leds }
    }

    /// Borrow the led table.
    pub fn get_leds(&self) -> (r: &Vec<Led>)
        ensures
            r@ == self.leds@,
    {
        &self.leds
    }

    /// Overwrite the drive state of one led.
    pub fn set_leds_state(&mut self, index: usize, state: LedState)
        requires
            index < old(self).leds@.len(),
        ensures
            final(self).leds@ == old(self).leds@.update(
                index as int,
                (Led { state: state, ..old(self).leds@[index as int] }),
            ),
    {
        let mut led = self.leds[index];
        led.state = state;
        self.leds.set(index, led);
    }
}

/// Joint effect of one led-task pass on the timer table, the led table and
/// the ports: one repeat tick of the blink timer (with its callback when it
/// fires), then the solid led states pushed out.
pub open spec fn ledm_task_spec(
    timers: Seq<crate::swtimer::ToutTimer>,
    leds: Seq<Led>,
    p: GpioPorts,
) -> (Seq<crate::swtimer::ToutTimer>, Seq<Led>, GpioPorts) {
    let idx = TimerId::LedmBlinkTimer.index_spec();
    let tick = crate::swtimer::repeat_tick_timer(timers[idx]);
    let blink = blink_fold(leds, p);
    let leds1 = if tick.1 {
        blink.0
    } else {
        leds
    };
    let ports1 = if tick.1 {
        blink.1
    } else {
        p
    };
    (timers.update(idx, tick.0), leds1, update_fold(leds1, ports1))
}

/// The led task one scheduler process runs: advance the blink timer, then
/// push the solid led states out.
pub fn ledm_task(rt: &mut RteData, ports: &mut GpioPorts)
    requires
        old(rt).wf(),
    ensures
        final(rt).wf(),
        ({
            let eff = ledm_task_spec(
                old(rt).swtimer_data.timers@,
                old(rt).ledm_data.leds@,
                *old(ports),
            );
            &&& final(rt).swtimer_data.timers@ == eff.0
            &&& final(rt).ledm_data.leds@ == eff.1
            &&& *final(ports) == eff.2
        }),
{
    let _ = ToutTimer::handle_repeat(TimerId::LedmBlinkTimer, rt, ports);
    let leds_ref = &rt.ledm_data;
    ledm_update(leds_ref, ports);
}

/// Push every solid led state onto its pin; blinking leds are left alone.
fn ledm_update(ledm: &LedmData, ports: &mut GpioPorts)
    ensures
        *final(ports) == update_fold(ledm.leds@, *old(ports)),
{
    let ghost leds0 = ledm.leds@;
    let ghost ports0 = *ports;
    let mut idx: usize = 0;
    while idx < ledm.leds.len()
        invariant
            0 <= idx <= leds0.len(),
            ledm.leds@ == leds0,
            *ports == update_fold(leds0.take(idx as int), ports0),
        decreases leds0.len() - idx,
    {
        proof {
            assert(leds0.take(idx as int + 1).drop_last() =~= leds0.take(idx as int));
            assert(leds0.take(idx as int + 1).last() == leds0[idx as int]);
        }
        let led = ledm.leds[idx];
        if led.state == LedState::Off {
            led.pin.clr(ports);
        } else if led.state == LedState::On {
            led.pin.set(ports);
        }
        idx = idx + 1;
    }
    proof {
        assert(leds0.take(leds0.len() as int) =~= leds0);
    }
    // in case of an error need to inform a failure manager here
}

/// Blink-timer expiry callback: toggle every blinking led and its pin.
pub fn ledm_blink_timer_callback(ledm: &mut LedmData, ports: &mut GpioPorts)
    ensures
        final(ledm).leds@ == blink_fold(old(ledm).leds@, *old(ports)).0,
        *final(ports) == blink_fold(old(ledm).leds@, *old(ports)).1,
{
    let ghost leds0 = ledm.leds@;
    let ghost ports0 = *ports;
    let mut idx: usize = 0;
    while idx < ledm.leds.len()
        invariant
            0 <= idx <= leds0.len(),
            ledm.leds@.len() == leds0.len(),
            ledm.leds@ == blink_fold(leds0.take(idx as int), ports0).0 + leds0.skip(idx as int),
            *ports == blink_fold(leds0.take(idx as int), ports0).1,
        decreases leds0.len() - idx,
    {
        proof {
            assert(leds0.take(idx as int + 1).drop_last() =~= leds0.take(idx as int));
            assert(leds0.take(idx as int + 1).last() == leds0[idx as int]);
            assert(ledm.leds@[idx as int] == leds0[idx as int]);
        }
        let led = ledm.leds[idx];
        if led.state == LedState::BlinkOff {
            led.pin.clr(ports);
            let mut led2 = led;
            led2.state = LedState::BlinkOn;
            ledm.leds.set(idx, led2);
        } else if led.state == LedState::BlinkOn {
            led.pin.set(ports);
            let mut led2 = led;
            led2.state = LedState::BlinkOff;
            ledm.leds.set(idx, led2);
        }
        proof {
            let step = blink_fold(leds0.take(idx as int + 1), ports0);
            assert(ledm.leds@ =~= step.0 + leds0.skip(idx as int + 1));
        }
        idx = idx + 1;
    }
    proof {
        assert(leds0.take(leds0.len() as int) =~= leds0);
        assert(ledm.leds@ =~= blink_fold(leds0, ports0).0);
    }
    // in case of an error need to inform a failure manager here
}

} // verus!
