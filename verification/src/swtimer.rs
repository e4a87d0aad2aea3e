//! Count-based software timers.
//!
//! For work that runs slowly compared with the scheduling, this module
//! provides timers that advance by exactly one count per handling call; the
//! real period therefore follows from the period of the task that calls the
//! handler. A timer that reaches its target fires its callback
//! synchronously, either rearming itself (repeat) or stopping (one-shot).

use vstd::prelude::*;

use crate::gpio::GpioPorts;
use crate::ledm;
use crate::rte::RteData;

verus! {

/// Number of software timers the build carries.
pub const TIMER_COUNT: usize = 1;

/// Run state of a timer.
#[derive(Copy, Clone, PartialEq, Eq, Structural, Debug)]
pub enum States {
    Stopped,
    Run,
}

/// The closed set of timers.
#[derive(Copy, Clone, PartialEq, Eq, Structural, Debug)]
pub enum TimerId {
    LedmBlinkTimer,
}

/// The closed set of expiry callbacks a timer can carry. On the target this
/// is a bare function pointer; the closed enumeration keeps the dispatch
/// checkable.
#[derive(Copy, Clone, PartialEq, Eq, Structural, Debug)]
pub enum TimerCallback {
    LedmBlink,
}

/// One count-based timer.
#[derive(Copy, Clone)]
pub struct ToutTimer {
    pub current_val: u32,
    pub end_val: u32,
    pub state: States,
    pub callback: TimerCallback,
}

/// The timer table.
pub struct TimerData {
    pub timers: Vec<ToutTimer>,
}

impl TimerId {
    /// Slot of the timer in the table.
    pub open spec fn index_spec(self) -> int {
        match self {
            TimerId::LedmBlinkTimer => 0,
        }
    }

    /// Resolve the timer to its table slot.
    pub fn index(self) -> (r: usize)
        ensures
            r as int == self.index_spec(),
            r < TIMER_COUNT,
    {
        match self {
            TimerId::LedmBlinkTimer => 0,
        }
    }
}

/// A timer never counts past its target.
pub open spec fn timer_inv(t: ToutTimer) -> bool {
    t.current_val <= t.end_val
}

/// One repeat-mode tick of a single timer: the timer afterwards, and
/// whether it fired. A stopped timer is untouched; a running timer below
/// its target advances by one; a running timer at its target fires and
/// rearms at zero.
pub open spec fn repeat_tick_timer(t: ToutTimer) -> (ToutTimer, bool) {
    if t.state is Run {
        if t.current_val >= t.end_val {
            (ToutTimer { current_val: 0, ..t }, true)
        } else {
            (ToutTimer { current_val: (t.current_val + 1) as u32, ..t }, false)
        }
    } else {
        (t, false)
    }
}

/// One one-shot tick: as the repeat tick, except that firing stops the
/// timer instead of rearming it.
pub open spec fn oneshot_tick_timer(t: ToutTimer) -> (ToutTimer, bool) {
    if t.state is Run {
        if t.current_val >= t.end_val {
            (ToutTimer { state: States::Stopped, ..t }, true)
        } else {
            (ToutTimer { current_val: (t.current_val + 1) as u32, ..t }, false)
        }
    } else {
        (t, false)
    }
}

impl ToutTimer {
    /// Rewind the timer's count to zero.
    pub fn reset(timer: TimerId, rt_data: &mut RteData)
        requires
            old(rt_data).wf(),
        ensures
            final(rt_data).wf(),
            final(rt_data).swtimer_data.timers@ == old(rt_data).swtimer_data.timers@.update(
                timer.index_spec(),
                (ToutTimer {
                    current_val: 0,
                    ..old(rt_data).swtimer_data.timers@[timer.index_spec()]
                }),
            ),
            final(rt_data).ledm_data.leds@ == old(rt_data).ledm_data.leds@,
    {
        let idx = timer.index();
        let mut t = rt_data.swtimer_data.timers[idx];
        t.current_val = 0;
        rt_data.swtimer_data.timers.set(idx, t);
    }

    /// Let the timer run.
    pub fn start(timer: TimerId, rt_data: &mut RteData)
        requires
            old(rt_data).wf(),
        ensures
            final(rt_data).wf(),
            final(rt_data).swtimer_data.timers@ == old(rt_data).swtimer_data.timers@.update(
                timer.index_spec(),
                (ToutTimer {
                    state: States::Run,
                    ..old(rt_data).swtimer_data.timers@[timer.index_spec()]
                }),
            ),
            final(rt_data).ledm_data.leds@ == old(rt_data).ledm_data.leds@,
    {
        let idx = timer.index();
        let mut t = rt_data.swtimer_data.timers[idx];
        t.state = States::Run;
        rt_data.swtimer_data.timers.set(idx, t);
    }

    /// Halt the timer; a stopped timer neither advances nor fires.
    pub fn stop(timer: TimerId, rt_data: &mut RteData)
        requires
            old(rt_data).wf(),
        ensures
            final(rt_data).wf(),
            final(rt_data).swtimer_data.timers@ == old(rt_data).swtimer_data.timers@.update(
                timer.index_spec(),
                (ToutTimer {
                    state: States::Stopped,
                    ..old(rt_data).swtimer_data.timers@[timer.index_spec()]
                }),
            ),
            final(rt_data).ledm_data.leds@ == old(rt_data).ledm_data.leds@,
    {
        let idx = timer.index();
        let mut t = rt_data.swtimer_data.timers[idx];
        t.state = States::Stopped;
        rt_data.swtimer_data.timers.set(idx, t);
    }

    /// Configure the timer: stop it, rewind the count, set the target.
    pub fn set_end_value(timer: TimerId, rt_data: &mut RteData, endval: u32)
        requires
            old(rt_data).wf(),
        ensures
            final(rt_data).wf(),
            final(rt_data).swtimer_data.timers@ == old(rt_data).swtimer_data.timers@.update(
                timer.index_spec(),
                (ToutTimer {
                    current_val: 0,
                    end_val: endval,
                    state: States::Stopped,
                    ..old(rt_data).swtimer_data.timers@[timer.index_spec()]
                }),
            ),
            final(rt_data).ledm_data.leds@ == old(rt_data).ledm_data.leds@,
    {
        let idx = timer.index();
        let mut t = rt_data.swtimer_data.timers[idx];
        t.state = States::Stopped;
        t.current_val = 0;
        t.end_val = endval;
        rt_data.swtimer_data.timers.set(idx, t);
    }

    /// Advance the timer in one-shot mode. Fires at most once until the
    /// timer is configured and started again; the firing callback runs
    /// synchronously on the led table and the ports.
    pub fn handle_stop(timer: TimerId, rt_data: &mut RteData, ports: &mut GpioPorts) -> (r: Result<
        bool,
        u32,
    >)
        requires
            old(rt_data).wf(),
        ensures
            final(rt_data).wf(),
            ({
                let idx = timer.index_spec();
                let tick = oneshot_tick_timer(old(rt_data).swtimer_data.timers@[idx]);
                let blink = ledm::blink_fold(old(rt_data).ledm_data.leds@, *old(ports));
                &&& r == Ok::<bool, u32>(tick.1)
                &&& final(rt_data).swtimer_data.timers@ == old(
                    rt_data,
                ).swtimer_data.timers@.update(idx, tick.0)
                &&& final(rt_data).ledm_data.leds@ == (if tick.1 {
                    blink.0
                } else {
                    old(rt_data).ledm_data.leds@
                })
                &&& *final(ports) == (if tick.1 {
                    blink.1
                } else {
                    *old(ports)
                })
            }),
    {
        let idx = timer.index();
        let t = rt_data.swtimer_data.timers[idx];
        if t.state == States::Run {
            if t.current_val >= t.end_val {
                match t.callback {
                    TimerCallback::LedmBlink => ledm::ledm_blink_timer_callback(
                        &mut rt_data.ledm_data,
                        ports,
                    ),
                }
                let mut t2 = t;
                t2.state = States::Stopped;
                rt_data.swtimer_data.timers.set(idx, t2);
                Ok(true)
            } else {
                let mut t2 = t;
                t2.current_val = t.current_val + 1;
                rt_data.swtimer_data.timers.set(idx, t2);
                Ok(false)
            }
        } else {
            Ok(false)
        }
    }

    /// Advance the timer in repeat mode. On firing, the callback runs
    /// synchronously and the timer rearms at a count of zero; the result
    /// says whether it fired, with an error slot kept for forward
    /// compatibility.
    pub fn handle_repeat(timer: TimerId, rt_data: &mut RteData, ports: &mut GpioPorts) -> (r:
        Result<bool, u32>)
        requires
            old(rt_data).wf(),
        ensures
            final(rt_data).wf(),
            ({
                let idx = timer.index_spec();
                let tick = repeat_tick_timer(old(rt_data).swtimer_data.timers@[idx]);
                let blink = ledm::blink_fold(old(rt_data).ledm_data.leds@, *old(ports));
                &&& r == Ok::<bool, u32>(tick.1)
                &&& final(rt_data).swtimer_data.timers@ == old(
                    rt_data,
                ).swtimer_data.timers@.update(idx, tick.0)
                &&& final(rt_data).ledm_data.leds@ == (if tick.1 {
                    blink.0
                } else {
                    old(rt_data).ledm_data.leds@
                })
                &&& *final(ports) == (if tick.1 {
                    blink.1
                } else {
                    *old(ports)
                })
            }),
    {
        let idx = timer.index();
        let t = rt_data.swtimer_data.timers[idx];
        if t.state == States::Run {
            if t.current_val >= t.end_val {
                match t.callback {
                    TimerCallback::LedmBlink => ledm::ledm_blink_timer_callback(
                        &mut rt_data.ledm_data,
                        ports,
                    ),
                }
                let mut t2 = t;
                t2.current_val = 0;
                rt_data.swtimer_data.timers.set(idx, t2);
                Ok(true)
            } else {
                let mut t2 = t;
                t2.current_val = t.current_val + 1;
                rt_data.swtimer_data.timers.set(idx, t2);
                Ok(false)
            }
        } else {
            Ok(false)
        }
    }
}

/// The timer the default build starts with: the led blink timer, running
/// with a target of fifty handler calls.
pub open spec fn initial_timer() -> ToutTimer {
    ToutTimer { current_val: 0, end_val: 50, state: States::Run, callback: TimerCallback::LedmBlink }
}

impl TimerData {
    /// Well-formed: the table is fully populated and no timer has counted
    /// past its target.
    pub open spec fn wf(self) -> bool {
        &&& self.timers@.len() == TIMER_COUNT
        &&& forall|i: int| 0 <= i < self.timers@.len() ==> timer_inv(#[trigger] self.timers@[i])
    }

    /// The timer table the default build starts with.
    pub fn init() -> (r: Self)
        ensures
            r.wf(),
            r.timers@.len() == 1,
            r.timers@[0] == initial_timer(),
    {
        let mut timers: Vec<ToutTimer> = Vec::new();
        timers.push(
            ToutTimer {
                current_val: 0,
                end_val: 50,
                state: States::Run,
                callback: TimerCallback::LedmBlink,
            },
        );
        TimerData { timers }
    }
}


/// The timer after `n` repeat-mode ticks.
pub open spec fn repeat_ticks_n(t: ToutTimer, n: nat) -> ToutTimer
    decreases n,
{
    if n == 0 {
        t
    } else {
        repeat_tick_timer(repeat_ticks_n(t, (n - 1) as nat)).0
    }
}

/// Whether the `n`-th repeat-mode tick (counting from one) fires.
pub open spec fn repeat_fires_at(t: ToutTimer, n: nat) -> bool
    recommends
        n >= 1,
{
    repeat_tick_timer(repeat_ticks_n(t, (n - 1) as nat)).1
}

/// The timer after `n` one-shot ticks.
pub open spec fn oneshot_ticks_n(t: ToutTimer, n: nat) -> ToutTimer
    decreases n,
{
    if n == 0 {
        t
    } else {
        oneshot_tick_timer(oneshot_ticks_n(t, (n - 1) as nat)).0
    }
}

/// Law: repeat-mode periodicity. A running timer that starts from a count
/// of zero holds the count `n` modulo `target + 1` after `n` ticks, stays
/// running with its target and callback untouched, and fires on exactly
/// the ticks whose number is a multiple of `target + 1` — the firing
/// pattern repeats indefinitely with period `target + 1`.
pub proof fn lemma_repeat_periodicity(t: ToutTimer, n: nat)
    requires
        t.state is Run,
        t.current_val == 0,
    ensures
        repeat_ticks_n(t, n) == (ToutTimer {
            current_val: ((n as int) % (t.end_val + 1)) as u32,
            ..t
        }),
        n >= 1 ==> (repeat_fires_at(t, n) <==> (n as int) % (t.end_val + 1) == 0),
    decreases n,
{
    let m = t.end_val + 1;
    if n == 0 {
        assert((0 as int) % m == 0) by (nonlinear_arith)
            requires
                m >= 1,
        ;
        assert(repeat_ticks_n(t, n) == (ToutTimer { current_val: 0u32, ..t }));
    } else {
        lemma_repeat_periodicity(t, (n - 1) as nat);
        vstd::arithmetic::div_mod::lemma_mod_pos_bound(n as int - 1, m);
        vstd::arithmetic::div_mod::lemma_fundamental_div_mod(n as int - 1, m);
        let q = (n as int - 1) / m;
        let r = (n as int - 1) % m;
        assert(q * m == m * q) by (nonlinear_arith);
        let prev = repeat_ticks_n(t, (n - 1) as nat);
        if r + 1 < m {
            vstd::arithmetic::div_mod::lemma_fundamental_div_mod_converse(n as int, m, q, r + 1);
            assert(prev.current_val < prev.end_val);
            assert(repeat_ticks_n(t, n) == repeat_tick_timer(prev).0);
            assert(repeat_tick_timer(prev).0 == (ToutTimer {
                current_val: (prev.current_val + 1) as u32,
                ..prev
            }));
        } else {
            assert((q + 1) * m == q * m + m) by (nonlinear_arith);
            vstd::arithmetic::div_mod::lemma_fundamental_div_mod_converse(n as int, m, q + 1, 0);
            assert(prev.current_val == prev.end_val);
            assert(repeat_ticks_n(t, n) == repeat_tick_timer(prev).0);
            assert(repeat_tick_timer(prev).0 == (ToutTimer { current_val: 0u32, ..prev }));
        }
    }
}

/// Law: a stopped timer is inert. However many ticks are applied, in
/// either mode, its count never moves and it never fires.
pub proof fn lemma_stopped_timer_inert(t: ToutTimer, n: nat)
    requires
        t.state is Stopped,
    ensures
        repeat_ticks_n(t, n) == t,
        oneshot_ticks_n(t, n) == t,
        n >= 1 ==> !repeat_fires_at(t, n),
        !repeat_tick_timer(t).1,
        !oneshot_tick_timer(t).1,
    decreases n,
{
    if n > 0 {
        lemma_stopped_timer_inert(t, (n - 1) as nat);
    }
}


} // verus!
