//! Runtime environment: the shared data the service layer and the
//! application layer exchange. On the target this is the one statically
//! allocated instance; here it is an owned value threaded explicitly
//! through the kernel's entry points, so the single-writer discipline is
//! visible to the type system.

use vstd::prelude::*;

use crate::ledm::LedmData;
use crate::swtimer::TimerData;

verus! {

/// The runtime data of the build: the software-timer table and the led
/// table.
pub struct RteData {
    pub swtimer_data: TimerData,
    pub ledm_data: LedmData,
}

impl RteData {
    /// Well-formed: the timer table holds its invariants.
    pub open spec fn wf(self) -> bool {
        self.swtimer_data.wf()
    }

    /// The runtime data the default build starts with.
    pub fn init() -> (r: Self)
        ensures
            r.wf(),
            r.swtimer_data.timers@.len() == 1,
            r.swtimer_data.timers@[0] == crate::swtimer::initial_timer(),
            r.ledm_data.leds@.len() == 1,
            r.ledm_data.leds@[0] == crate::ledm::initial_led(),
    {
        RteData { swtimer_data: TimerData::init(), ledm_data: LedmData::init() }
    }
}

} // verus!
