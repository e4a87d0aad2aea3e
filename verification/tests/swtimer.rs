use fabri_os::gpio::GpioPorts;
use fabri_os::rte::RteData;
use fabri_os::swtimer::States;
use fabri_os::swtimer::TimerData;
use fabri_os::swtimer::TimerId;
use fabri_os::swtimer::ToutTimer;

#[test]
fn initial_timer_table() {
    let td = TimerData::init();
    assert_eq!(td.timers.len(), 1);
    assert_eq!(td.timers[0].current_val, 0);
    assert_eq!(td.timers[0].end_val, 50);
    assert_eq!(td.timers[0].state, States::Run);
}

#[test]
fn repeat_mode_fires_with_period_target_plus_one() {
    let mut rt = RteData::init();
    let mut ports = GpioPorts::new();
    ToutTimer::set_end_value(TimerId::LedmBlinkTimer, &mut rt, 3);
    ToutTimer::start(TimerId::LedmBlinkTimer, &mut rt);

    // with a target of three, every fourth tick fires, indefinitely
    for cycle in 0..3 {
        for tick in 1..=3 {
            let r = ToutTimer::handle_repeat(TimerId::LedmBlinkTimer, &mut rt, &mut ports);
            assert_eq!(r, Ok(false), "cycle {} tick {}", cycle, tick);
            assert_eq!(rt.swtimer_data.timers[0].current_val, tick);
        }
        let r = ToutTimer::handle_repeat(TimerId::LedmBlinkTimer, &mut rt, &mut ports);
        assert_eq!(r, Ok(true), "cycle {}", cycle);
        assert_eq!(rt.swtimer_data.timers[0].current_val, 0);
        assert_eq!(rt.swtimer_data.timers[0].state, States::Run);
    }
}

#[test]
fn oneshot_mode_fires_once_until_rearmed() {
    let mut rt = RteData::init();
    let mut ports = GpioPorts::new();
    ToutTimer::set_end_value(TimerId::LedmBlinkTimer, &mut rt, 2);
    ToutTimer::start(TimerId::LedmBlinkTimer, &mut rt);

    // a target of two takes two advancing ticks, then the third fires and
    // stops the timer; afterwards nothing fires until it is rearmed
    assert_eq!(ToutTimer::handle_stop(TimerId::LedmBlinkTimer, &mut rt, &mut ports), Ok(false));
    assert_eq!(ToutTimer::handle_stop(TimerId::LedmBlinkTimer, &mut rt, &mut ports), Ok(false));
    assert_eq!(ToutTimer::handle_stop(TimerId::LedmBlinkTimer, &mut rt, &mut ports), Ok(true));
    assert_eq!(rt.swtimer_data.timers[0].state, States::Stopped);
    for _ in 0..5 {
        assert_eq!(
            ToutTimer::handle_stop(TimerId::LedmBlinkTimer, &mut rt, &mut ports),
            Ok(false)
        );
        assert_eq!(rt.swtimer_data.timers[0].state, States::Stopped);
    }

    // rearm: configure and start again, and it can fire once more
    ToutTimer::set_end_value(TimerId::LedmBlinkTimer, &mut rt, 0);
    ToutTimer::start(TimerId::LedmBlinkTimer, &mut rt);
    assert_eq!(ToutTimer::handle_stop(TimerId::LedmBlinkTimer, &mut rt, &mut ports), Ok(true));
}

#[test]
fn stopped_timer_never_advances_and_never_fires() {
    let mut rt = RteData::init();
    let mut ports = GpioPorts::new();
    // set_end_value leaves the timer stopped with a count of zero
    ToutTimer::set_end_value(TimerId::LedmBlinkTimer, &mut rt, 3);
    for _ in 0..10 {
        assert_eq!(
            ToutTimer::handle_repeat(TimerId::LedmBlinkTimer, &mut rt, &mut ports),
            Ok(false)
        );
        assert_eq!(
            ToutTimer::handle_stop(TimerId::LedmBlinkTimer, &mut rt, &mut ports),
            Ok(false)
        );
        assert_eq!(rt.swtimer_data.timers[0].current_val, 0);
        assert_eq!(rt.swtimer_data.timers[0].state, States::Stopped);
    }
}

#[test]
fn configure_start_stop_reset_shape_the_timer() {
    let mut rt = RteData::init();
    let mut ports = GpioPorts::new();
    ToutTimer::set_end_value(TimerId::LedmBlinkTimer, &mut rt, 7);
    assert_eq!(rt.swtimer_data.timers[0].end_val, 7);
    assert_eq!(rt.swtimer_data.timers[0].current_val, 0);
    assert_eq!(rt.swtimer_data.timers[0].state, States::Stopped);

    ToutTimer::start(TimerId::LedmBlinkTimer, &mut rt);
    assert_eq!(rt.swtimer_data.timers[0].state, States::Run);
    let _ = ToutTimer::handle_repeat(TimerId::LedmBlinkTimer, &mut rt, &mut ports);
    let _ = ToutTimer::handle_repeat(TimerId::LedmBlinkTimer, &mut rt, &mut ports);
    assert_eq!(rt.swtimer_data.timers[0].current_val, 2);

    ToutTimer::stop(TimerId::LedmBlinkTimer, &mut rt);
    assert_eq!(rt.swtimer_data.timers[0].state, States::Stopped);
    assert_eq!(rt.swtimer_data.timers[0].current_val, 2);

    ToutTimer::reset(TimerId::LedmBlinkTimer, &mut rt);
    assert_eq!(rt.swtimer_data.timers[0].current_val, 0);
    assert_eq!(rt.swtimer_data.timers[0].end_val, 7);
}

#[test]
fn repeat_fire_runs_blink_callback() {
    let mut rt = RteData::init();
    let mut ports = GpioPorts::new();
    // target zero: the very first tick fires and toggles the blinking led
    ToutTimer::set_end_value(TimerId::LedmBlinkTimer, &mut rt, 0);
    ToutTimer::start(TimerId::LedmBlinkTimer, &mut rt);
    assert_eq!(
        rt.ledm_data.leds[0].state,
        fabri_os::ledm::LedState::BlinkOff
    );
    assert_eq!(ToutTimer::handle_repeat(TimerId::LedmBlinkTimer, &mut rt, &mut ports), Ok(true));
    assert_eq!(rt.ledm_data.leds[0].state, fabri_os::ledm::LedState::BlinkOn);
    // the blink-off half of the toggle drives the pin low
    assert_eq!(ports.a.odr & (1 << 5), 0);
    assert_eq!(ToutTimer::handle_repeat(TimerId::LedmBlinkTimer, &mut rt, &mut ports), Ok(true));
    assert_eq!(rt.ledm_data.leds[0].state, fabri_os::ledm::LedState::BlinkOff);
    // the blink-on half drives it high
    assert_eq!(ports.a.odr & (1 << 5), 1 << 5);
}
