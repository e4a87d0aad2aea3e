use fabri_os::gpio::GpioPorts;
use fabri_os::gpio::Pin;
use fabri_os::ledm::ledm_blink_timer_callback;
use fabri_os::ledm::ledm_task;
use fabri_os::ledm::LedState;
use fabri_os::ledm::LedmData;
use fabri_os::rte::RteData;
use fabri_os::swtimer::TimerId;
use fabri_os::swtimer::ToutTimer;

#[test]
fn initial_led_table() {
    let ledm = LedmData::init();
    assert_eq!(ledm.get_leds().len(), 1);
    assert_eq!(ledm.leds[0].state, LedState::BlinkOff);
    assert_eq!(ledm.leds[0].pin, Pin::A5);
}

#[test]
fn set_leds_state_overwrites_one_entry() {
    let mut ledm = LedmData::init();
    ledm.set_leds_state(0, LedState::On);
    assert_eq!(ledm.leds[0].state, LedState::On);
    assert_eq!(ledm.leds[0].pin, Pin::A5);
}

#[test]
fn blink_callback_toggles_state_and_pin() {
    let mut ledm = LedmData::init();
    let mut ports = GpioPorts::new();
    ports.a.odr = 1 << 5;

    // blink-off: the pin is driven low and the state flips to blink-on
    ledm_blink_timer_callback(&mut ledm, &mut ports);
    assert_eq!(ledm.leds[0].state, LedState::BlinkOn);
    assert_eq!(ports.a.odr & (1 << 5), 0);

    // blink-on: the pin is driven high and the state flips back
    ledm_blink_timer_callback(&mut ledm, &mut ports);
    assert_eq!(ledm.leds[0].state, LedState::BlinkOff);
    assert_eq!(ports.a.odr & (1 << 5), 1 << 5);
}

#[test]
fn blink_callback_leaves_solid_leds_alone() {
    let mut ledm = LedmData::init();
    let mut ports = GpioPorts::new();
    ledm.set_leds_state(0, LedState::On);
    ledm_blink_timer_callback(&mut ledm, &mut ports);
    assert_eq!(ledm.leds[0].state, LedState::On);
    assert_eq!(ports.a.odr, 0);
}

#[test]
fn led_task_pushes_solid_states_every_pass() {
    let mut rt = RteData::init();
    let mut ports = GpioPorts::new();

    // a solid-on led is pushed onto its pin on every pass
    rt.ledm_data.set_leds_state(0, LedState::On);
    ledm_task(&mut rt, &mut ports);
    assert_eq!(ports.a.odr & (1 << 5), 1 << 5);
    assert_eq!(rt.swtimer_data.timers[0].current_val, 1);

    // a solid-off led is pulled low again
    rt.ledm_data.set_leds_state(0, LedState::Off);
    ledm_task(&mut rt, &mut ports);
    assert_eq!(ports.a.odr & (1 << 5), 0);
    assert_eq!(rt.swtimer_data.timers[0].current_val, 2);
}

#[test]
fn led_task_blinks_after_fifty_calls() {
    let mut rt = RteData::init();
    let mut ports = GpioPorts::new();

    // the stock blink timer has a target of fifty: the first fifty calls
    // only advance it, the fifty-first fires the toggle
    for n in 1..=50 {
        ledm_task(&mut rt, &mut ports);
        assert_eq!(rt.swtimer_data.timers[0].current_val, n);
        assert_eq!(rt.ledm_data.leds[0].state, LedState::BlinkOff);
    }
    ledm_task(&mut rt, &mut ports);
    assert_eq!(rt.swtimer_data.timers[0].current_val, 0);
    assert_eq!(rt.ledm_data.leds[0].state, LedState::BlinkOn);
}

#[test]
fn tick_error_slot_is_never_used() {
    // the tick result carries an error slot for forward compatibility;
    // today every outcome is ok
    let mut rt = RteData::init();
    let mut ports = GpioPorts::new();
    for _ in 0..120 {
        let r = ToutTimer::handle_repeat(TimerId::LedmBlinkTimer, &mut rt, &mut ports);
        assert!(r.is_ok());
    }
}
