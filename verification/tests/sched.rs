use fabri_os::gpio::GpioPorts;
use fabri_os::rte::RteData;
use fabri_os::sched::s_init;
use fabri_os::sched::u_task0;
use fabri_os::sched::run_process;
use fabri_os::sched::run_slot;
use fabri_os::sched::CountResume;
use fabri_os::sched::LedWorkResume;
use fabri_os::sched::PidT;
use fabri_os::sched::ProcLocal;
use fabri_os::sched::ProcState;
use fabri_os::sched::SchedData;
use fabri_os::sched::TaskId;
use fabri_os::sched::NUM_OF_STACK_ELEMS;
use fabri_os::sched::PROC_PID00_STACK_SIZE;
use fabri_os::sched::STACK_GUARD_WORD_0;
use fabri_os::sched::STACK_GUARD_WORD_1;
use fabri_os::sched::TASK_SCHED_CNT_START_REF_VAL;
use fabri_os::sched::TASK_SCHED_CNT_URGENT_REF_VAL;

#[test]
fn slot_index_wraps_after_forty_advances() {
    let mut s = SchedData::new();
    assert_eq!(s.task_idx, 0);
    for n in 0..80u32 {
        assert_eq!(s.task_idx, n % 40);
        s.advance_slot();
    }
    assert_eq!(s.task_idx, 0);
}

#[test]
fn slot_index_wraps_for_short_list() {
    let mut s = SchedData::with_config(vec![TaskId::Ftask1, TaskId::Mtask1], 250, 2000, 200);
    for n in 0..7u32 {
        assert_eq!(s.task_idx, n % 2);
        s.advance_slot();
    }
}

#[test]
fn default_task_list_follows_slot_pattern() {
    let s = SchedData::new();
    assert_eq!(s.task_list.len(), 40);
    assert_eq!(s.task_list[0], TaskId::Ftask0);
    assert_eq!(s.task_list[1], TaskId::Mtask0);
    assert_eq!(s.task_list[2], TaskId::Ftask1);
    assert_eq!(s.task_list[3], TaskId::Ltask0);
    assert_eq!(s.task_list[5], TaskId::Mtask1);
    assert_eq!(s.task_list[17], TaskId::Mtask4);
    assert_eq!(s.task_list[19], TaskId::Ltask4);
    assert_eq!(s.task_list[21], TaskId::Mtask0);
    assert_eq!(s.task_list[23], TaskId::Ltask5);
    assert_eq!(s.task_list[38], TaskId::Ftask1);
    assert_eq!(s.task_list[39], TaskId::Ltask9);
    assert_eq!(s.cnt_start_ref, TASK_SCHED_CNT_START_REF_VAL);
    assert_eq!(s.cnt_urgent_ref, TASK_SCHED_CNT_URGENT_REF_VAL);
    assert_eq!(TASK_SCHED_CNT_START_REF_VAL, 2000);
    assert_eq!(TASK_SCHED_CNT_URGENT_REF_VAL, 200);
}

#[test]
fn runtime_bounds_are_monotonic() {
    let mut s = SchedData::new();
    // observed runtimes are the counter reading less the 200-tick offset
    fabri_os::sched::get_task_sched_times(&mut s, TaskId::Ftask1, 700);
    assert_eq!(s.tasks_max_runtime[1], 500);
    assert_eq!(s.tasks_min_runtime[1], 500);
    fabri_os::sched::get_task_sched_times(&mut s, TaskId::Ftask1, 500);
    assert_eq!(s.tasks_max_runtime[1], 500);
    assert_eq!(s.tasks_min_runtime[1], 300);
    fabri_os::sched::get_task_sched_times(&mut s, TaskId::Ftask1, 900);
    assert_eq!(s.tasks_max_runtime[1], 700);
    assert_eq!(s.tasks_min_runtime[1], 300);
    let mut prev_max = 0u32;
    let mut prev_min = u32::MAX;
    for cnt in [400u32, 1200, 200, 250, 5000, 210] {
        fabri_os::sched::get_task_sched_times(&mut s, TaskId::Ltask3, cnt);
        let ti = 10; // stats slot of the fourth low task
        assert!(s.tasks_max_runtime[ti] >= prev_max);
        assert!(s.tasks_min_runtime[ti] <= prev_min);
        prev_max = s.tasks_max_runtime[ti];
        prev_min = s.tasks_min_runtime[ti];
    }
}

#[test]
fn timestamp_overflow_extends_exactly_once_per_wrap() {
    // a slot period of half the 32-bit span makes every second slot wrap
    let mut s = SchedData::with_config(vec![TaskId::Ftask1], 0x8000_0000, 2000, 200);
    assert_eq!(s.scheduler_timestamp, 0);
    assert_eq!(s.scheduler_extended_timestamp, 0);
    u_task0(&mut s);
    assert_eq!(s.scheduler_timestamp, 0x8000_0000);
    assert_eq!(s.scheduler_extended_timestamp, 0);
    u_task0(&mut s);
    assert_eq!(s.scheduler_timestamp, 0);
    assert_eq!(s.scheduler_extended_timestamp, 0x1_0000_0000);
    u_task0(&mut s);
    assert_eq!(s.scheduler_timestamp, 0x8000_0000);
    assert_eq!(s.scheduler_extended_timestamp, 0x1_0000_0000);
    u_task0(&mut s);
    assert_eq!(s.scheduler_timestamp, 0);
    assert_eq!(s.scheduler_extended_timestamp, 0x2_0000_0000);
}

#[test]
fn timestamp_overflow_with_default_period() {
    let mut s = SchedData::new();
    let mut wraps = 0u32;
    let mut prev_ext = 0u64;
    // drive the 32-bit timestamp across its maximum with the stock period
    let ticks = 0x1_0000_0000u64 / 250 + 2;
    for _ in 0..ticks {
        u_task0(&mut s);
        if s.scheduler_extended_timestamp != prev_ext {
            assert_eq!(s.scheduler_extended_timestamp - prev_ext, 0x1_0000_0000);
            prev_ext = s.scheduler_extended_timestamp;
            wraps += 1;
        }
    }
    assert_eq!(wraps, 1);
    assert_eq!(s.scheduler_extended_timestamp, 0x1_0000_0000);
}

#[test]
fn elapsed_time_wraps_correctly() {
    let mut s = SchedData::with_config(vec![TaskId::Ftask1], 250, 2000, 200);
    u_task0(&mut s);
    let t0 = s.get_timestamp_us();
    assert_eq!(t0, 250);
    u_task0(&mut s);
    u_task0(&mut s);
    assert_eq!(s.get_elapsed_us(t0), 500);
    assert!(s.is_elapsed_us(t0, 499));
    assert!(!s.is_elapsed_us(t0, 500));
    // a reference taken just before the wrap still measures forward
    let late = u32::MAX - 100;
    let diff = s.get_timestamp_us().wrapping_sub(late);
    assert_eq!(s.get_elapsed_us(late), diff);
}

#[test]
fn s_init_fills_periods_and_seeds_stacks() {
    let mut s = SchedData::new();
    s_init(&mut s);
    for j in 0..17 {
        let expected = if j < 2 {
            500
        } else if j < 7 {
            5000
        } else {
            10000
        };
        assert_eq!(s.tasks_period_us[j], expected);
    }
    for stack in [&s.stack_pid00, &s.stack_pid01, &s.stack_pid02] {
        assert_eq!(stack[0], STACK_GUARD_WORD_0);
        assert_eq!(stack[0], 0xdead_beef);
        assert_eq!(stack[1], STACK_GUARD_WORD_1);
        assert_eq!(stack[1], 0xabad_1dea);
    }
    let sp = (PROC_PID00_STACK_SIZE - NUM_OF_STACK_ELEMS) as u32;
    assert_eq!(sp, 113);
    for i in 0..3 {
        assert_eq!(s.process_table[i].stack_ptr, sp);
        assert_eq!(s.process_table[i].state, ProcState::NotStarted);
    }
    // the entry word sits in the return-address slot of the seeded frame
    assert_eq!(s.stack_pid00[PROC_PID00_STACK_SIZE - NUM_OF_STACK_ELEMS + 1], 0);
    assert_eq!(s.stack_pid01[PROC_PID00_STACK_SIZE - NUM_OF_STACK_ELEMS + 1], 1);
    assert_eq!(s.stack_pid02[PROC_PID00_STACK_SIZE - NUM_OF_STACK_ELEMS + 1], 2);
}

#[test]
fn context_switch_round_trip_preserves_state() {
    let mut s = SchedData::new();
    s_init(&mut s);
    let mut rt = RteData::init();
    let mut ports = GpioPorts::new();
    let sp_before = s.active_sp;
    let saved_sp = s.process_table[0].stack_ptr;

    // first run enters the process body; it counts up once and yields
    run_process(&mut s, &mut rt, &mut ports, PidT::Pid00);
    assert_eq!(s.active_process, PidT::PidMain);
    assert_eq!(s.active_sp, sp_before);
    assert_eq!(s.process_table[0].state, ProcState::Suspended);
    assert_eq!(s.process_table[0].stack_ptr, saved_sp);
    assert_eq!(
        s.process_table[0].local,
        ProcLocal::Count { val: 6, resume: CountResume::AtYield1 }
    );

    // the next run resumes after the prior yield: the counter incremented
    // before yielding retains its value across the suspension
    run_process(&mut s, &mut rt, &mut ports, PidT::Pid00);
    assert_eq!(
        s.process_table[0].local,
        ProcLocal::Count { val: 6, resume: CountResume::AtYield2 }
    );
    run_process(&mut s, &mut rt, &mut ports, PidT::Pid00);
    assert_eq!(
        s.process_table[0].local,
        ProcLocal::Count { val: 8, resume: CountResume::AtYield1 }
    );
    assert_eq!(s.active_sp, sp_before);

    // the other counting process climbs by five and is untouched so far
    assert_eq!(
        s.process_table[2].local,
        ProcLocal::Count { val: 5, resume: CountResume::Start }
    );
    run_process(&mut s, &mut rt, &mut ports, PidT::Pid02);
    assert_eq!(
        s.process_table[2].local,
        ProcLocal::Count { val: 10, resume: CountResume::AtYield1 }
    );
}

#[test]
fn led_process_waits_then_runs_led_task() {
    let mut s = SchedData::new();
    s_init(&mut s);
    let mut rt = RteData::init();
    let mut ports = GpioPorts::new();

    // entry segment: count up and start the first wait at timestamp zero
    run_process(&mut s, &mut rt, &mut ports, PidT::Pid01);
    assert_eq!(
        s.process_table[1].local,
        ProcLocal::LedWork { val: 7, resume: LedWorkResume::FirstWait { ref_ts: 0 } }
    );

    // not elapsed yet: the process keeps waiting and nothing changes
    run_process(&mut s, &mut rt, &mut ports, PidT::Pid01);
    assert_eq!(
        s.process_table[1].local,
        ProcLocal::LedWork { val: 7, resume: LedWorkResume::FirstWait { ref_ts: 0 } }
    );
    assert_eq!(rt.swtimer_data.timers[0].current_val, 0);

    // let 1250 us pass; 1250 > 1000, so the wait elapses and the led task
    // runs: the blink timer advances one count
    for _ in 0..5 {
        u_task0(&mut s);
    }
    run_process(&mut s, &mut rt, &mut ports, PidT::Pid01);
    assert_eq!(
        s.process_table[1].local,
        ProcLocal::LedWork { val: 7, resume: LedWorkResume::SecondWait { ref_ts: 1250 } }
    );
    assert_eq!(rt.swtimer_data.timers[0].current_val, 1);
}

#[test]
fn two_slot_frame_runs_each_task_once_and_urgent_twice() {
    // a two-entry list with the stock counter references
    let mut s = SchedData::with_config(vec![TaskId::Ftask1, TaskId::Mtask1], 250, 2000, 200);
    let mut rt = RteData::init();
    let mut ports = GpioPorts::new();

    let first = run_slot(&mut s, &mut rt, &mut ports, 500);
    assert_eq!(first, TaskId::Ftask1);
    assert_eq!(s.task_idx, 1);

    let second = run_slot(&mut s, &mut rt, &mut ports, 500);
    assert_eq!(second, TaskId::Mtask1);

    // after one full pass the index returns to zero
    assert_eq!(s.task_idx, 0);
    // each task ran exactly once: its bounds hold exactly one observation
    assert_eq!(s.tasks_max_runtime[1], 300);
    assert_eq!(s.tasks_min_runtime[1], 300);
    assert_eq!(s.tasks_max_runtime[3], 300);
    assert_eq!(s.tasks_min_runtime[3], 300);
    // the urgent task ran once per slot: two slot periods of timestamp
    assert_eq!(s.scheduler_timestamp, 500);
}

#[test]
fn full_frame_on_default_list_returns_to_slot_zero() {
    let mut s = SchedData::new();
    s_init(&mut s);
    let mut rt = RteData::init();
    let mut ports = GpioPorts::new();
    let mut executed = Vec::new();
    for _ in 0..40 {
        executed.push(run_slot(&mut s, &mut rt, &mut ports, 450));
    }
    assert_eq!(s.task_idx, 0);
    // every fourth slot ran fast task zero, which drives process zero
    assert_eq!(executed[0], TaskId::Ftask0);
    assert_eq!(executed[4], TaskId::Ftask0);
    assert_eq!(executed[8], TaskId::Ftask0);
    // process zero was resumed ten times over the frame
    assert_ne!(
        s.process_table[0].local,
        ProcLocal::Count { val: 5, resume: CountResume::Start }
    );
    // fast task zero's bounds saw exactly the 250-tick observation
    assert_eq!(s.tasks_max_runtime[0], 250);
    assert_eq!(s.tasks_min_runtime[0], 250);
    assert_eq!(s.scheduler_timestamp, 40 * 250);
}
