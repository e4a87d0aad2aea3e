//! The cooperative scheduler and its context-switch bookkeeping.
//!
//! The scheduler forever replays a fixed slot list in lock-step with a
//! free-running hardware counter. Each slot runs the urgent task (timestamp
//! bookkeeping, padded by the caller to a constant budget), then exactly one
//! list task, then records that task's runtime into per-task bounds and
//! advances the slot index, wrapping after the last slot.
//!
//! Long-running work lives in cooperative processes, each with a dedicated
//! stack. On the target, `run_process` swaps the full register set and the
//! stack pointer to resume a process where it last yielded; here the saved
//! context is modeled as data — a saved stack-pointer word and the
//! process-local state that the stack preserves across a suspension — and
//! the register-set swap itself is the platform layer's.  Every contract
//! states exactly which words the swap moves, so the protocol (run until
//! the next yield, return to the main context with the caller's state
//! intact) is proved rather than assumed.

use vstd::arithmetic::div_mod::lemma_fundamental_div_mod;
use vstd::arithmetic::div_mod::lemma_fundamental_div_mod_converse;
use vstd::prelude::*;

use crate::gpio::GpioPorts;
use crate::ledm;
use crate::rte::RteData;

verus! {

/// Words one saved context occupies on a process stack (register set and
/// status word).
pub const NUM_OF_STACK_ELEMS: usize = 15;

/// Stack sizes of the three processes, in words.
pub const PROC_PID00_STACK_SIZE: usize = 128;

pub const PROC_PID01_STACK_SIZE: usize = 128;

pub const PROC_PID02_STACK_SIZE: usize = 128;

/// Number of task slots in one major frame.
pub const TASK_NUM_OF_SLOTS: usize = 40;

/// Number of distinct logical tasks.
pub const TASK_NUM: usize = 17;

/// Duration of one time slot, in microseconds; each slot starts with the
/// urgent task followed by one list task.
pub const TASK_SCHEDULE_TIMESLOT_TIME_US: u32 = 250;

/// Counter reference value that opens a slot; the hardware counter must be
/// able to reach it before wrapping.
pub const TASK_SCHED_CNT_START_REF_VAL: u32 = (crate::rcc::F_CPU_HZ / 1_000_000)
    * TASK_SCHEDULE_TIMESLOT_TIME_US;

/// Budget of the urgent task, in microseconds; when the urgent task is
/// faster, the caller waits out the remainder so the slot stays
/// deterministic.
pub const TASK_SCHEDULE_URGENT_TASK_TIME_US: u32 = 25;

/// Counter reference value of the urgent-task budget.
pub const TASK_SCHED_CNT_URGENT_REF_VAL: u32 = (crate::rcc::F_CPU_HZ / 1_000_000)
    * TASK_SCHEDULE_URGENT_TASK_TIME_US;

/// Counter ticks the runtime measurement itself consumes; subtracted from
/// every reading before it is recorded.
pub const SCHED_TIME_MEASURE_OFFSET_TICKS: u32 = 200;

/// One full span of the wrapping 32-bit timestamp; the extended timestamp
/// grows by exactly this much per wrap.
pub const TIMESTAMP_WRAP_SPAN: u64 = 0x1_0000_0000;

/// Guard words written at the base of every process stack, an extension
/// point for stack-corruption detection.
pub const STACK_GUARD_WORD_0: u32 = 0xdead_beef;

pub const STACK_GUARD_WORD_1: u32 = 0xabad_1dea;

/// Pause the led process holds between its steps, in timestamp
/// microseconds.
pub const PROC_LED_WAIT_TIME_US: u32 = 1000;

/// Start value of every process-local counter.
pub const PROC_VAL_START: u32 = 5;

/// The seventeen logical tasks: two fast, five medium, ten low.
#[derive(Copy, Clone, PartialEq, Eq, Structural, Debug)]
pub enum TaskId {
    Ftask0,
    Ftask1,
    Mtask0,
    Mtask1,
    Mtask2,
    Mtask3,
    Mtask4,
    Ltask0,
    Ltask1,
    Ltask2,
    Ltask3,
    Ltask4,
    Ltask5,
    Ltask6,
    Ltask7,
    Ltask8,
    Ltask9,
}

/// Process identities: three workers and the scheduler's own main context.
#[derive(Copy, Clone, PartialEq, Eq, Structural, Debug)]
pub enum PidT {
    Pid00,
    Pid01,
    Pid02,
    PidMain,
}

/// Lifecycle of a process: seeded but never run, suspended at a yield, or
/// currently executing. A process never returns to `NotStarted`.
#[derive(Copy, Clone, PartialEq, Eq, Structural, Debug)]
pub enum ProcState {
    NotStarted,
    Suspended,
    Running,
}

/// Where a counting process resumes: at its entry, or after its first or
/// second yield.
#[derive(Copy, Clone, PartialEq, Eq, Structural, Debug)]
pub enum CountResume {
    Start,
    AtYield1,
    AtYield2,
}

/// Where the led process resumes: at its entry, inside one of its two
/// timed waits (with the timestamp the wait started at), or after its
/// explicit yield.
#[derive(Copy, Clone, PartialEq, Eq, Structural, Debug)]
pub enum LedWorkResume {
    Start,
    FirstWait { ref_ts: u32 },
    SecondWait { ref_ts: u32 },
    AtYield,
}

/// The process-local state a suspension preserves: on the target it lives
/// in the saved register set and on the process stack; here it is explicit
/// data.
#[derive(Copy, Clone, PartialEq, Eq, Structural, Debug)]
pub enum ProcLocal {
    /// The two plain counting workloads.
    Count { val: u32, resume: CountResume },
    /// The workload that paces and drives the led manager.
    LedWork { val: u32, resume: LedWorkResume },
}

/// One process-table entry: identity, saved stack pointer (a word index
/// into the process's stack), lifecycle state, and the preserved local
/// state.
#[derive(Copy, Clone)]
pub struct Process {
    pub pid: PidT,
    pub stack_ptr: u32,
    pub state: ProcState,
    pub local: ProcLocal,
}

/// The scheduler singleton, threaded explicitly through every entry point
/// so the single-writer discipline is visible to the type system.
pub struct SchedData {
    /// Slot index into the task list; wraps after the last slot.
    pub task_idx: u32,
    /// Wrapping 32-bit timestamp, advanced by one slot period per slot.
    pub scheduler_timestamp: u32,
    /// Overflow extension of the timestamp; grows by exactly one wrap span
    /// per 32-bit overflow.
    pub scheduler_extended_timestamp: u64,
    /// Slot period in microseconds (configuration, not hardcoded).
    pub timeslot_time_us: u32,
    /// Counter reference value that opens a slot.
    pub cnt_start_ref: u32,
    /// Counter reference value of the urgent-task budget.
    pub cnt_urgent_ref: u32,
    /// The fixed, statically ordered slot list.
    pub task_list: Vec<TaskId>,
    /// Running maximum of observed runtime per logical task, in counter
    /// ticks; only grows.
    pub tasks_max_runtime: Vec<u32>,
    /// Running minimum of observed runtime per logical task; only shrinks.
    pub tasks_min_runtime: Vec<u32>,
    /// Period of each logical task in microseconds, filled by `s_init`.
    pub tasks_period_us: Vec<u32>,
    /// The dedicated stacks of the three processes.
    pub stack_pid00: Vec<u32>,
    pub stack_pid01: Vec<u32>,
    pub stack_pid02: Vec<u32>,
    /// The three worker processes.
    pub process_table: Vec<Process>,
    /// Pseudo-process of the scheduler's own flow; switch partner of every
    /// worker.
    pub main_process: Process,
    /// Which context is executing right now.
    pub active_process: PidT,
    /// Model of the live stack-pointer register of the executing context.
    pub active_sp: u32,
}

/// Table slot of each logical task.
pub open spec fn task_index_spec(t: TaskId) -> int {
    match t {
        TaskId::Ftask0 => 0,
        TaskId::Ftask1 => 1,
        TaskId::Mtask0 => 2,
        TaskId::Mtask1 => 3,
        TaskId::Mtask2 => 4,
        TaskId::Mtask3 => 5,
        TaskId::Mtask4 => 6,
        TaskId::Ltask0 => 7,
        TaskId::Ltask1 => 8,
        TaskId::Ltask2 => 9,
        TaskId::Ltask3 => 10,
        TaskId::Ltask4 => 11,
        TaskId::Ltask5 => 12,
        TaskId::Ltask6 => 13,
        TaskId::Ltask7 => 14,
        TaskId::Ltask8 => 15,
        TaskId::Ltask9 => 16,
    }
}

/// Resolve a logical task to its stats-table slot.
pub fn task_index(t: TaskId) -> (r: usize)
    ensures
        r as int == task_index_spec(t),
        r < TASK_NUM,
{
    match t {
        TaskId::Ftask0 => 0,
        TaskId::Ftask1 => 1,
        TaskId::Mtask0 => 2,
        TaskId::Mtask1 => 3,
        TaskId::Mtask2 => 4,
        TaskId::Mtask3 => 5,
        TaskId::Mtask4 => 6,
        TaskId::Ltask0 => 7,
        TaskId::Ltask1 => 8,
        TaskId::Ltask2 => 9,
        TaskId::Ltask3 => 10,
        TaskId::Ltask4 => 11,
        TaskId::Ltask5 => 12,
        TaskId::Ltask6 => 13,
        TaskId::Ltask7 => 14,
        TaskId::Ltask8 => 15,
        TaskId::Ltask9 => 16,
    }
}

/// Period of the logical task in stats slot `j`: the two fast tasks run
/// every other slot, the five medium tasks every twentieth, the ten low
/// tasks every fortieth.
pub open spec fn period_by_index_spec(j: int) -> u32 {
    if j < 2 {
        500u32
    } else if j < 7 {
        5000u32
    } else {
        10000u32
    }
}

fn period_by_index(j: usize) -> (r: u32)
    requires
        j < TASK_NUM,
    ensures
        r == period_by_index_spec(j as int),
{
    if j < 2 {
        500
    } else if j < 7 {
        5000
    } else {
        10000
    }
}

/// Worker-process identity sitting in process-table slot `i`.
pub open spec fn pid_at(i: int) -> PidT {
    if i == 0 {
        PidT::Pid00
    } else if i == 1 {
        PidT::Pid01
    } else if i == 2 {
        PidT::Pid02
    } else {
        PidT::PidMain
    }
}

/// Process-table slot of a worker process; meaningful only away from the
/// main context.
pub open spec fn pid_index_spec(pid: PidT) -> int {
    match pid {
        PidT::Pid00 => 0,
        PidT::Pid01 => 1,
        PidT::Pid02 => 2,
        PidT::PidMain => 0,
    }
}

/// Resolve a worker process to its table slot.
pub fn pid_index(pid: PidT) -> (r: usize)
    requires
        !(pid is PidMain),
    ensures
        r as int == pid_index_spec(pid),
        r < 3,
        pid_at(r as int) == pid,
{
    match pid {
        PidT::Pid00 => 0,
        PidT::Pid01 => 1,
        PidT::Pid02 => 2,
        PidT::PidMain => 0,
    }
}

/// Counter increment a counting process applies per pass.
pub open spec fn proc_delta(pid: PidT) -> u32 {
    match pid {
        PidT::Pid00 => 1u32,
        PidT::Pid02 => 5u32,
        _ => 0u32,
    }
}

/// Local state a process is seeded with.
pub open spec fn initial_local(pid: PidT) -> ProcLocal {
    match pid {
        PidT::Pid01 => ProcLocal::LedWork { val: PROC_VAL_START, resume: LedWorkResume::Start },
        _ => ProcLocal::Count { val: PROC_VAL_START, resume: CountResume::Start },
    }
}

/// Word seeded into the return-address slot of a process's initial
/// stack frame: it stands for the entry address of the process body, so
/// the first resume starts the body from its beginning.
pub open spec fn process_entry_word_spec(pid: PidT) -> u32 {
    pid_index_spec(pid) as u32
}

fn process_entry_word(pid: PidT) -> (r: u32)
    requires
        !(pid is PidMain),
    ensures
        r == process_entry_word_spec(pid),
{
    pid_index(pid) as u32
}

/// Value bounds the counting workload keeps per resume point; they make
/// every increment overflow-free.
pub open spec fn count_val_inv(val: u32, resume: CountResume, delta: u32) -> bool {
    match resume {
        CountResume::Start => val == PROC_VAL_START,
        CountResume::AtYield1 => val <= 8 + 2 * delta,
        CountResume::AtYield2 => val <= 8,
    }
}

/// Value bounds the led workload keeps per resume point.
pub open spec fn ledwork_val_inv(val: u32, resume: LedWorkResume) -> bool {
    match resume {
        LedWorkResume::Start => val == PROC_VAL_START,
        LedWorkResume::FirstWait { .. } => val <= 12,
        LedWorkResume::SecondWait { .. } => val <= 12,
        LedWorkResume::AtYield => val <= 8,
    }
}

/// The local state fits the process it belongs to.
pub open spec fn local_inv(pid: PidT, l: ProcLocal) -> bool {
    match pid {
        PidT::Pid00 => l matches ProcLocal::Count { val, resume } && count_val_inv(
            val,
            resume,
            1u32,
        ),
        PidT::Pid02 => l matches ProcLocal::Count { val, resume } && count_val_inv(
            val,
            resume,
            5u32,
        ),
        PidT::Pid01 => l matches ProcLocal::LedWork { val, resume } && ledwork_val_inv(val, resume),
        PidT::PidMain => true,
    }
}

impl SchedData {
    /// Structural well-formedness: full tables, a slot index inside the
    /// list, and every process in its slot with a fitting local state.
    pub open spec fn wf(self) -> bool {
        &&& 1 <= self.task_list@.len() <= u32::MAX
        &&& (self.task_idx as int) < self.task_list@.len()
        &&& self.tasks_max_runtime@.len() == TASK_NUM
        &&& self.tasks_min_runtime@.len() == TASK_NUM
        &&& self.tasks_period_us@.len() == TASK_NUM
        &&& self.process_table@.len() == 3
        &&& forall|i: int|
            0 <= i < 3 ==> (#[trigger] self.process_table@[i]).pid == pid_at(i)
        &&& forall|i: int|
            0 <= i < 3 ==> local_inv(pid_at(i), (#[trigger] self.process_table@[i]).local)
        &&& self.stack_pid00@.len() == PROC_PID00_STACK_SIZE
        &&& self.stack_pid01@.len() == PROC_PID01_STACK_SIZE
        &&& self.stack_pid02@.len() == PROC_PID02_STACK_SIZE
        &&& self.main_process.pid is PidMain
    }

    /// The scheduler's own context is executing and no worker is running:
    /// the quiescent state between slots, and the only state in which a
    /// process may be resumed.
    pub open spec fn at_main(self) -> bool {
        &&& self.active_process is PidMain
        &&& forall|i: int|
            0 <= i < self.process_table@.len() ==> !((#[trigger] self.process_table@[i]).state
                is Running)
    }

    /// Microseconds elapsed since start, carried jointly by the wrapping
    /// timestamp and its overflow extension.
    pub open spec fn total_time_us(self) -> int {
        self.scheduler_extended_timestamp + self.scheduler_timestamp
    }

    /// A scheduler over the given slot list and timing configuration, with
    /// zeroed clocks and stats bounds at their identity values, processes
    /// seeded but not started, and the main context active.
    pub fn with_config(
        task_list: Vec<TaskId>,
        timeslot_time_us: u32,
        cnt_start_ref: u32,
        cnt_urgent_ref: u32,
    ) -> (r: SchedData)
        requires
            1 <= task_list@.len() <= u32::MAX,
        ensures
            r.wf(),
            r.at_main(),
            r.task_idx == 0,
            r.scheduler_timestamp == 0,
            r.scheduler_extended_timestamp == 0,
            r.timeslot_time_us == timeslot_time_us,
            r.cnt_start_ref == cnt_start_ref,
            r.cnt_urgent_ref == cnt_urgent_ref,
            r.task_list@ == task_list@,
            forall|j: int| 0 <= j < TASK_NUM ==> r.tasks_max_runtime@[j] == u32::MIN,
            forall|j: int| 0 <= j < TASK_NUM ==> r.tasks_min_runtime@[j] == u32::MAX,
            forall|j: int| 0 <= j < TASK_NUM ==> r.tasks_period_us@[j] == 0,
            forall|j: int|
                0 <= j < PROC_PID00_STACK_SIZE ==> r.stack_pid00@[j] == 0 && r.stack_pid01@[j] == 0
                    && r.stack_pid02@[j] == 0,
            forall|i: int|
                0 <= i < 3 ==> #[trigger] r.process_table@[i] == (Process {
                    pid: pid_at(i),
                    stack_ptr: 0,
                    state: ProcState::NotStarted,
                    local: initial_local(pid_at(i)),
                }),
            r.main_process == (Process {
                pid: PidT::PidMain,
                stack_ptr: 0,
                state: ProcState::Running,
                local: initial_local(PidT::PidMain),
            }),
            r.active_sp == 0,
    {
        let mut process_table: Vec<Process> = Vec::new();
        process_table.push(
            Process {
                pid: PidT::Pid00,
                stack_ptr: 0,
                state: ProcState::NotStarted,
                local: ProcLocal::Count { val: PROC_VAL_START, resume: CountResume::Start },
            },
        );
        process_table.push(
            Process {
                pid: PidT::Pid01,
                stack_ptr: 0,
                state: ProcState::NotStarted,
                local: ProcLocal::LedWork { val: PROC_VAL_START, resume: LedWorkResume::Start },
            },
        );
        process_table.push(
            Process {
                pid: PidT::Pid02,
                stack_ptr: 0,
                state: ProcState::NotStarted,
                local: ProcLocal::Count { val: PROC_VAL_START, resume: CountResume::Start },
            },
        );
        SchedData {
            task_idx: 0,
            scheduler_timestamp: 0,
            scheduler_extended_timestamp: 0,
            timeslot_time_us,
            cnt_start_ref,
            cnt_urgent_ref,
            task_list,
            tasks_max_runtime: filled_u32(TASK_NUM, u32::MIN),
            tasks_min_runtime: filled_u32(TASK_NUM, u32::MAX),
            tasks_period_us: filled_u32(TASK_NUM, 0),
            stack_pid00: filled_u32(PROC_PID00_STACK_SIZE, 0),
            stack_pid01: filled_u32(PROC_PID01_STACK_SIZE, 0),
            stack_pid02: filled_u32(PROC_PID02_STACK_SIZE, 0),
            process_table,
            main_process: Process {
                pid: PidT::PidMain,
                stack_ptr: 0,
                state: ProcState::Running,
                local: ProcLocal::Count { val: PROC_VAL_START, resume: CountResume::Start },
            },
            active_process: PidT::PidMain,
            active_sp: 0,
        }
    }

    /// The default build: the forty-slot list with the stock timing
    /// constants.
    pub fn new() -> (r: SchedData)
        ensures
            r.wf(),
            r.at_main(),
            r.task_idx == 0,
            r.scheduler_timestamp == 0,
            r.scheduler_extended_timestamp == 0,
            r.timeslot_time_us == TASK_SCHEDULE_TIMESLOT_TIME_US,
            r.cnt_start_ref == TASK_SCHED_CNT_START_REF_VAL,
            r.cnt_urgent_ref == TASK_SCHED_CNT_URGENT_REF_VAL,
            r.task_list@.len() == TASK_NUM_OF_SLOTS,
            forall|j: int|
                0 <= j < TASK_NUM_OF_SLOTS ==> r.task_list@[j] == default_slot_spec(j),
            forall|j: int| 0 <= j < TASK_NUM ==> r.tasks_max_runtime@[j] == u32::MIN,
            forall|j: int| 0 <= j < TASK_NUM ==> r.tasks_min_runtime@[j] == u32::MAX,
            forall|j: int| 0 <= j < TASK_NUM ==> r.tasks_period_us@[j] == 0,
            forall|j: int|
                0 <= j < PROC_PID00_STACK_SIZE ==> r.stack_pid00@[j] == 0 && r.stack_pid01@[j] == 0
                    && r.stack_pid02@[j] == 0,
            forall|i: int|
                0 <= i < 3 ==> #[trigger] r.process_table@[i] == (Process {
                    pid: pid_at(i),
                    stack_ptr: 0,
                    state: ProcState::NotStarted,
                    local: initial_local(pid_at(i)),
                }),
            r.main_process == (Process {
                pid: PidT::PidMain,
                stack_ptr: 0,
                state: ProcState::Running,
                local: initial_local(PidT::PidMain),
            }),
            r.active_sp == 0,
    {
        SchedData::with_config(
            default_task_list(),
            TASK_SCHEDULE_TIMESLOT_TIME_US,
            TASK_SCHED_CNT_START_REF_VAL,
            TASK_SCHED_CNT_URGENT_REF_VAL,
        )
    }
}

/// A vector of `len` copies of `v`.
fn filled_u32(len: usize, v: u32) -> (r: Vec<u32>)
    ensures
        r@.len() == len,
        forall|j: int| 0 <= j < len ==> r@[j] == v,
{
    let mut r: Vec<u32> = Vec::new();
    let mut i: usize = 0;
    while i < len
        invariant
            0 <= i <= len,
            r@.len() == i,
            forall|j: int| 0 <= j < i ==> r@[j] == v,
        decreases len - i,
    {
        r.push(v);
        i = i + 1;
    }
    r
}

/// The slot pattern of the major frame: the slot group
/// `[fast 0, medium, fast 1, low]` repeated ten times, the medium tasks
/// cycling with period five and each low task taking one group.
pub open spec fn default_slot_spec(i: int) -> TaskId {
    if i % 4 == 0 {
        TaskId::Ftask0
    } else if i % 4 == 2 {
        TaskId::Ftask1
    } else if i % 4 == 1 {
        mtask_spec((i / 4) % 5)
    } else {
        ltask_spec(i / 4)
    }
}

pub open spec fn mtask_spec(k: int) -> TaskId {
    if k == 0 {
        TaskId::Mtask0
    } else if k == 1 {
        TaskId::Mtask1
    } else if k == 2 {
        TaskId::Mtask2
    } else if k == 3 {
        TaskId::Mtask3
    } else {
        TaskId::Mtask4
    }
}

pub open spec fn ltask_spec(k: int) -> TaskId {
    if k == 0 {
        TaskId::Ltask0
    } else if k == 1 {
        TaskId::Ltask1
    } else if k == 2 {
        TaskId::Ltask2
    } else if k == 3 {
        TaskId::Ltask3
    } else if k == 4 {
        TaskId::Ltask4
    } else if k == 5 {
        TaskId::Ltask5
    } else if k == 6 {
        TaskId::Ltask6
    } else if k == 7 {
        TaskId::Ltask7
    } else if k == 8 {
        TaskId::Ltask8
    } else {
        TaskId::Ltask9
    }
}

fn mtask_of(k: usize) -> (r: TaskId)
    requires
        k < 5,
    ensures
        r == mtask_spec(k as int),
{
    if k == 0 {
        TaskId::Mtask0
    } else if k == 1 {
        TaskId::Mtask1
    } else if k == 2 {
        TaskId::Mtask2
    } else if k == 3 {
        TaskId::Mtask3
    } else {
        TaskId::Mtask4
    }
}

fn ltask_of(k: usize) -> (r: TaskId)
    requires
        k < 10,
    ensures
        r == ltask_spec(k as int),
{
    if k == 0 {
        TaskId::Ltask0
    } else if k == 1 {
        TaskId::Ltask1
    } else if k == 2 {
        TaskId::Ltask2
    } else if k == 3 {
        TaskId::Ltask3
    } else if k == 4 {
        TaskId::Ltask4
    } else if k == 5 {
        TaskId::Ltask5
    } else if k == 6 {
        TaskId::Ltask6
    } else if k == 7 {
        TaskId::Ltask7
    } else if k == 8 {
        TaskId::Ltask8
    } else {
        TaskId::Ltask9
    }
}

/// Build the default forty-slot list.
pub fn default_task_list() -> (r: Vec<TaskId>)
    ensures
        r@.len() == TASK_NUM_OF_SLOTS,
        forall|j: int| 0 <= j < TASK_NUM_OF_SLOTS ==> r@[j] == default_slot_spec(j),
{
    let mut r: Vec<TaskId> = Vec::new();
    let mut i: usize = 0;
    while i < TASK_NUM_OF_SLOTS
        invariant
            0 <= i <= TASK_NUM_OF_SLOTS,
            r@.len() == i,
            forall|j: int| 0 <= j < i ==> r@[j] == default_slot_spec(j),
        decreases TASK_NUM_OF_SLOTS - i,
    {
        let rem = i % 4;
        let group = i / 4;
        let t = if rem == 0 {
            TaskId::Ftask0
        } else if rem == 2 {
            TaskId::Ftask1
        } else if rem == 1 {
            mtask_of(group % 5)
        } else {
            ltask_of(group)
        };
        r.push(t);
        i = i + 1;
    }
    r
}

/// The wrapping timestamp after one urgent-task pass.
pub open spec fn ts_after_spec(ts: u32, period: u32) -> u32 {
    vstd::wrapping::u32_specs::wrapping_add(ts, period)
}

/// The extended timestamp after one urgent-task pass: it grows by exactly
/// one wrap span when the 32-bit addition would wrap, else not at all.
pub open spec fn ext_after_spec(ts: u32, ext: u64, period: u32) -> u64 {
    if ts + period > u32::MAX {
        (ext + TIMESTAMP_WRAP_SPAN) as u64
    } else {
        ext
    }
}

/// The urgent task, run once at the head of every slot: advance the
/// wrapping timestamp by one slot period and extend it across overflow.
/// Everything else is untouched; the caller pads the remainder of the
/// urgent budget so the slot timing stays constant.
pub fn u_task0(s: &mut SchedData)
    requires
        old(s).scheduler_extended_timestamp <= u64::MAX - TIMESTAMP_WRAP_SPAN,
    ensures
        *final(s) == (SchedData {
            scheduler_timestamp: final(s).scheduler_timestamp,
            scheduler_extended_timestamp: final(s).scheduler_extended_timestamp,
            ..*old(s)
        }),
        final(s).scheduler_timestamp == ts_after_spec(
            old(s).scheduler_timestamp,
            old(s).timeslot_time_us,
        ),
        final(s).scheduler_extended_timestamp == ext_after_spec(
            old(s).scheduler_timestamp,
            old(s).scheduler_extended_timestamp,
            old(s).timeslot_time_us,
        ),
        final(s).total_time_us() == old(s).total_time_us() + old(s).timeslot_time_us,
{
    let period = s.timeslot_time_us;
    let ts = s.scheduler_timestamp;
    if ts.wrapping_add(period) < ts {
        s.scheduler_extended_timestamp = s.scheduler_extended_timestamp + TIMESTAMP_WRAP_SPAN;
    }
    s.scheduler_timestamp = ts.wrapping_add(period);
}

impl SchedData {
    /// The current wrapping timestamp.
    pub fn get_timestamp_us(&self) -> (r: u32)
        ensures
            r == self.scheduler_timestamp,
    {
        self.scheduler_timestamp
    }

    /// Microseconds elapsed since `timestamp`, in wrapping arithmetic.
    pub fn get_elapsed_us(&self, timestamp: u32) -> (r: u32)
        ensures
            r == vstd::wrapping::u32_specs::wrapping_sub(self.scheduler_timestamp, timestamp),
    {
        self.scheduler_timestamp.wrapping_sub(timestamp)
    }

    /// Whether strictly more than `time_to_elapse` microseconds have passed
    /// since `timestamp`.
    pub fn is_elapsed_us(&self, timestamp: u32, time_to_elapse: u32) -> (r: bool)
        ensures
            r == (vstd::wrapping::u32_specs::wrapping_sub(self.scheduler_timestamp, timestamp)
                > time_to_elapse),
    {
        self.scheduler_timestamp.wrapping_sub(timestamp) > time_to_elapse
    }
}

/// The recorded maximum after one observation: it only grows.
pub open spec fn max_after(cur: u32, runtime: u32) -> u32 {
    if cur > runtime {
        cur
    } else {
        runtime
    }
}

/// The recorded minimum after one observation: it only shrinks.
pub open spec fn min_after(cur: u32, runtime: u32) -> u32 {
    if cur < runtime {
        cur
    } else {
        runtime
    }
}

/// Exact effect of recording one runtime observation for stats slot `ti`:
/// both bounds are folded with the offset-corrected reading and nothing
/// else changes.
pub open spec fn recorded_runtime(s0: SchedData, s1: SchedData, ti: int, counter_value: u32) -> bool {
    let runtime = (counter_value - SCHED_TIME_MEASURE_OFFSET_TICKS) as u32;
    &&& s1.tasks_max_runtime@ == s0.tasks_max_runtime@.update(
        ti,
        max_after(s0.tasks_max_runtime@[ti], runtime),
    )
    &&& s1.tasks_min_runtime@ == s0.tasks_min_runtime@.update(
        ti,
        min_after(s0.tasks_min_runtime@[ti], runtime),
    )
    &&& s1 == (SchedData {
        tasks_max_runtime: s1.tasks_max_runtime,
        tasks_min_runtime: s1.tasks_min_runtime,
        ..s0
    })
}

/// Record one task's observed runtime: the counter reading at the task's
/// return, less the fixed measurement overhead, folded into that task's
/// running maximum and minimum.
pub fn get_task_sched_times(s: &mut SchedData, task_id: TaskId, counter_value: u32)
    requires
        old(s).wf(),
        counter_value >= SCHED_TIME_MEASURE_OFFSET_TICKS,
    ensures
        final(s).wf(),
        recorded_runtime(*old(s), *final(s), task_index_spec(task_id), counter_value),
{
    let task_runtime: u32 = counter_value - SCHED_TIME_MEASURE_OFFSET_TICKS;
    let ti = task_index(task_id);
    let cur_max = s.tasks_max_runtime[ti];
    let new_max = if cur_max > task_runtime {
        cur_max
    } else {
        task_runtime
    };
    s.tasks_max_runtime.set(ti, new_max);
    let cur_min = s.tasks_min_runtime[ti];
    let new_min = if cur_min < task_runtime {
        cur_min
    } else {
        task_runtime
    };
    s.tasks_min_runtime.set(ti, new_min);
}

/// The slot index after one advance: one step forward, wrapping to zero
/// after the last slot.
pub open spec fn idx_after_advance(idx: int, len: int) -> int {
    if idx + 1 < len {
        idx + 1
    } else {
        0
    }
}

impl SchedData {
    /// Advance the slot index by one slot, wrapping after the last; one
    /// full pass is one major frame.
    pub fn advance_slot(&mut self)
        requires
            old(self).wf(),
        ensures
            final(self).wf(),
            *final(self) == (SchedData { task_idx: final(self).task_idx, ..*old(self) }),
            final(self).task_idx as int == idx_after_advance(
                old(self).task_idx as int,
                old(self).task_list@.len() as int,
            ),
    {
        if self.task_idx + 1 < self.task_list.len() as u32 {
            self.task_idx = self.task_idx + 1;
        } else {
            self.task_idx = 0;
        }
    }
}

/// A process stack after seeding: the two guard words at its base and the
/// entry word in the return-address slot of the pre-built context frame.
pub open spec fn seeded_stack(st: Seq<u32>, entry: u32) -> Seq<u32> {
    st.update(0, STACK_GUARD_WORD_0).update(1, STACK_GUARD_WORD_1).update(
        st.len() - NUM_OF_STACK_ELEMS + 1,
        entry,
    )
}

/// Seed one process stack: write the guard words, pre-build a saved
/// context frame at the top whose return-address slot holds the entry
/// word, and return the initial stack pointer just below that frame.
fn seed_process_stack(stack: &mut Vec<u32>, entry: u32) -> (sp: u32)
    requires
        old(stack)@.len() >= NUM_OF_STACK_ELEMS + 2,
        old(stack)@.len() <= u32::MAX,
    ensures
        final(stack)@ == seeded_stack(old(stack)@, entry),
        sp == old(stack)@.len() - NUM_OF_STACK_ELEMS,
{
    let len = stack.len();
    stack.set(0, STACK_GUARD_WORD_0);
    stack.set(1, STACK_GUARD_WORD_1);
    stack.set(len - NUM_OF_STACK_ELEMS + 1, entry);
    (len - NUM_OF_STACK_ELEMS) as u32
}

/// Initialize the scheduler: fill the per-task periods and seed the three
/// process stacks, leaving each process's saved stack pointer just below
/// its pre-built context frame so the first resume starts the process
/// body.
pub fn s_init(s: &mut SchedData)
    requires
        old(s).wf(),
    ensures
        final(s).wf(),
        old(s).at_main() ==> final(s).at_main(),
        forall|j: int|
            0 <= j < TASK_NUM ==> final(s).tasks_period_us@[j] == period_by_index_spec(j),
        final(s).stack_pid00@ == seeded_stack(
            old(s).stack_pid00@,
            process_entry_word_spec(PidT::Pid00),
        ),
        final(s).stack_pid01@ == seeded_stack(
            old(s).stack_pid01@,
            process_entry_word_spec(PidT::Pid01),
        ),
        final(s).stack_pid02@ == seeded_stack(
            old(s).stack_pid02@,
            process_entry_word_spec(PidT::Pid02),
        ),
        final(s).process_table@ == old(s).process_table@.update(
            0,
            (Process {
                stack_ptr: (PROC_PID00_STACK_SIZE - NUM_OF_STACK_ELEMS) as u32,
                ..old(s).process_table@[0]
            }),
        ).update(
            1,
            (Process {
                stack_ptr: (PROC_PID01_STACK_SIZE - NUM_OF_STACK_ELEMS) as u32,
                ..old(s).process_table@[1]
            }),
        ).update(
            2,
            (Process {
                stack_ptr: (PROC_PID02_STACK_SIZE - NUM_OF_STACK_ELEMS) as u32,
                ..old(s).process_table@[2]
            }),
        ),
        *final(s) == (SchedData {
            tasks_period_us: final(s).tasks_period_us,
            stack_pid00: final(s).stack_pid00,
            stack_pid01: final(s).stack_pid01,
            stack_pid02: final(s).stack_pid02,
            process_table: final(s).process_table,
            ..*old(s)
        }),
{
    s.tasks_period_us.set(0, 500);
    s.tasks_period_us.set(1, 500);
    s.tasks_period_us.set(2, 5000);
    s.tasks_period_us.set(3, 5000);
    s.tasks_period_us.set(4, 5000);
    s.tasks_period_us.set(5, 5000);
    s.tasks_period_us.set(6, 5000);
    s.tasks_period_us.set(7, 10000);
    s.tasks_period_us.set(8, 10000);
    s.tasks_period_us.set(9, 10000);
    s.tasks_period_us.set(10, 10000);
    s.tasks_period_us.set(11, 10000);
    s.tasks_period_us.set(12, 10000);
    s.tasks_period_us.set(13, 10000);
    s.tasks_period_us.set(14, 10000);
    s.tasks_period_us.set(15, 10000);
    s.tasks_period_us.set(16, 10000);

    let sp0 = seed_process_stack(&mut s.stack_pid00, process_entry_word(PidT::Pid00));
    let sp1 = seed_process_stack(&mut s.stack_pid01, process_entry_word(PidT::Pid01));
    let sp2 = seed_process_stack(&mut s.stack_pid02, process_entry_word(PidT::Pid02));

    let mut p0 = s.process_table[0];
    p0.stack_ptr = sp0;
    s.process_table.set(0, p0);
    let mut p1 = s.process_table[1];
    p1.stack_ptr = sp1;
    s.process_table.set(1, p1);
    let mut p2 = s.process_table[2];
    p2.stack_ptr = sp2;
    s.process_table.set(2, p2);
    proof {
        assert(forall|i: int|
            0 <= i < s.process_table@.len() ==> (#[trigger] s.process_table@[i]).state == old(
                s,
            ).process_table@[i].state);
    }
}

/// One segment of a counting process body, from one suspension point to
/// the next: enter and count up; test and reset past eight; or
/// saturating-count, loop around and count again.
pub open spec fn count_step(l: ProcLocal, delta: u32) -> ProcLocal {
    match l {
        ProcLocal::Count { val, resume } => match resume {
            CountResume::Start => ProcLocal::Count {
                val: (val + delta) as u32,
                resume: CountResume::AtYield1,
            },
            CountResume::AtYield1 => ProcLocal::Count {
                val: if val > 8 {
                    0u32
                } else {
                    val
                },
                resume: CountResume::AtYield2,
            },
            CountResume::AtYield2 => {
                let v1 = if val + delta > u32::MAX {
                    u32::MAX
                } else {
                    (val + delta) as u32
                };
                ProcLocal::Count { val: (v1 + delta) as u32, resume: CountResume::AtYield1 }
            },
        },
        _ => l,
    }
}

/// One segment of the led process body: enter and count; sit out the
/// first timed wait, then run the led task (the boolean); sit out the
/// second wait, then test and reset; or saturating-count, loop around and
/// start the first wait again.
pub open spec fn led_step(l: ProcLocal, now: u32) -> (ProcLocal, bool) {
    match l {
        ProcLocal::LedWork { val, resume } => match resume {
            LedWorkResume::Start => (
                ProcLocal::LedWork {
                    val: (val + 2) as u32,
                    resume: LedWorkResume::FirstWait { ref_ts: now },
                },
                false,
            ),
            LedWorkResume::FirstWait { ref_ts } => if vstd::wrapping::u32_specs::wrapping_sub(
                now,
                ref_ts,
            ) > PROC_LED_WAIT_TIME_US {
                (
                    ProcLocal::LedWork { val, resume: LedWorkResume::SecondWait { ref_ts: now } },
                    true,
                )
            } else {
                (l, false)
            },
            LedWorkResume::SecondWait { ref_ts } => if vstd::wrapping::u32_specs::wrapping_sub(
                now,
                ref_ts,
            ) > PROC_LED_WAIT_TIME_US {
                (
                    ProcLocal::LedWork {
                        val: if val > 8 {
                            0u32
                        } else {
                            val
                        },
                        resume: LedWorkResume::AtYield,
                    },
                    false,
                )
            } else {
                (l, false)
            },
            LedWorkResume::AtYield => {
                let v1 = if val + 2 > u32::MAX {
                    u32::MAX
                } else {
                    (val + 2) as u32
                };
                (
                    ProcLocal::LedWork {
                        val: (v1 + 2) as u32,
                        resume: LedWorkResume::FirstWait { ref_ts: now },
                    },
                    false,
                )
            },
        },
        _ => (l, false),
    }
}

/// Effect a process run has outside the scheduler state: only the led
/// process, when its first wait elapses, runs the led task; every other
/// segment leaves the runtime data and the ports alone.
pub open spec fn process_io_effect(
    pid: PidT,
    l: ProcLocal,
    now: u32,
    rt0: RteData,
    rt1: RteData,
    p0: GpioPorts,
    p1: GpioPorts,
) -> bool {
    if pid is Pid01 && led_step(l, now).1 {
        let eff = ledm::ledm_task_spec(rt0.swtimer_data.timers@, rt0.ledm_data.leds@, p0);
        &&& rt1.swtimer_data.timers@ == eff.0
        &&& rt1.ledm_data.leds@ == eff.1
        &&& p1 == eff.2
    } else {
        &&& rt1 == rt0
        &&& p1 == p0
    }
}

/// Body of process zero: a counter that climbs by one between yields and
/// resets past eight.
fn proc_pid00(l: &mut ProcLocal)
    requires
        local_inv(PidT::Pid00, *old(l)),
    ensures
        *final(l) == count_step(*old(l), 1),
        local_inv(PidT::Pid00, *final(l)),
{
    match *l {
        ProcLocal::Count { val, resume } => match resume {
            CountResume::Start => {
                *l = ProcLocal::Count { val: val + 1, resume: CountResume::AtYield1 };
            },
            CountResume::AtYield1 => {
                *l = ProcLocal::Count {
                    val: if val > 8 {
                        0
                    } else {
                        val
                    },
                    resume: CountResume::AtYield2,
                };
            },
            CountResume::AtYield2 => {
                let v1 = val.saturating_add(1);
                *l = ProcLocal::Count { val: v1 + 1, resume: CountResume::AtYield1 };
            },
        },
        ProcLocal::LedWork { .. } => {
            proof {
                assert(false);
            }
        },
    }
}

/// Body of process two: as process zero, climbing by five.
fn proc_pid02(l: &mut ProcLocal)
    requires
        local_inv(PidT::Pid02, *old(l)),
    ensures
        *final(l) == count_step(*old(l), 5),
        local_inv(PidT::Pid02, *final(l)),
{
    match *l {
        ProcLocal::Count { val, resume } => match resume {
            CountResume::Start => {
                *l = ProcLocal::Count { val: val + 5, resume: CountResume::AtYield1 };
            },
            CountResume::AtYield1 => {
                *l = ProcLocal::Count {
                    val: if val > 8 {
                        0
                    } else {
                        val
                    },
                    resume: CountResume::AtYield2,
                };
            },
            CountResume::AtYield2 => {
                let v1 = val.saturating_add(5);
                *l = ProcLocal::Count { val: v1 + 5, resume: CountResume::AtYield1 };
            },
        },
        ProcLocal::LedWork { .. } => {
            proof {
                assert(false);
            }
        },
    }
}

/// Body of process one: a counter that climbs by two, paced by two timed
/// waits, and the led task between them.
fn proc_pid01(l: &mut ProcLocal, now: u32, rt: &mut RteData, ports: &mut GpioPorts)
    requires
        local_inv(PidT::Pid01, *old(l)),
        old(rt).wf(),
    ensures
        final(rt).wf(),
        *final(l) == led_step(*old(l), now).0,
        local_inv(PidT::Pid01, *final(l)),
        process_io_effect(
            PidT::Pid01,
            *old(l),
            now,
            *old(rt),
            *final(rt),
            *old(ports),
            *final(ports),
        ),
{
    match *l {
        ProcLocal::LedWork { val, resume } => match resume {
            LedWorkResume::Start => {
                *l = ProcLocal::LedWork {
                    val: val + 2,
                    resume: LedWorkResume::FirstWait { ref_ts: now },
                };
            },
            LedWorkResume::FirstWait { ref_ts } => {
                if now.wrapping_sub(ref_ts) > PROC_LED_WAIT_TIME_US {
                    ledm::ledm_task(rt, ports);
                    *l = ProcLocal::LedWork {
                        val,
                        resume: LedWorkResume::SecondWait { ref_ts: now },
                    };
                }
                // else: the wait goes on; the process yields unchanged
            },
            LedWorkResume::SecondWait { ref_ts } => {
                if now.wrapping_sub(ref_ts) > PROC_LED_WAIT_TIME_US {
                    *l = ProcLocal::LedWork {
                        val: if val > 8 {
                            0
                        } else {
                            val
                        },
                        resume: LedWorkResume::AtYield,
                    };
                }
            },
            LedWorkResume::AtYield => {
                let v1 = val.saturating_add(2);
                *l = ProcLocal::LedWork {
                    val: v1 + 2,
                    resume: LedWorkResume::FirstWait { ref_ts: now },
                };
            },
        },
        ProcLocal::Count { .. } => {
            proof {
                assert(false);
            }
        },
    }
}

/// The local state a worker holds after its next segment runs.
pub open spec fn stepped_local(s: SchedData, pid: PidT) -> ProcLocal {
    let l = s.process_table@[pid_index_spec(pid)].local;
    match pid {
        PidT::Pid00 => count_step(l, 1u32),
        PidT::Pid02 => count_step(l, 5u32),
        PidT::Pid01 => led_step(l, s.scheduler_timestamp).0,
        PidT::PidMain => l,
    }
}

/// Exact scheduler-state effect of one run/yield round trip of `pid`: the
/// worker is suspended with its local state advanced one segment and its
/// saved stack pointer intact, the main context's save slot holds the
/// caller's live stack pointer, the live stack pointer itself comes back
/// unchanged, and every other field — slot index, timestamps, stats,
/// lists, stacks — is untouched.
pub open spec fn sched_process_stepped(s0: SchedData, s1: SchedData, pid: PidT) -> bool {
    let i = pid_index_spec(pid);
    &&& s1.process_table@ == s0.process_table@.update(
        i,
        (Process {
            state: ProcState::Suspended,
            local: stepped_local(s0, pid),
            ..s0.process_table@[i]
        }),
    )
    &&& s1.main_process == (Process { stack_ptr: s0.active_sp, ..s0.main_process })
    &&& s1.active_process is PidMain
    &&& s1.active_sp == s0.active_sp
    &&& s1 == (SchedData {
        process_table: s1.process_table,
        main_process: s1.main_process,
        active_process: s1.active_process,
        ..s0
    })
}

/// Yield from the running process back to the main context: save the live
/// stack pointer into the process's slot, mark it suspended, and restore
/// the main context's saved stack pointer as the live one. On the target
/// this point is where the register set swaps back.
fn sched_yield(s: &mut SchedData)
    requires
        !(old(s).active_process is PidMain),
        old(s).process_table@.len() == 3,
    ensures
        ({
            let i = pid_index_spec(old(s).active_process);
            &&& final(s).process_table@ == old(s).process_table@.update(
                i,
                (Process {
                    stack_ptr: old(s).active_sp,
                    state: ProcState::Suspended,
                    ..old(s).process_table@[i]
                }),
            )
            &&& final(s).active_process is PidMain
            &&& final(s).active_sp == old(s).main_process.stack_ptr
            &&& *final(s) == (SchedData {
                process_table: final(s).process_table,
                active_process: final(s).active_process,
                active_sp: final(s).active_sp,
                ..*old(s)
            })
        }),
{
    let i = pid_index(s.active_process);
    let mut p = s.process_table[i];
    p.stack_ptr = s.active_sp;
    p.state = ProcState::Suspended;
    s.process_table.set(i, p);
    s.active_process = PidT::PidMain;
    s.active_sp = s.main_process.stack_ptr;
}

/// Resume a worker process from the main context and run it until its
/// next yield. The main context's register state is saved and restored
/// around the swap, so the caller observes only the process's one-segment
/// effect; the live stack pointer it gets back is the one it had.
pub fn run_process(s: &mut SchedData, rt: &mut RteData, ports: &mut GpioPorts, process_id: PidT)
    requires
        old(s).wf(),
        old(s).at_main(),
        old(rt).wf(),
        !(process_id is PidMain),
    ensures
        final(s).wf(),
        final(s).at_main(),
        final(rt).wf(),
        sched_process_stepped(*old(s), *final(s), process_id),
        process_io_effect(
            process_id,
            old(s).process_table@[pid_index_spec(process_id)].local,
            old(s).scheduler_timestamp,
            *old(rt),
            *final(rt),
            *old(ports),
            *final(ports),
        ),
{
    let i = pid_index(process_id);
    let next_process_stack_addr = s.process_table[i].stack_ptr;
    s.active_process = process_id;
    // save the main context's live stack pointer and switch to the
    // process's saved one; on the target this is the register-set swap
    s.main_process.stack_ptr = s.active_sp;
    s.active_sp = next_process_stack_addr;
    let mut p = s.process_table[i];
    p.state = ProcState::Running;
    s.process_table.set(i, p);
    // the process body runs its next segment, up to its following yield
    match process_id {
        PidT::Pid00 => {
            let mut l = p.local;
            proc_pid00(&mut l);
            let mut p2 = s.process_table[i];
            p2.local = l;
            s.process_table.set(i, p2);
        },
        PidT::Pid01 => {
            let now = s.scheduler_timestamp;
            let mut l = p.local;
            proc_pid01(&mut l, now, rt, ports);
            let mut p2 = s.process_table[i];
            p2.local = l;
            s.process_table.set(i, p2);
        },
        PidT::Pid02 => {
            let mut l = p.local;
            proc_pid02(&mut l);
            let mut p2 = s.process_table[i];
            p2.local = l;
            s.process_table.set(i, p2);
        },
        PidT::PidMain => {
            proof {
                assert(false);
            }
        },
    }
    sched_yield(s);
    proof {
        assert(s.process_table@ =~= old(s).process_table@.update(
            pid_index_spec(process_id),
            (Process {
                state: ProcState::Suspended,
                local: stepped_local(*old(s), process_id),
                ..old(s).process_table@[pid_index_spec(process_id)]
            }),
        ));
    }
}


/// The worker a list task resumes, if any.
pub open spec fn task_pid(t: TaskId) -> Option<PidT> {
    match t {
        TaskId::Ftask0 => Some(PidT::Pid00),
        TaskId::Mtask0 => Some(PidT::Pid02),
        TaskId::Ltask1 => Some(PidT::Pid01),
        _ => None,
    }
}

/// Exact effect of one list task's body on the scheduler state: a process
/// task runs its worker one segment and records the task's own runtime; a
/// plain task only records.
pub open spec fn task_body_effect(s0: SchedData, s1: SchedData, t: TaskId, counter_value: u32) -> bool {
    let ti = task_index_spec(t);
    let runtime = (counter_value - SCHED_TIME_MEASURE_OFFSET_TICKS) as u32;
    match task_pid(t) {
        Some(pid) => {
            let i = pid_index_spec(pid);
            &&& s1.process_table@ == s0.process_table@.update(
                i,
                (Process {
                    state: ProcState::Suspended,
                    local: stepped_local(s0, pid),
                    ..s0.process_table@[i]
                }),
            )
            &&& s1.main_process == (Process { stack_ptr: s0.active_sp, ..s0.main_process })
            &&& s1.active_process is PidMain
            &&& s1.tasks_max_runtime@ == s0.tasks_max_runtime@.update(
                ti,
                max_after(s0.tasks_max_runtime@[ti], runtime),
            )
            &&& s1.tasks_min_runtime@ == s0.tasks_min_runtime@.update(
                ti,
                min_after(s0.tasks_min_runtime@[ti], runtime),
            )
            &&& s1 == (SchedData {
                process_table: s1.process_table,
                main_process: s1.main_process,
                active_process: s1.active_process,
                tasks_max_runtime: s1.tasks_max_runtime,
                tasks_min_runtime: s1.tasks_min_runtime,
                ..s0
            })
        },
        None => recorded_runtime(s0, s1, ti, counter_value),
    }
}

/// Effect of one list task outside the scheduler state: only the task
/// that resumes the led worker can touch the runtime data and the ports.
pub open spec fn task_io_effect(
    s0: SchedData,
    t: TaskId,
    rt0: RteData,
    rt1: RteData,
    p0: GpioPorts,
    p1: GpioPorts,
) -> bool {
    match task_pid(t) {
        Some(pid) => process_io_effect(
            pid,
            s0.process_table@[pid_index_spec(pid)].local,
            s0.scheduler_timestamp,
            rt0,
            rt1,
            p0,
            p1,
        ),
        None => rt1 == rt0 && p1 == p0,
    }
}

/// Fast task zero: resume process zero, then record the task's own runtime.
pub fn f_task0(s: &mut SchedData, rt: &mut RteData, ports: &mut GpioPorts, counter_value: u32)
    requires
        old(s).wf(),
        old(s).at_main(),
        old(rt).wf(),
        counter_value >= SCHED_TIME_MEASURE_OFFSET_TICKS,
    ensures
        final(s).wf(),
        final(s).at_main(),
        final(rt).wf(),
        task_body_effect(*old(s), *final(s), TaskId::Ftask0, counter_value),
        task_io_effect(*old(s), TaskId::Ftask0, *old(rt), *final(rt), *old(ports), *final(ports)),
{
    run_process(s, rt, ports, PidT::Pid00);
    get_task_sched_times(s, TaskId::Ftask0, counter_value);
}

/// Fast task one: record its runtime only.
pub fn f_task1(s: &mut SchedData, counter_value: u32)
    requires
        old(s).wf(),
        counter_value >= SCHED_TIME_MEASURE_OFFSET_TICKS,
    ensures
        final(s).wf(),
        recorded_runtime(*old(s), *final(s), task_index_spec(TaskId::Ftask1), counter_value),
{
    get_task_sched_times(s, TaskId::Ftask1, counter_value);
}

/// Medium task zero: resume process two, then record the task's own runtime.
pub fn m_task0(s: &mut SchedData, rt: &mut RteData, ports: &mut GpioPorts, counter_value: u32)
    requires
        old(s).wf(),
        old(s).at_main(),
        old(rt).wf(),
        counter_value >= SCHED_TIME_MEASURE_OFFSET_TICKS,
    ensures
        final(s).wf(),
        final(s).at_main(),
        final(rt).wf(),
        task_body_effect(*old(s), *final(s), TaskId::Mtask0, counter_value),
        task_io_effect(*old(s), TaskId::Mtask0, *old(rt), *final(rt), *old(ports), *final(ports)),
{
    run_process(s, rt, ports, PidT::Pid02);
    get_task_sched_times(s, TaskId::Mtask0, counter_value);
}

/// Medium task one: record its runtime only.
pub fn m_task1(s: &mut SchedData, counter_value: u32)
    requires
        old(s).wf(),
        counter_value >= SCHED_TIME_MEASURE_OFFSET_TICKS,
    ensures
        final(s).wf(),
        recorded_runtime(*old(s), *final(s), task_index_spec(TaskId::Mtask1), counter_value),
{
    get_task_sched_times(s, TaskId::Mtask1, counter_value);
}

/// Medium task two: record its runtime only.
pub fn m_task2(s: &mut SchedData, counter_value: u32)
    requires
        old(s).wf(),
        counter_value >= SCHED_TIME_MEASURE_OFFSET_TICKS,
    ensures
        final(s).wf(),
        recorded_runtime(*old(s), *final(s), task_index_spec(TaskId::Mtask2), counter_value),
{
    get_task_sched_times(s, TaskId::Mtask2, counter_value);
}

/// Medium task three: record its runtime only.
pub fn m_task3(s: &mut SchedData, counter_value: u32)
    requires
        old(s).wf(),
        counter_value >= SCHED_TIME_MEASURE_OFFSET_TICKS,
    ensures
        final(s).wf(),
        recorded_runtime(*old(s), *final(s), task_index_spec(TaskId::Mtask3), counter_value),
{
    get_task_sched_times(s, TaskId::Mtask3, counter_value);
}

/// Medium task four: record its runtime only.
pub fn m_task4(s: &mut SchedData, counter_value: u32)
    requires
        old(s).wf(),
        counter_value >= SCHED_TIME_MEASURE_OFFSET_TICKS,
    ensures
        final(s).wf(),
        recorded_runtime(*old(s), *final(s), task_index_spec(TaskId::Mtask4), counter_value),
{
    get_task_sched_times(s, TaskId::Mtask4, counter_value);
}

/// Low task zero: record its runtime only.
pub fn l_task0(s: &mut SchedData, counter_value: u32)
    requires
        old(s).wf(),
        counter_value >= SCHED_TIME_MEASURE_OFFSET_TICKS,
    ensures
        final(s).wf(),
        recorded_runtime(*old(s), *final(s), task_index_spec(TaskId::Ltask0), counter_value),
{
    get_task_sched_times(s, TaskId::Ltask0, counter_value);
}

/// Low task one: resume the led process, then record the task's own runtime.
pub fn l_task1(s: &mut SchedData, rt: &mut RteData, ports: &mut GpioPorts, counter_value: u32)
    requires
        old(s).wf(),
        old(s).at_main(),
        old(rt).wf(),
        counter_value >= SCHED_TIME_MEASURE_OFFSET_TICKS,
    ensures
        final(s).wf(),
        final(s).at_main(),
        final(rt).wf(),
        task_body_effect(*old(s), *final(s), TaskId::Ltask1, counter_value),
        task_io_effect(*old(s), TaskId::Ltask1, *old(rt), *final(rt), *old(ports), *final(ports)),
{
    run_process(s, rt, ports, PidT::Pid01);
    get_task_sched_times(s, TaskId::Ltask1, counter_value);
}

/// Low task two: record its runtime only.
pub fn l_task2(s: &mut SchedData, counter_value: u32)
    requires
        old(s).wf(),
        counter_value >= SCHED_TIME_MEASURE_OFFSET_TICKS,
    ensures
        final(s).wf(),
        recorded_runtime(*old(s), *final(s), task_index_spec(TaskId::Ltask2), counter_value),
{
    get_task_sched_times(s, TaskId::Ltask2, counter_value);
}

/// Low task three: record its runtime only.
pub fn l_task3(s: &mut SchedData, counter_value: u32)
    requires
        old(s).wf(),
        counter_value >= SCHED_TIME_MEASURE_OFFSET_TICKS,
    ensures
        final(s).wf(),
        recorded_runtime(*old(s), *final(s), task_index_spec(TaskId::Ltask3), counter_value),
{
    get_task_sched_times(s, TaskId::Ltask3, counter_value);
}

/// Low task four: record its runtime only.
pub fn l_task4(s: &mut SchedData, counter_value: u32)
    requires
        old(s).wf(),
        counter_value >= SCHED_TIME_MEASURE_OFFSET_TICKS,
    ensures
        final(s).wf(),
        recorded_runtime(*old(s), *final(s), task_index_spec(TaskId::Ltask4), counter_value),
{
    get_task_sched_times(s, TaskId::Ltask4, counter_value);
}

/// Low task five: record its runtime only.
pub fn l_task5(s: &mut SchedData, counter_value: u32)
    requires
        old(s).wf(),
        counter_value >= SCHED_TIME_MEASURE_OFFSET_TICKS,
    ensures
        final(s).wf(),
        recorded_runtime(*old(s), *final(s), task_index_spec(TaskId::Ltask5), counter_value),
{
    get_task_sched_times(s, TaskId::Ltask5, counter_value);
}

/// Low task six: record its runtime only.
pub fn l_task6(s: &mut SchedData, counter_value: u32)
    requires
        old(s).wf(),
        counter_value >= SCHED_TIME_MEASURE_OFFSET_TICKS,
    ensures
        final(s).wf(),
        recorded_runtime(*old(s), *final(s), task_index_spec(TaskId::Ltask6), counter_value),
{
    get_task_sched_times(s, TaskId::Ltask6, counter_value);
}

/// Low task seven: record its runtime only.
pub fn l_task7(s: &mut SchedData, counter_value: u32)
    requires
        old(s).wf(),
        counter_value >= SCHED_TIME_MEASURE_OFFSET_TICKS,
    ensures
        final(s).wf(),
        recorded_runtime(*old(s), *final(s), task_index_spec(TaskId::Ltask7), counter_value),
{
    get_task_sched_times(s, TaskId::Ltask7, counter_value);
}

/// Low task eight: record its runtime only.
pub fn l_task8(s: &mut SchedData, counter_value: u32)
    requires
        old(s).wf(),
        counter_value >= SCHED_TIME_MEASURE_OFFSET_TICKS,
    ensures
        final(s).wf(),
        recorded_runtime(*old(s), *final(s), task_index_spec(TaskId::Ltask8), counter_value),
{
    get_task_sched_times(s, TaskId::Ltask8, counter_value);
}

/// Low task nine: record its runtime only.
pub fn l_task9(s: &mut SchedData, counter_value: u32)
    requires
        old(s).wf(),
        counter_value >= SCHED_TIME_MEASURE_OFFSET_TICKS,
    ensures
        final(s).wf(),
        recorded_runtime(*old(s), *final(s), task_index_spec(TaskId::Ltask9), counter_value),
{
    get_task_sched_times(s, TaskId::Ltask9, counter_value);
}

/// One complete scheduler slot, the computational body of the scheduler
/// loop: run the urgent task, run the task the slot index selects, record
/// that task's runtime from the caller's counter reading, and advance the
/// slot index. Returns the task that ran.
///
/// The caller paces the slot against the hardware counter: it busy-waits
/// for the slot-start reference, resets the counter, pads the urgent task
/// out to its budget, reads the counter when the task returns (the
/// `counter_value` handed in here), and pads the slot with a fixed filler
/// delay when the hardware flags an overrun — an extension point for a
/// fault-reporting facility. Those waits touch no scheduler state.
pub fn run_slot(s: &mut SchedData, rt: &mut RteData, ports: &mut GpioPorts, counter_value: u32) -> (executed: TaskId)
    requires
        old(s).wf(),
        old(s).at_main(),
        old(rt).wf(),
        old(s).scheduler_extended_timestamp <= u64::MAX - TIMESTAMP_WRAP_SPAN,
        counter_value >= SCHED_TIME_MEASURE_OFFSET_TICKS,
    ensures
        final(s).wf(),
        final(s).at_main(),
        final(rt).wf(),
        executed == old(s).task_list@[old(s).task_idx as int],
        final(s).task_list@ == old(s).task_list@,
        final(s).scheduler_timestamp == ts_after_spec(
            old(s).scheduler_timestamp,
            old(s).timeslot_time_us,
        ),
        final(s).scheduler_extended_timestamp == ext_after_spec(
            old(s).scheduler_timestamp,
            old(s).scheduler_extended_timestamp,
            old(s).timeslot_time_us,
        ),
        ({
            let s1 = SchedData {
                scheduler_timestamp: ts_after_spec(
                    old(s).scheduler_timestamp,
                    old(s).timeslot_time_us,
                ),
                scheduler_extended_timestamp: ext_after_spec(
                    old(s).scheduler_timestamp,
                    old(s).scheduler_extended_timestamp,
                    old(s).timeslot_time_us,
                ),
                ..*old(s)
            };
            let s2 = SchedData { task_idx: old(s).task_idx, ..*final(s) };
            &&& task_body_effect(s1, s2, executed, counter_value)
            &&& task_io_effect(s1, executed, *old(rt), *final(rt), *old(ports), *final(ports))
        }),
        final(s).task_idx as int == idx_after_advance(
            old(s).task_idx as int,
            old(s).task_list@.len() as int,
        ),
{
    u_task0(s);
    let idx = s.task_idx as usize;
    let t = s.task_list[idx];
    match t {
        TaskId::Ftask0 => f_task0(s, rt, ports, counter_value),
        TaskId::Ftask1 => f_task1(s, counter_value),
        TaskId::Mtask0 => m_task0(s, rt, ports, counter_value),
        TaskId::Mtask1 => m_task1(s, counter_value),
        TaskId::Mtask2 => m_task2(s, counter_value),
        TaskId::Mtask3 => m_task3(s, counter_value),
        TaskId::Mtask4 => m_task4(s, counter_value),
        TaskId::Ltask0 => l_task0(s, counter_value),
        TaskId::Ltask1 => l_task1(s, rt, ports, counter_value),
        TaskId::Ltask2 => l_task2(s, counter_value),
        TaskId::Ltask3 => l_task3(s, counter_value),
        TaskId::Ltask4 => l_task4(s, counter_value),
        TaskId::Ltask5 => l_task5(s, counter_value),
        TaskId::Ltask6 => l_task6(s, counter_value),
        TaskId::Ltask7 => l_task7(s, counter_value),
        TaskId::Ltask8 => l_task8(s, counter_value),
        TaskId::Ltask9 => l_task9(s, counter_value),
    }
    s.advance_slot();
    t
}

/// The slot index after `n` advances from a fresh scheduler.
pub open spec fn idx_after_n(n: nat, len: int) -> int
    decreases n,
{
    if n == 0 {
        0
    } else {
        idx_after_advance(idx_after_n((n - 1) as nat, len), len)
    }
}

/// Law: wraparound correctness of the slot index. Starting from slot
/// zero, after `n` advances the active slot index is `n` modulo the list
/// length — for the default build, `n` modulo forty.
pub proof fn lemma_slot_index_wraparound(n: nat, len: int)
    requires
        len >= 1,
    ensures
        idx_after_n(n, len) == (n as int) % len,
    decreases n,
{
    if n == 0 {
    } else {
        lemma_slot_index_wraparound((n - 1) as nat, len);
        lemma_fundamental_div_mod(n as int - 1, len);
        let q = (n - 1) as int / len;
        let r = (n - 1) as int % len;
        assert(q * len == len * q) by (nonlinear_arith);
        if r + 1 < len {
            lemma_fundamental_div_mod_converse(n as int, len, q, r + 1);
        } else {
            assert((q + 1) * len == q * len + len) by (nonlinear_arith);
            lemma_fundamental_div_mod_converse(n as int, len, q + 1, 0);
        }
    }
}

/// The running maximum after a whole sequence of observations.
pub open spec fn max_after_all(cur: u32, runtimes: Seq<u32>) -> u32
    decreases runtimes.len(),
{
    if runtimes.len() == 0 {
        cur
    } else {
        max_after(max_after_all(cur, runtimes.drop_last()), runtimes.last())
    }
}

/// The running minimum after a whole sequence of observations.
pub open spec fn min_after_all(cur: u32, runtimes: Seq<u32>) -> u32
    decreases runtimes.len(),
{
    if runtimes.len() == 0 {
        cur
    } else {
        min_after(min_after_all(cur, runtimes.drop_last()), runtimes.last())
    }
}

/// Law: monotonic bound tracking. Across any sequence of recorded
/// runtimes the running maximum never decreases and the running minimum
/// never increases.
pub proof fn lemma_runtime_bounds_monotonic(cur_max: u32, cur_min: u32, runtimes: Seq<u32>)
    ensures
        max_after_all(cur_max, runtimes) >= cur_max,
        min_after_all(cur_min, runtimes) <= cur_min,
    decreases runtimes.len(),
{
    if runtimes.len() > 0 {
        lemma_runtime_bounds_monotonic(cur_max, cur_min, runtimes.drop_last());
    }
}

/// Law: timestamp overflow. One urgent-task pass adds exactly one wrap
/// span to the extended timestamp when the 32-bit addition overflows and
/// nothing otherwise, and the extended pair always advances by exactly
/// the slot period.
pub proof fn lemma_timestamp_overflow(ts: u32, ext: u64, period: u32)
    requires
        ext <= u64::MAX - TIMESTAMP_WRAP_SPAN,
    ensures
        ts + period > u32::MAX ==> ext_after_spec(ts, ext, period) == ext + TIMESTAMP_WRAP_SPAN,
        ts + period <= u32::MAX ==> ext_after_spec(ts, ext, period) == ext,
        ext_after_spec(ts, ext, period) + ts_after_spec(ts, period) == ext + ts + period,
{
}

/// Law: context-switch round trip at the saved-state level. Running a
/// counting worker twice composes its segment function with itself: the
/// state saved at the first yield stays well formed, and the second run
/// reads exactly the counter value the first run saved — nothing is lost
/// across the suspension. (That the scheduler's own context comes back
/// untouched is part of `run_process`'s postcondition.)
pub proof fn lemma_context_round_trip(l: ProcLocal, pid: PidT)
    requires
        pid is Pid00 || pid is Pid02,
        local_inv(pid, l),
    ensures
        ({
            let d = proc_delta(pid);
            let l1 = count_step(l, d);
            let l2 = count_step(l1, d);
            &&& local_inv(pid, l1)
            &&& local_inv(pid, l2)
            &&& (l1 is Count && l1->Count_resume is AtYield1 ==> l2 == ProcLocal::Count {
                val: if l1->Count_val > 8 {
                    0u32
                } else {
                    l1->Count_val
                },
                resume: CountResume::AtYield2,
            })
        }),
{
}


} // verus!
