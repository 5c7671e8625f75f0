//! Scheduler scenarios: cycle and edge activation, priority order, pool
//! bookkeeping, background rotation, and timeout reporting.

use plc_runtime::clock::clock_now_ns;
use plc_runtime::task::task_errors::PlcError;
use plc_runtime::task::MutProgram;
use plc_runtime::task::Task;
use plc_runtime::Plc;
use rmodbus::server::context::ModbusContext;

const MS: u64 = 1_000_000;

/// A program driven by a closure-free table: what it does is picked by a
/// tag, and every step is counted in holding register 99 and logged as
/// its tag in the registers after 100.
enum Prog {
    /// Write `1..=10` into holdings `0..10`.
    FillHoldings,
    /// Multiply holdings `0..10` by 3.
    TripleHoldings,
    /// Record the given tag in the step log.
    Tag(u16),
    /// Fail with a program error.
    Fail,
}

impl MutProgram for Prog {
    fn run(&mut self, context: &mut ModbusContext) -> Result<(), PlcError> {
        match self {
            Prog::FillHoldings => {
                for i in 0..10u16 {
                    context.set_holding(i, i + 1).unwrap();
                }
                Ok(())
            },
            Prog::TripleHoldings => {
                for i in 0..10u16 {
                    let v = context.get_holding(i).unwrap();
                    context.set_holding(i, v * 3).unwrap();
                }
                Ok(())
            },
            Prog::Tag(tag) => {
                let count = context.get_holding(99).unwrap();
                context.set_holding(100 + count, *tag).unwrap();
                context.set_holding(99, count + 1).unwrap();
                Ok(())
            },
            Prog::Fail => Err(PlcError::Program(String::from("step failed"))),
        }
    }
}

fn step_log(plc: &Plc<Prog>) -> Vec<u16> {
    let count = plc.context.get_holding(99).unwrap();
    (0..count).map(|i| plc.context.get_holding(100 + i).unwrap()).collect()
}

/// S-scenario: one cycle task, two programs; after one full activation
/// the holdings read `[3, 6, ..., 30]`.
#[test]
fn cycle_task_runs_programs_in_order() {
    let t0 = clock_now_ns();
    let task = Task::new_cycle(
        "fill_then_triple",
        vec![Prog::FillHoldings, Prog::TripleHoldings],
        1,
        50 * MS,
        t0,
    );
    let mut plc = Plc::new(vec![task]);

    // Not ready before the period has elapsed: nothing runs.
    let errs = plc.run_iteration(t0 + 10 * MS);
    assert!(errs.is_empty());
    assert_eq!(plc.context.get_holding(0).unwrap(), 0);

    // First iteration after the period: program A.
    let errs = plc.run_iteration(t0 + 50 * MS + 1);
    assert!(errs.is_empty());
    assert_eq!(plc.context.get_holding(0).unwrap(), 1);
    assert_eq!(plc.call_stack.len(), 1);

    // Second iteration: program B completes the activation.
    let errs = plc.run_iteration(t0 + 50 * MS + 2);
    assert!(errs.is_empty());
    let holdings: Vec<u16> = (0..10).map(|i| plc.context.get_holding(i).unwrap()).collect();
    assert_eq!(holdings, vec![3, 6, 9, 12, 15, 18, 21, 24, 27, 30]);
    assert_eq!(plc.call_stack.len(), 0);
    assert_eq!(plc.event_pool.len(), 1);
}

/// S-scenario: a zero-period cycle task reports a timeout with its name
/// and period when its activation completes.
#[test]
fn zero_period_cycle_reports_timeout() {
    let t0 = clock_now_ns();
    let task = Task::new_cycle("test_task", vec![Prog::Tag(7)], 1, 0, t0);
    let mut plc = Plc::new(vec![task]);

    let errs = plc.run_iteration(t0);
    assert_eq!(errs.len(), 1);
    assert_eq!(errs[0].task, Some("test_task"));
    match &errs[0].error {
        PlcError::Timeout(te) => {
            assert_eq!(te.name, "test_task");
            assert_eq!(te.set_time, 0);
            assert!(te.time_left > 0);
        },
        other => panic!("expected a timeout, got {:?}", other),
    }
    // The program itself did run.
    assert_eq!(step_log(&plc), vec![7]);
    // The task went back to its pool with its cursor reset.
    assert_eq!(plc.event_pool.len(), 1);
    assert_eq!(plc.event_pool[0].next_program, 0);
}

/// Law scenario: an edge task activates exactly once per false-to-true
/// transition of its coil, however long the coil stays high.
#[test]
fn edge_task_fires_once_per_rising_edge() {
    let t0 = clock_now_ns();
    let task = Task::new_coli_bit("edge", vec![Prog::Tag(1)], 1, 5);
    let mut plc = Plc::new(vec![task]);

    let pattern = [false, true, true, true, false, false, true, true];
    let mut now = t0;
    for bit in pattern {
        plc.context.set_coil(5, bit).unwrap();
        now += MS;
        let errs = plc.run_iteration(now);
        assert!(errs.is_empty());
    }

    assert_eq!(step_log(&plc), vec![1, 1]);
}

/// Law scenario: of two tasks made ready by the same tick, the one with
/// the lower priority number steps first; within one iteration exactly
/// one program step runs.
#[test]
fn priority_three_steps_before_priority_seven() {
    let t0 = clock_now_ns();
    let a = Task::new_coli_bit("a", vec![Prog::Tag(3)], 3, 5);
    let b = Task::new_coli_bit("b", vec![Prog::Tag(7)], 7, 5);
    let mut plc = Plc::new(vec![b, a]);

    plc.context.set_coil(5, true).unwrap();
    let errs = plc.run_iteration(t0);
    assert!(errs.is_empty());
    // One iteration, one step: only A has run.
    assert_eq!(step_log(&plc), vec![3]);

    let errs = plc.run_iteration(t0 + MS);
    assert!(errs.is_empty());
    assert_eq!(step_log(&plc), vec![3, 7]);
}

/// Law scenario: with no event task ever ready, the background tasks are
/// dispatched in priority order, each in its own iteration — none
/// starves.
#[test]
fn background_tasks_rotate_without_starvation() {
    let t0 = clock_now_ns();
    let tasks = vec![
        Task::new_background("bg2", vec![Prog::Tag(2)], 2),
        Task::new_background("bg1", vec![Prog::Tag(1)], 1),
        Task::new_background("bg3", vec![Prog::Tag(3)], 3),
    ];
    let mut plc = Plc::new(tasks);
    assert_eq!(plc.background_pool.len(), 3);
    assert_eq!(plc.background_pool[0].name, "bg1");

    for k in 0..6 {
        let errs = plc.run_iteration(t0 + k * MS);
        assert!(errs.is_empty());
    }

    // Two full rounds, lowest priority number first each round.
    assert_eq!(step_log(&plc), vec![1, 2, 3, 1, 2, 3]);
}

/// Law scenario: every task stays in exactly one pool, across ready,
/// busy and failing iterations.
#[test]
fn tasks_never_leave_the_three_pools() {
    let t0 = clock_now_ns();
    let tasks = vec![
        Task::new_cycle("cycle", vec![Prog::Tag(1), Prog::Tag(2)], 1, 5 * MS, t0),
        Task::new_coli_bit("edge", vec![Prog::Fail], 2, 5),
        Task::new_background("bg", vec![Prog::Tag(9)], 3),
    ];
    let mut plc = Plc::new(tasks);

    let mut now = t0;
    for k in 0..10 {
        plc.context.set_coil(5, k % 2 == 0).unwrap();
        now += 3 * MS;
        plc.run_iteration(now);
        let total = plc.event_pool.len() + plc.background_pool.len() + plc.call_stack.len();
        assert_eq!(total, 3);
    }
}

/// A failing program step surfaces its error, and the task returns to
/// its pool with the cursor reset.
#[test]
fn failing_step_resets_the_activation() {
    let t0 = clock_now_ns();
    let task = Task::new_cycle("bad", vec![Prog::Tag(1), Prog::Fail], 1, 5 * MS, t0);
    let mut plc = Plc::new(vec![task]);

    let errs = plc.run_iteration(t0 + 5 * MS + 1);
    assert!(errs.is_empty());
    let errs = plc.run_iteration(t0 + 5 * MS + 2);
    assert_eq!(errs.len(), 1);
    assert!(matches!(errs[0].error, PlcError::Program(_)));
    assert_eq!(errs[0].task, Some("bad"));
    assert_eq!(plc.event_pool.len(), 1);
    assert_eq!(plc.event_pool[0].next_program, 0);
    assert_eq!(plc.call_stack.len(), 0);
}

/// A task with an empty program list fails its activation with the
/// shape error.
#[test]
fn empty_program_list_is_a_shape_error() {
    let t0 = clock_now_ns();
    let task: Task<Prog> = Task::new_cycle("empty", vec![], 1, 0, t0);
    let mut plc = Plc::new(vec![task]);

    let errs = plc.run_iteration(t0);
    assert_eq!(errs.len(), 1);
    assert!(matches!(errs[0].error, PlcError::Shape));
}

/// An edge task watching an address outside the register tables reports
/// a register error and is skipped; the tick goes on.
#[test]
fn out_of_range_edge_address_reports_register_error() {
    let t0 = clock_now_ns();
    let tasks = vec![
        Task::new_coli_bit("oob", vec![Prog::Tag(1)], 1, 60000),
        Task::new_background("bg", vec![Prog::Tag(9)], 1),
    ];
    let mut plc = Plc::new(tasks);

    let errs = plc.run_iteration(t0);
    assert_eq!(errs.len(), 1);
    assert!(matches!(errs[0].error, PlcError::Register(_)));
    assert_eq!(errs[0].task, None);
    // The failing task was skipped, so the background task ran.
    assert_eq!(step_log(&plc), vec![9]);
    assert_eq!(plc.event_pool.len(), 1);
}

/// Law scenario: completing a cycle activation later than its period
/// reports the overrun exactly, measured from the recorded start to the
/// completion instant; completing within the period reports nothing.
#[test]
fn completion_after_the_period_reports_the_overrun() {
    let mut on_time: Task<Prog> =
        Task::new_cycle("slow", vec![Prog::Tag(1)], 1, 10 * MS, 100 * MS);
    assert!(on_time.before_complit(105 * MS).is_ok());

    let mut late: Task<Prog> = Task::new_cycle("slow", vec![Prog::Tag(1)], 1, 10 * MS, 100 * MS);
    match late.before_complit(150 * MS) {
        Err(PlcError::Timeout(te)) => {
            assert_eq!(te.name, "slow");
            assert_eq!(te.set_time, 10 * MS);
            assert_eq!(te.time_left, 50 * MS);
        },
        _ => panic!("an overrun is due"),
    }
}
