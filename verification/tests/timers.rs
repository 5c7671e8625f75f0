//! Timer behaviour over a simulated nanosecond timeline, stepped in
//! 0.1 ms increments.

use plc_runtime::pls_std::Tof;
use plc_runtime::pls_std::Ton;
use plc_runtime::pls_std::Tp;

const STEP: u64 = 100_000; // 0.1 ms
const MS: u64 = 1_000_000;

#[test]
fn test_ton() {
    let duration: u64 = 20 * MS;
    let mut timer = Ton::new(duration);

    let mut result: [u64; 2] = [0, 0];

    let mut now: u64 = 0;
    let mut helper = true;

    loop {
        timer.run(true, now);

        if timer.get_q() && helper {
            result[0] = now;
            helper = false;
        }

        if now > duration * 3 {
            timer.run(false, now);
            break;
        }
        now += STEP;
    }

    helper = true;

    let base = now;

    loop {
        timer.run(helper, now);

        if timer.get_q() && helper {
            result[1] = now - base;
        }

        if now - base > 19 * MS {
            helper = false;
        }

        if now - base > duration * 3 {
            break;
        }
        now += STEP;
    }

    assert_eq!([result[0] / MS, result[1] / MS], [duration / MS, 0]);
}

#[test]
fn test_tof() {
    let duration: u64 = 20 * MS;
    let mut timer = Tof::new(duration);

    let mut result: [u64; 2] = [0, 0];

    let mut helper = true;

    let mut now: u64 = 0;

    loop {
        timer.run(helper, now);

        if now > 10 * MS {
            helper = false;
        }

        if !timer.get_q() {
            result[0] = now;
            break;
        }
        now += STEP;
    }

    let base = now;
    helper = false;

    loop {
        timer.run(helper, now);

        if now - base > 5 * MS && now - base < 15 * MS {
            helper = true;
        } else if now - base > 30 * MS && now - base < 45 * MS {
            helper = true;
        } else {
            helper = false;
        }

        if !timer.get_q() && (now - base) / MS > 6 {
            result[1] = now - base;
            break;
        }
        now += STEP;
    }

    assert_eq!([result[0] / MS, result[1] / MS], [30, 65])
}

#[test]
fn tp_pulse_ignores_edges_while_running() {
    let duration: u64 = 20 * MS;
    let mut timer = Tp::new(duration);

    // A rising edge starts a pulse of exactly `duration`, further edges
    // inside the pulse are ignored, and the timer re-arms only once the
    // input has been low with the pulse over.
    let mut q_trace: Vec<bool> = Vec::new();
    let inputs = [
        (0u64, true),
        (5 * MS, false),
        (10 * MS, true), // edge inside the pulse: ignored
        (19 * MS, true),
        (20 * MS, true), // pulse over, but input held high: no restart
        (25 * MS, false),
        (30 * MS, true), // fresh edge: new pulse
        (49 * MS, true),
        (50 * MS, true),
    ];
    for (now, in1) in inputs {
        timer.run(in1, now);
        q_trace.push(timer.get_q());
    }

    assert_eq!(
        q_trace,
        vec![true, true, true, true, false, false, true, true, false]
    );
    assert_eq!(timer.get_et(), duration);
}
