//! The error taxonomy of the task layer.

use vstd::prelude::*;

use crate::modbus::error::ModbusErr;
use rmodbus::ErrorKind;

verus! {

/// A cycle task finished an activation later than its period allows.
/// `time_left` is the time the activation actually took, `set_time` the
/// configured period, both in nanoseconds.
#[derive(Clone, Copy, Debug)]
pub struct TaskTimeOutError {
    pub time_left: u64,
    pub name: &'static str,
    pub set_time: u64,
}

impl TaskTimeOutError {
    pub fn new(time_left: u64, name: &'static str, set_time: u64) -> (r: Self)
        ensures
            r == (TaskTimeOutError { time_left, name, set_time }),
    {
        Self { time_left, name, set_time }
    }
}

/// Everything a task or program step can fail with.
///
/// `Register` is an out-of-range register access, `Modbus` a transport or
/// codec failure from a master or slave program, `Timeout` a cycle
/// overrun, `Shape` a misconfigured task (empty program list or a cursor
/// past it), and `Program` any other failure of user logic.
#[derive(Debug)]
pub enum PlcError {
    Register(ErrorKind),
    Modbus(ModbusErr),
    Timeout(TaskTimeOutError),
    Shape,
    Program(String),
}

/// An error as one scheduler iteration reports it: the failure and,
/// when it came from a task's program step, that task's name — so the
/// log can carry the name, as a readiness-poll failure cannot.
#[derive(Debug)]
pub struct ReportedError {
    pub task: Option<&'static str>,
    pub error: PlcError,
}

} // verus!
