//! A soft-real-time runtime for a programmable logic controller.
//!
//! User *programs* are grouped into *tasks*; a cooperative, priority-ordered
//! scheduler dispatches one program step at a time against a shared Modbus
//! register context.  Times are plain nanosecond counts so that the
//! scheduling rules are stated and proved as ordinary arithmetic.

pub mod clock;
pub mod config;
pub mod modbus;
pub mod plc;
pub mod pls_std;
pub mod task;

pub use plc::Plc;
