//! The Modbus side of the runtime: the shared register context consumed by
//! programs, and the master action engine driving remote I/O.

pub mod actions;
pub mod context;
pub mod error;
pub mod master;
pub mod slave;
pub mod timeout;
