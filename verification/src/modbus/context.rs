//! The shared Modbus register context, taken from the `rmodbus` crate.
//!
//! `rmodbus`'s `ModbusContext` is a plain struct of four public register
//! tables, so it is declared transparently and contracts speak of the
//! tables themselves.  The accessors the runtime calls are trusted with
//! the behaviour their source shows: a bounds check against
//! `CONTEXT_SIZE`, then a plain array access.

use vstd::prelude::*;

use rmodbus::server::context::ModbusContext;
use rmodbus::ErrorKind;
use rmodbus::ModbusProto;

verus! {

/// Number of registers in each table of `ModbusContext` (`rmodbus`'s
/// default `fullcontext` build).
pub const CONTEXT_SIZE: usize = 10000;

#[verifier::external_type_specification]
pub struct ExModbusContext(ModbusContext);

#[verifier::external_type_specification]
pub struct ExErrorKind(ErrorKind);

#[verifier::external_type_specification]
pub struct ExModbusProto(ModbusProto);

/// Relies on rmodbus `ModbusContext::new`: every register table starts
/// zeroed.
pub assume_specification[ ModbusContext::new ]() -> (r: ModbusContext)
    ensures
        r.coils@ =~= Seq::new(CONTEXT_SIZE as nat, |i: int| false),
        r.discretes@ =~= Seq::new(CONTEXT_SIZE as nat, |i: int| false),
        r.inputs@ =~= Seq::new(CONTEXT_SIZE as nat, |i: int| 0u16),
        r.holdings@ =~= Seq::new(CONTEXT_SIZE as nat, |i: int| 0u16),
;

/// Relies on rmodbus `ModbusContext::get_coil`: bounds check against
/// `CONTEXT_SIZE`, then a read of the coil table.
pub assume_specification[ ModbusContext::get_coil ](ctx: &ModbusContext, reg: u16) -> (r: Result<
    bool,
    ErrorKind,
>)
    ensures
        r is Ok <==> (reg as int) < CONTEXT_SIZE,
        r is Ok ==> r->Ok_0 == ctx.coils@[reg as int],
        r is Err ==> r->Err_0 == ErrorKind::OOBContext,
;

/// Relies on rmodbus `ModbusContext::get_discrete`: bounds check against
/// `CONTEXT_SIZE`, then a read of the discrete-input table.
pub assume_specification[ ModbusContext::get_discrete ](ctx: &ModbusContext, reg: u16) -> (r:
    Result<bool, ErrorKind>)
    ensures
        r is Ok <==> (reg as int) < CONTEXT_SIZE,
        r is Ok ==> r->Ok_0 == ctx.discretes@[reg as int],
        r is Err ==> r->Err_0 == ErrorKind::OOBContext,
;

} // verus!
