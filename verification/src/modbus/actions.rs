//! Declarative Modbus-master actions: one remote operation bound to a
//! trigger, with a handler that moves the payload between the wire and
//! the local register context.

use vstd::prelude::*;

use crate::modbus::context::CONTEXT_SIZE;
use crate::modbus::error::ModbusErr;
use crate::pls_std::timers::spec_elapsed;
use rmodbus::server::context::ModbusContext;
use rmodbus::ErrorKind;

verus! {

/// The trigger of an action.
///
/// * `Cycle(period, last)` — fires every `period` nanoseconds; firing
///   records the tick time in `last`.
/// * `FrontColi(addr, last_sample)` — fires on a rising edge of a local
///   coil; every evaluation records the sample.
/// * `FrontDiscrete(addr, last_sample)` — the same on a local discrete
///   input.
#[derive(Clone, Copy, Debug)]
pub enum TypeAction {
    Cycle(u64, u64),
    FrontColi(u16, bool),
    FrontDiscrete(u16, bool),
}

/// An evaluation of the trigger succeeds: an edge trigger must watch an
/// address inside the register tables.
pub open spec fn trigger_poll_ok(t: TypeAction) -> bool {
    match t {
        TypeAction::Cycle(_, _) => true,
        TypeAction::FrontColi(addr, _) => (addr as int) < (CONTEXT_SIZE as int),
        TypeAction::FrontDiscrete(addr, _) => (addr as int) < (CONTEXT_SIZE as int),
    }
}

/// Whether one evaluation of the trigger fires.
pub open spec fn trigger_fires(
    t: TypeAction,
    coils: Seq<bool>,
    discretes: Seq<bool>,
    now: u64,
) -> bool {
    match t {
        TypeAction::Cycle(period, last) => period <= spec_elapsed(last, now),
        TypeAction::FrontColi(addr, last) => coils[addr as int] && !last,
        TypeAction::FrontDiscrete(addr, last) => discretes[addr as int] && !last,
    }
}

/// The trigger after one evaluation: a cycle records the tick time when
/// it fires, an edge trigger always records the sample it read.
pub open spec fn trigger_polled(
    t: TypeAction,
    coils: Seq<bool>,
    discretes: Seq<bool>,
    now: u64,
) -> TypeAction {
    match t {
        TypeAction::Cycle(period, last) => if period <= spec_elapsed(last, now) {
            TypeAction::Cycle(period, now)
        } else {
            t
        },
        TypeAction::FrontColi(addr, _) => TypeAction::FrontColi(addr, coils[addr as int]),
        TypeAction::FrontDiscrete(addr, _) => TypeAction::FrontDiscrete(
            addr,
            discretes[addr as int],
        ),
    }
}

impl TypeAction {
    /// One evaluation of the trigger.  A cycle fires when its period has
    /// elapsed and then restarts its measurement; an edge trigger reads
    /// its local bit, fires on a rising edge, and always keeps the sample
    /// for the next evaluation.
    pub fn need_run(&mut self, context: &ModbusContext, now_ns: u64) -> (r: Result<
        bool,
        ModbusErr,
    >)
        ensures
            r is Ok <==> trigger_poll_ok(*old(self)),
            r is Ok ==> *final(self) == trigger_polled(
                *old(self),
                context.coils@,
                context.discretes@,
                now_ns,
            ),
            r is Ok ==> r->Ok_0 == trigger_fires(
                *old(self),
                context.coils@,
                context.discretes@,
                now_ns,
            ),
            r is Err ==> *final(self) == *old(self) && r->Err_0 == ModbusErr::Rmodbus(
                ErrorKind::OOBContext,
            ),
    {
        match self {
            TypeAction::Cycle(period, last) => {
                let elapsed: u64 = if now_ns >= *last {
                    now_ns - *last
                } else {
                    0
                };
                if *period <= elapsed {
                    *last = now_ns;
                    Ok(true)
                } else {
                    Ok(false)
                }
            },
            TypeAction::FrontColi(addr, last) => {
                let bit = match context.get_coil(*addr) {
                    Ok(b) => b,
                    Err(e) => {
                        return Err(ModbusErr::Rmodbus(e));
                    },
                };
                let fired = bit && !*last;
                *last = bit;
                Ok(fired)
            },
            TypeAction::FrontDiscrete(addr, last) => {
                let bit = match context.get_discrete(*addr) {
                    Ok(b) => b,
                    Err(e) => {
                        return Err(ModbusErr::Rmodbus(e));
                    },
                };
                let fired = bit && !*last;
                *last = bit;
                Ok(fired)
            },
        }
    }
}

/// The callback of an action.  Read actions deposit the payload that
/// came off the wire into the local context; write actions harvest the
/// payload to send.  An implementation overrides the methods its actions
/// use.
pub trait ActionHandler {
    /// Deposit bits read from the remote peer (coils or discretes).
    fn on_bits(&mut self, context: &mut ModbusContext, data: &Vec<bool>);

    /// Deposit words read from the remote peer (holdings or inputs).
    fn on_words(&mut self, context: &mut ModbusContext, data: &Vec<u16>);

    /// The bit to send with a single-coil write.
    fn get_bit(&mut self, context: &mut ModbusContext) -> bool;

    /// The bits to send with a bulk coil write.
    fn get_bits(&mut self, context: &mut ModbusContext) -> Vec<bool>;

    /// The word to send with a single-holding write.
    fn get_word(&mut self, context: &mut ModbusContext) -> u16;

    /// The words to send with a bulk holding write.
    fn get_words(&mut self, context: &mut ModbusContext) -> Vec<u16>;
}

/// The data every action carries: the register window on the remote
/// device, the trigger, and the handler.
pub struct ActonData<H> {
    pub offset: u16,
    pub count: u16,
    pub type_action: TypeAction,
    pub handler: H,
}

impl<H: ActionHandler> ActonData<H> {
    pub fn get_offset(&self) -> (r: u16)
        ensures
            r == self.offset,
    {
        self.offset
    }

    pub fn get_count(&self) -> (r: u16)
        ensures
            r == self.count,
    {
        self.count
    }

    /// Evaluate the trigger of this action.
    pub fn need_run(&mut self, context: &ModbusContext, now_ns: u64) -> (r: Result<
        bool,
        ModbusErr,
    >)
        ensures
            final(self).offset == old(self).offset,
            final(self).count == old(self).count,
            final(self).handler == old(self).handler,
            r is Ok <==> trigger_poll_ok(old(self).type_action),
            r is Ok ==> final(self).type_action == trigger_polled(
                old(self).type_action,
                context.coils@,
                context.discretes@,
                now_ns,
            ),
            r is Ok ==> r->Ok_0 == trigger_fires(
                old(self).type_action,
                context.coils@,
                context.discretes@,
                now_ns,
            ),
            r is Err ==> *final(self) == *old(self) && r->Err_0 == ModbusErr::Rmodbus(
                ErrorKind::OOBContext,
            ),
    {
        self.type_action.need_run(context, now_ns)
    }
}

/// An action: the Modbus operation it performs, with its data.
pub enum Acton<H> {
    ReadCoils(ActonData<H>),
    ReadDiscretes(ActonData<H>),
    ReadHoldings(ActonData<H>),
    ReadInputs(ActonData<H>),
    WriteCoil(ActonData<H>),
    WriteHolding(ActonData<H>),
    WriteCoils(ActonData<H>),
    WriteHoldings(ActonData<H>),
}

/// The operation kind of an action, as a plain code: the eight wire
/// functions in declaration order.
pub open spec fn acton_kind<H>(a: Acton<H>) -> int {
    match a {
        Acton::ReadCoils(_) => 1,
        Acton::ReadDiscretes(_) => 2,
        Acton::ReadHoldings(_) => 3,
        Acton::ReadInputs(_) => 4,
        Acton::WriteCoil(_) => 5,
        Acton::WriteHolding(_) => 6,
        Acton::WriteCoils(_) => 7,
        Acton::WriteHoldings(_) => 8,
    }
}

/// The data of an action, whatever its kind.
pub open spec fn acton_data<H>(a: Acton<H>) -> ActonData<H> {
    match a {
        Acton::ReadCoils(d) => d,
        Acton::ReadDiscretes(d) => d,
        Acton::ReadHoldings(d) => d,
        Acton::ReadInputs(d) => d,
        Acton::WriteCoil(d) => d,
        Acton::WriteHolding(d) => d,
        Acton::WriteCoils(d) => d,
        Acton::WriteHoldings(d) => d,
    }
}

impl<H: ActionHandler> Acton<H> {
    /// Evaluate the trigger of this action; the kind and the rest of the
    /// data stay as they are.
    pub fn need_run(&mut self, context: &ModbusContext, now_ns: u64) -> (r: Result<
        bool,
        ModbusErr,
    >)
        ensures
            acton_kind(*final(self)) == acton_kind(*old(self)),
            acton_data(*final(self)).offset == acton_data(*old(self)).offset,
            acton_data(*final(self)).count == acton_data(*old(self)).count,
            acton_data(*final(self)).handler == acton_data(*old(self)).handler,
            r is Ok <==> trigger_poll_ok(acton_data(*old(self)).type_action),
            r is Ok ==> acton_data(*final(self)).type_action == trigger_polled(
                acton_data(*old(self)).type_action,
                context.coils@,
                context.discretes@,
                now_ns,
            ),
            r is Ok ==> r->Ok_0 == trigger_fires(
                acton_data(*old(self)).type_action,
                context.coils@,
                context.discretes@,
                now_ns,
            ),
            r is Err ==> *final(self) == *old(self) && r->Err_0 == ModbusErr::Rmodbus(
                ErrorKind::OOBContext,
            ),
    {
        match self {
            Acton::ReadCoils(data) => data.need_run(context, now_ns),
            Acton::ReadDiscretes(data) => data.need_run(context, now_ns),
            Acton::ReadHoldings(data) => data.need_run(context, now_ns),
            Acton::ReadInputs(data) => data.need_run(context, now_ns),
            Acton::WriteCoil(data) => data.need_run(context, now_ns),
            Acton::WriteCoils(data) => data.need_run(context, now_ns),
            Acton::WriteHolding(data) => data.need_run(context, now_ns),
            Acton::WriteHoldings(data) => data.need_run(context, now_ns),
        }
    }

    /// FC1 read of `count` coils at `offset`, on a cycle of `time_ns`.
    pub fn cycle_read_colis(offset: u16, count: u16, time_ns: u64, now_ns: u64, handler: H) -> (r:
        Self)
        ensures
            r == Acton::ReadCoils(
                ActonData { offset, count, type_action: TypeAction::Cycle(time_ns, now_ns), handler },
            ),
    {
        Acton::ReadCoils(
            ActonData { offset, count, type_action: TypeAction::Cycle(time_ns, now_ns), handler },
        )
    }

    /// FC1 read of `count` coils at `offset`, on a rising edge of a
    /// local coil.
    pub fn front_coil_read_colis(offset: u16, count: u16, coil: u16, handler: H) -> (r: Self)
        ensures
            r == Acton::ReadCoils(
                ActonData { offset, count, type_action: TypeAction::FrontColi(coil, false), handler },
            ),
    {
        Acton::ReadCoils(
            ActonData { offset, count, type_action: TypeAction::FrontColi(coil, false), handler },
        )
    }

    /// FC1 read of `count` coils at `offset`, on a rising edge of a
    /// local discrete input.
    pub fn front_discrete_read_colis(offset: u16, count: u16, coil: u16, handler: H) -> (r: Self)
        ensures
            r == Acton::ReadCoils(
                ActonData {
                    offset,
                    count,
                    type_action: TypeAction::FrontDiscrete(coil, false),
                    handler,
                },
            ),
    {
        Acton::ReadCoils(
            ActonData { offset, count, type_action: TypeAction::FrontDiscrete(coil, false), handler },
        )
    }

    /// FC2 read of `count` discrete inputs, on a cycle of `time_ns`.
    pub fn cycle_read_discretes(offset: u16, count: u16, time_ns: u64, now_ns: u64, handler: H) -> (r:
        Self)
        ensures
            r == Acton::ReadDiscretes(
                ActonData { offset, count, type_action: TypeAction::Cycle(time_ns, now_ns), handler },
            ),
    {
        Acton::ReadDiscretes(
            ActonData { offset, count, type_action: TypeAction::Cycle(time_ns, now_ns), handler },
        )
    }

    /// FC2 read of `count` discrete inputs, on a rising edge of a local
    /// coil.
    pub fn front_coil_read_discretes(offset: u16, count: u16, coil: u16, handler: H) -> (r: Self)
        ensures
            r == Acton::ReadDiscretes(
                ActonData { offset, count, type_action: TypeAction::FrontColi(coil, false), handler },
            ),
    {
        Acton::ReadDiscretes(
            ActonData { offset, count, type_action: TypeAction::FrontColi(coil, false), handler },
        )
    }

    /// FC2 read of `count` discrete inputs, on a rising edge of a local
    /// discrete input.
    pub fn front_discrete_read_discretes(offset: u16, count: u16, coil: u16, handler: H) -> (r:
        Self)
        ensures
            r == Acton::ReadDiscretes(
                ActonData {
                    offset,
                    count,
                    type_action: TypeAction::FrontDiscrete(coil, false),
                    handler,
                },
            ),
    {
        Acton::ReadDiscretes(
            ActonData { offset, count, type_action: TypeAction::FrontDiscrete(coil, false), handler },
        )
    }

    /// FC4 read of `count` input registers, on a cycle of `time_ns`.
    pub fn cycle_read_inputs(offset: u16, count: u16, time_ns: u64, now_ns: u64, handler: H) -> (r:
        Self)
        ensures
            r == Acton::ReadInputs(
                ActonData { offset, count, type_action: TypeAction::Cycle(time_ns, now_ns), handler },
            ),
    {
        Acton::ReadInputs(
            ActonData { offset, count, type_action: TypeAction::Cycle(time_ns, now_ns), handler },
        )
    }

    /// FC4 read of `count` input registers, on a rising edge of a local
    /// coil.
    pub fn front_coil_read_inputs(offset: u16, count: u16, coil: u16, handler: H) -> (r: Self)
        ensures
            r == Acton::ReadInputs(
                ActonData { offset, count, type_action: TypeAction::FrontColi(coil, false), handler },
            ),
    {
        Acton::ReadInputs(
            ActonData { offset, count, type_action: TypeAction::FrontColi(coil, false), handler },
        )
    }

    /// FC4 read of `count` input registers, on a rising edge of a local
    /// discrete input.
    pub fn front_discrete_read_inputs(offset: u16, count: u16, coil: u16, handler: H) -> (r: Self)
        ensures
            r == Acton::ReadInputs(
                ActonData {
                    offset,
                    count,
                    type_action: TypeAction::FrontDiscrete(coil, false),
                    handler,
                },
            ),
    {
        Acton::ReadInputs(
            ActonData { offset, count, type_action: TypeAction::FrontDiscrete(coil, false), handler },
        )
    }

    /// FC3 read of `count` holding registers, on a cycle of `time_ns`.
    pub fn cycle_read_holdings(offset: u16, count: u16, time_ns: u64, now_ns: u64, handler: H) -> (r:
        Self)
        ensures
            r == Acton::ReadHoldings(
                ActonData { offset, count, type_action: TypeAction::Cycle(time_ns, now_ns), handler },
            ),
    {
        Acton::ReadHoldings(
            ActonData { offset, count, type_action: TypeAction::Cycle(time_ns, now_ns), handler },
        )
    }

    /// FC3 read of `count` holding registers, on a rising edge of a
    /// local coil.
    pub fn front_coil_read_holdings(offset: u16, count: u16, coil: u16, handler: H) -> (r: Self)
        ensures
            r == Acton::ReadHoldings(
                ActonData { offset, count, type_action: TypeAction::FrontColi(coil, false), handler },
            ),
    {
        Acton::ReadHoldings(
            ActonData { offset, count, type_action: TypeAction::FrontColi(coil, false), handler },
        )
    }

    /// FC3 read of `count` holding registers, on a rising edge of a
    /// local discrete input.
    pub fn front_discrete_read_holdings(offset: u16, count: u16, coil: u16, handler: H) -> (r:
        Self)
        ensures
            r == Acton::ReadHoldings(
                ActonData {
                    offset,
                    count,
                    type_action: TypeAction::FrontDiscrete(coil, false),
                    handler,
                },
            ),
    {
        Acton::ReadHoldings(
            ActonData { offset, count, type_action: TypeAction::FrontDiscrete(coil, false), handler },
        )
    }

    /// FC5 write of one coil at `offset`, on a cycle of `time_ns`.
    pub fn cycle_write_coil(offset: u16, time_ns: u64, now_ns: u64, handler: H) -> (r: Self)
        ensures
            r == Acton::WriteCoil(
                ActonData {
                    offset,
                    count: 0u16,
                    type_action: TypeAction::Cycle(time_ns, now_ns),
                    handler,
                },
            ),
    {
        Acton::WriteCoil(
            ActonData { offset, count: 0, type_action: TypeAction::Cycle(time_ns, now_ns), handler },
        )
    }

    /// FC5 write of one coil at `offset`, on a rising edge of a local
    /// coil.
    pub fn front_coil_write_coil(offset: u16, coil: u16, handler: H) -> (r: Self)
        ensures
            r == Acton::WriteCoil(
                ActonData {
                    offset,
                    count: 0u16,
                    type_action: TypeAction::FrontColi(coil, false),
                    handler,
                },
            ),
    {
        Acton::WriteCoil(
            ActonData { offset, count: 0, type_action: TypeAction::FrontColi(coil, false), handler },
        )
    }

    /// FC5 write of one coil at `offset`, on a rising edge of a local
    /// discrete input.
    pub fn front_discrete_write_coil(offset: u16, coil: u16, handler: H) -> (r: Self)
        ensures
            r == Acton::WriteCoil(
                ActonData {
                    offset,
                    count: 0u16,
                    type_action: TypeAction::FrontDiscrete(coil, false),
                    handler,
                },
            ),
    {
        Acton::WriteCoil(
            ActonData {
                offset,
                count: 0,
                type_action: TypeAction::FrontDiscrete(coil, false),
                handler,
            },
        )
    }

    /// FC15 bulk write of coils at `offset`, on a cycle of `time_ns`.
    pub fn cycle_write_coils(offset: u16, time_ns: u64, now_ns: u64, handler: H) -> (r: Self)
        ensures
            r == Acton::WriteCoils(
                ActonData {
                    offset,
                    count: 0u16,
                    type_action: TypeAction::Cycle(time_ns, now_ns),
                    handler,
                },
            ),
    {
        Acton::WriteCoils(
            ActonData { offset, count: 0, type_action: TypeAction::Cycle(time_ns, now_ns), handler },
        )
    }

    /// FC15 bulk write of coils at `offset`, on a rising edge of a local
    /// coil.
    pub fn front_coil_coils(offset: u16, coil: u16, handler: H) -> (r: Self)
        ensures
            r == Acton::WriteCoils(
                ActonData {
                    offset,
                    count: 0u16,
                    type_action: TypeAction::FrontColi(coil, false),
                    handler,
                },
            ),
    {
        Acton::WriteCoils(
            ActonData { offset, count: 0, type_action: TypeAction::FrontColi(coil, false), handler },
        )
    }

    /// FC15 bulk write of coils at `offset`, on a rising edge of a local
    /// discrete input.
    pub fn front_discrete_coils(offset: u16, coil: u16, handler: H) -> (r: Self)
        ensures
            r == Acton::WriteCoils(
                ActonData {
                    offset,
                    count: 0u16,
                    type_action: TypeAction::FrontDiscrete(coil, false),
                    handler,
                },
            ),
    {
        Acton::WriteCoils(
            ActonData {
                offset,
                count: 0,
                type_action: TypeAction::FrontDiscrete(coil, false),
                handler,
            },
        )
    }

    /// FC6 write of one holding at `offset`, on a cycle of `time_ns`.
    pub fn cycle_write_holding(offset: u16, time_ns: u64, now_ns: u64, handler: H) -> (r: Self)
        ensures
            r == Acton::WriteHolding(
                ActonData {
                    offset,
                    count: 0u16,
                    type_action: TypeAction::Cycle(time_ns, now_ns),
                    handler,
                },
            ),
    {
        Acton::WriteHolding(
            ActonData { offset, count: 0, type_action: TypeAction::Cycle(time_ns, now_ns), handler },
        )
    }

    /// FC6 write of one holding at `offset`, on a rising edge of a local
    /// coil.
    pub fn front_coil_write_holding(offset: u16, coil: u16, handler: H) -> (r: Self)
        ensures
            r == Acton::WriteHolding(
                ActonData {
                    offset,
                    count: 0u16,
                    type_action: TypeAction::FrontColi(coil, false),
                    handler,
                },
            ),
    {
        Acton::WriteHolding(
            ActonData { offset, count: 0, type_action: TypeAction::FrontColi(coil, false), handler },
        )
    }

    /// FC6 write of one holding at `offset`, on a rising edge of a local
    /// discrete input.
    pub fn front_discrete_write_holding(offset: u16, coil: u16, handler: H) -> (r: Self)
        ensures
            r == Acton::WriteHolding(
                ActonData {
                    offset,
                    count: 0u16,
                    type_action: TypeAction::FrontDiscrete(coil, false),
                    handler,
                },
            ),
    {
        Acton::WriteHolding(
            ActonData {
                offset,
                count: 0,
                type_action: TypeAction::FrontDiscrete(coil, false),
                handler,
            },
        )
    }

    /// FC16 bulk write of holdings at `offset`, on a cycle of `time_ns`.
    pub fn cycle_write_holdings(offset: u16, time_ns: u64, now_ns: u64, handler: H) -> (r: Self)
        ensures
            r == Acton::WriteHoldings(
                ActonData {
                    offset,
                    count: 0u16,
                    type_action: TypeAction::Cycle(time_ns, now_ns),
                    handler,
                },
            ),
    {
        Acton::WriteHoldings(
            ActonData { offset, count: 0, type_action: TypeAction::Cycle(time_ns, now_ns), handler },
        )
    }

    /// FC16 bulk write of holdings at `offset`, on a rising edge of a
    /// local coil.
    pub fn front_coil_holdings(offset: u16, coil: u16, handler: H) -> (r: Self)
        ensures
            r == Acton::WriteHoldings(
                ActonData {
                    offset,
                    count: 0u16,
                    type_action: TypeAction::FrontColi(coil, false),
                    handler,
                },
            ),
    {
        Acton::WriteHoldings(
            ActonData { offset, count: 0, type_action: TypeAction::FrontColi(coil, false), handler },
        )
    }

    /// FC16 bulk write of holdings at `offset`, on a rising edge of a
    /// local discrete input.
    pub fn front_discrete_holdings(offset: u16, coil: u16, handler: H) -> (r: Self)
        ensures
            r == Acton::WriteHoldings(
                ActonData {
                    offset,
                    count: 0u16,
                    type_action: TypeAction::FrontDiscrete(coil, false),
                    handler,
                },
            ),
    {
        Acton::WriteHoldings(
            ActonData {
                offset,
                count: 0,
                type_action: TypeAction::FrontDiscrete(coil, false),
                handler,
            },
        )
    }
}

/// A cycle trigger that fires restarts its measurement from the firing
/// tick, so two consecutive firings are at least one period apart.
pub proof fn lemma_action_cycle_interval(
    period: u64,
    last: u64,
    coils: Seq<bool>,
    discretes: Seq<bool>,
    now: u64,
)
    requires
        trigger_fires(TypeAction::Cycle(period, last), coils, discretes, now),
        now >= last,
    ensures
        now >= last + period,
        trigger_polled(TypeAction::Cycle(period, last), coils, discretes, now)
            == TypeAction::Cycle(period, now),
{
}

} // verus!
