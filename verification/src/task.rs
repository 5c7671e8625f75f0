//! Tasks: named, prioritized bundles of programs with a single activation
//! trigger, advanced one program step at a time by the scheduler.

pub mod sort;
pub mod task_errors;

use vstd::prelude::*;

use crate::clock::clock_now_ns;
use crate::modbus::context::CONTEXT_SIZE;
use crate::pls_std::bitword::BitWord;
use crate::pls_std::timers::spec_elapsed;
use rmodbus::server::context::ModbusContext;
use rmodbus::ErrorKind;
use task_errors::PlcError;
use task_errors::TaskTimeOutError;

verus! {

/// One program of a task: a synchronous, non-suspending step against the
/// shared register context.  The scheduler promises never to hold two
/// references to the same program at once, so the step takes `&mut self`.
pub trait MutProgram {
    fn run(&mut self, context: &mut ModbusContext) -> Result<(), PlcError>;
}

/// The trigger that makes a task eligible to run.
///
/// * `Cycle((period, last_start))` — ready when `period` nanoseconds have
///   passed since `last_start`.
/// * `Background` — never ready; runs only when nothing else is.
/// * `BitFront((addr, flags))` — ready on a rising edge of a context bit.
///   `flags` packs the edge detector: bit 0 the current sample, bit 1 the
///   previous sample, bit 2 the "previous activation completed" latch,
///   bit 7 the source (set = coil, clear = discrete input).
#[derive(Clone, Copy, Debug)]
pub enum Event {
    Cycle((u64, u64)),
    Background,
    BitFront((u16, u8)),
}

/// Initial `BitFront` flag byte sampling a discrete input: only the
/// completion latch (bit 2) is set, so the first rising edge fires.
pub const BIT_FRONT_DISCRETE_INIT: u8 = 4;

/// Initial `BitFront` flag byte sampling a coil: the completion latch
/// (bit 2) and the source selector (bit 7) are set.
pub const BIT_FRONT_COIL_INIT: u8 = 132;

/// An edge detector byte reports ready: current sample high, previous
/// sample low, completion latch set.
pub open spec fn bitfront_ready(flags: u8) -> bool {
    flags.bit_read(0) && !flags.bit_read(1) && flags.bit_read(2)
}

/// One poll of the edge detector: the current sample moves to bit 1 and
/// the new sample lands in bit 0.
pub open spec fn polled_flags(flags: u8, sample: bool) -> u8 {
    flags.bit_write(1, flags.bit_read(0)).bit_write(0, sample)
}

/// The bit a `BitFront` event watches, read from the coil table or the
/// discrete-input table according to its source selector.
pub open spec fn event_sample(addr: u16, flags: u8, coils: Seq<bool>, discretes: Seq<
    bool,
>) -> bool {
    if flags.bit_read(7) {
        coils[addr as int]
    } else {
        discretes[addr as int]
    }
}

/// A poll of the event succeeds: for `BitFront` the watched address must
/// lie inside the register tables.
pub open spec fn event_poll_ok(e: Event) -> bool {
    match e {
        Event::BitFront((addr, _)) => (addr as int) < (CONTEXT_SIZE as int),
        _ => true,
    }
}

/// The event after one readiness poll: only `BitFront` changes, shifting
/// its sample bits.
pub open spec fn event_polled(e: Event, coils: Seq<bool>, discretes: Seq<bool>) -> Event {
    match e {
        Event::BitFront((addr, flags)) => if (addr as int) < (CONTEXT_SIZE as int) {
            Event::BitFront(
                (addr, polled_flags(flags, event_sample(addr, flags, coils, discretes))),
            )
        } else {
            e
        },
        _ => e,
    }
}

/// Whether one readiness poll of the event reports ready.
pub open spec fn event_fires(e: Event, coils: Seq<bool>, discretes: Seq<bool>, now: u64) -> bool {
    match e {
        Event::Cycle((period, last)) => period <= spec_elapsed(last, now),
        Event::BitFront((addr, flags)) => (addr as int) < (CONTEXT_SIZE as int)
            && bitfront_ready(polled_flags(flags, event_sample(addr, flags, coils, discretes))),
        Event::Background => false,
    }
}

/// Scheduling class of an event: background tasks sort after all others.
pub open spec fn event_class(e: Event) -> int {
    match e {
        Event::Background => 2,
        _ => 1,
    }
}

/// The event after the on-start actions of an activation: a cycle records
/// its start instant, an edge trigger clears its completion latch.
pub open spec fn event_started(e: Event, now: u64) -> Event {
    match e {
        Event::Cycle((period, _)) => Event::Cycle((period, now)),
        Event::BitFront((addr, flags)) => Event::BitFront((addr, flags.bit_write(2, false))),
        Event::Background => Event::Background,
    }
}

/// The cursor after one program step: one position further, wrapping to
/// 0 at the end of the program list.
pub open spec fn next_cursor(cur: u8, len: int) -> int {
    if cur as int + 1 == len {
        0
    } else {
        cur as int + 1
    }
}

/// The event after the on-complete actions of an activation: an edge
/// trigger sets its completion latch again.
pub open spec fn event_completed(e: Event) -> Event {
    match e {
        Event::BitFront((addr, flags)) => Event::BitFront((addr, flags.bit_write(2, true))),
        _ => e,
    }
}

/// A named unit of scheduling: an ordered program list, a priority
/// (lower numbers run first), an activation trigger, and the cursor of
/// the activation in progress (`next_program == 0` means idle).
pub struct Task<P> {
    pub name: &'static str,
    pub programs: Vec<P>,
    pub priority: u8,
    pub event: Event,
    pub next_program: u8,
}

impl<P> Task<P> {
    /// The task shape `run` needs: a non-empty program list short enough
    /// for the `u8` cursor, and the cursor inside it.
    pub open spec fn run_shape_ok(self) -> bool {
        0 < self.programs.len() <= 255 && (self.next_program as int) < (self.programs.len() as int)
    }

    /// Scheduling class of the task.
    pub open spec fn class(self) -> int {
        event_class(self.event)
    }

    /// The event of the task once the on-start actions of this call have
    /// been applied (they run only when the cursor is at 0).
    pub open spec fn started_event(self, now: u64) -> Event {
        if self.next_program == 0 {
            event_started(self.event, now)
        } else {
            self.event
        }
    }
}

impl<P: MutProgram> Task<P> {
    /// A task activated every `cycle_ns` nanoseconds; `now_ns` is the
    /// construction instant, from which the first period is measured.
    pub fn new_cycle(name: &'static str, programs: Vec<P>, priority: u8, cycle_ns: u64, now_ns: u64) -> (r:
        Self)
        ensures
            r.name == name,
            r.programs == programs,
            r.priority == priority,
            r.event == Event::Cycle((cycle_ns, now_ns)),
            r.next_program == 0,
    {
        Self { name, programs, priority, event: Event::Cycle((cycle_ns, now_ns)), next_program: 0 }
    }

    /// A task activated by a rising edge of a discrete input.
    pub fn new_input_bit(name: &'static str, programs: Vec<P>, priority: u8, bit_addr: u16) -> (r:
        Self)
        ensures
            r.name == name,
            r.programs == programs,
            r.priority == priority,
            r.event == Event::BitFront((bit_addr, BIT_FRONT_DISCRETE_INIT)),
            r.next_program == 0,
    {
        Self {
            name,
            programs,
            priority,
            event: Event::BitFront((bit_addr, BIT_FRONT_DISCRETE_INIT)),
            next_program: 0,
        }
    }

    /// A task activated by a rising edge of a coil.
    pub fn new_coli_bit(name: &'static str, programs: Vec<P>, priority: u8, bit_addr: u16) -> (r:
        Self)
        ensures
            r.name == name,
            r.programs == programs,
            r.priority == priority,
            r.event == Event::BitFront((bit_addr, BIT_FRONT_COIL_INIT)),
            r.next_program == 0,
    {
        Self {
            name,
            programs,
            priority,
            event: Event::BitFront((bit_addr, BIT_FRONT_COIL_INIT)),
            next_program: 0,
        }
    }

    /// A task that runs only when no event task is ready.
    pub fn new_background(name: &'static str, programs: Vec<P>, priority: u8) -> (r: Self)
        ensures
            r.name == name,
            r.programs == programs,
            r.priority == priority,
            r.event == Event::Background,
            r.next_program == 0,
    {
        Self { name, programs, priority, event: Event::Background, next_program: 0 }
    }

    pub fn get_priority(&self) -> (r: u8)
        ensures
            r == self.priority,
    {
        self.priority
    }

    pub fn get_event(&self) -> (r: Event)
        ensures
            r == self.event,
    {
        self.event
    }

    pub fn get_name(&self) -> (r: &'static str)
        ensures
            r == self.name,
    {
        self.name
    }

    pub fn get_program_count(&self) -> (r: usize)
        ensures
            r == self.programs.len(),
    {
        self.programs.len()
    }

    /// One readiness poll.  A `Cycle` event compares the elapsed time
    /// against its period; a `BitFront` event shifts its sample bits and
    /// reports a rising edge (with the completion latch set); a
    /// `Background` event is never ready.  Only a `BitFront` watching an
    /// address outside the register tables fails.
    pub fn need_run(&mut self, context: &ModbusContext, now_ns: u64) -> (r: Result<bool, PlcError>)
        ensures
            final(self).name == old(self).name,
            final(self).programs == old(self).programs,
            final(self).priority == old(self).priority,
            final(self).next_program == old(self).next_program,
            r is Ok <==> event_poll_ok(old(self).event),
            r is Ok ==> final(self).event == event_polled(
                old(self).event,
                context.coils@,
                context.discretes@,
            ),
            r is Ok ==> r->Ok_0 == event_fires(
                old(self).event,
                context.coils@,
                context.discretes@,
                now_ns,
            ),
            r is Err ==> final(self).event == old(self).event && r->Err_0 == PlcError::Register(
                ErrorKind::OOBContext,
            ),
    {
        match &mut self.event {
            Event::Cycle(pair) => {
                let elapsed: u64 = if now_ns >= pair.1 {
                    now_ns - pair.1
                } else {
                    0
                };
                Ok(pair.0 <= elapsed)
            },
            Event::BitFront(pair) => {
                let first = pair.1.get_bit(0).unwrap();
                let source_is_coil = pair.1.get_bit(7).unwrap();

                let sampled = if source_is_coil {
                    context.get_coil(pair.0)
                } else {
                    context.get_discrete(pair.0)
                };
                let bit = match sampled {
                    Ok(b) => b,
                    Err(e) => {
                        return Err(PlcError::Register(e));
                    },
                };

                pair.1.set_bit(1, first).unwrap();
                pair.1.set_bit(0, bit).unwrap();

                let cur = pair.1.get_bit(0).unwrap();
                let prev = pair.1.get_bit(1).unwrap();
                let latch = pair.1.get_bit(2).unwrap();

                Ok(cur && !prev && latch)
            },
            Event::Background => Ok(false),
        }
    }

    /// Advance the activation by one program step.
    ///
    /// At cursor 0 the on-start actions run first (a cycle records `now_ns`
    /// as its start, an edge trigger clears its latch).  The program at the
    /// cursor is stepped; its error, if any, is returned with the cursor
    /// unmoved.  Then the cursor advances (mod the program count) and, back
    /// at 0, the on-complete actions run: an edge trigger sets its latch,
    /// and a cycle whose activation took longer than its period reports a
    /// `Timeout` with the measured time, the task name and the period.
    /// A task without the shape `run_shape_ok` demands fails with `Shape`.
    pub fn run(&mut self, context: &mut ModbusContext, now_ns: u64) -> (r: Result<u8, PlcError>)
        ensures
            final(self).name == old(self).name,
            final(self).priority == old(self).priority,
            final(self).programs.len() == old(self).programs.len(),
            !old(self).run_shape_ok() ==> r == Err::<u8, PlcError>(PlcError::Shape) && final(self).event == old(self).event && final(self).next_program == old(self).next_program,
            old(self).run_shape_ok() ==> final(self).run_shape_ok(),
            old(self).run_shape_ok() && r is Ok ==> {
                &&& r->Ok_0 == final(self).next_program
                &&& (final(self).next_program as int) == next_cursor(
                    old(self).next_program,
                    old(self).programs.len() as int,
                )
                &&& (final(self).next_program == 0 ==> final(self).event == event_completed(
                    old(self).started_event(now_ns),
                ))
                &&& (final(self).next_program != 0 ==> final(self).event == old(self).started_event(now_ns))
            },
            old(self).run_shape_ok() && r is Err ==> {
                ||| (final(self).next_program == old(self).next_program && final(self).event == old(self).started_event(now_ns))
                ||| {
                    &&& final(self).next_program == 0
                    &&& (old(self).next_program as int) == (old(self).programs.len() as int) - 1
                    &&& final(self).event == event_completed(old(self).started_event(now_ns))
                    &&& r->Err_0 matches PlcError::Timeout(te) && old(self).started_event(now_ns)
                        matches Event::Cycle((p, _)) && te.set_time == p && te.time_left > p
                        && te.name == old(self).name
                }
            },
    {
        let len = self.programs.len();
        if len == 0 || len > 255 || (self.next_program as usize) >= len {
            return Err(PlcError::Shape);
        }

        if self.next_program == 0 {
            self.after_start(now_ns);
        }

        let idx = self.next_program as usize;
        let mut prog = self.programs.remove(idx);
        let step = prog.run(context);
        self.programs.insert(idx, prog);
        if let Err(e) = step {
            return Err(e);
        }

        self.next_program = if (self.next_program as usize) + 1 == len {
            0
        } else {
            self.next_program + 1
        };

        if self.next_program == 0 {
            let completion_ns = clock_now_ns();
            if let Err(e) = self.before_complit(completion_ns) {
                return Err(e);
            }
        }

        Ok(self.next_program)
    }

    /// On-start actions of an activation.
    fn after_start(&mut self, now_ns: u64)
        ensures
            final(self).name == old(self).name,
            final(self).programs == old(self).programs,
            final(self).priority == old(self).priority,
            final(self).next_program == old(self).next_program,
            final(self).event == event_started(old(self).event, now_ns),
    {
        match &mut self.event {
            Event::Cycle(pair) => {
                pair.1 = now_ns;
            },
            Event::BitFront(pair) => {
                pair.1.set_bit(2, false).unwrap();
            },
            Event::Background => {},
        }
    }

    /// On-complete actions of an activation, at the given completion
    /// instant.  An edge trigger sets its completion latch again.  A
    /// cycle event reports an overrun exactly when the activation — from
    /// the start the event records to `completion_ns` — ran longer than
    /// its period, carrying the measured time, the task name and the
    /// period.  (`Task::run` passes a fresh clock reading here, so that
    /// real mid-activation time is measured.)
    pub fn before_complit(&mut self, completion_ns: u64) -> (r: Result<(), PlcError>)
        ensures
            final(self).name == old(self).name,
            final(self).programs == old(self).programs,
            final(self).priority == old(self).priority,
            final(self).next_program == old(self).next_program,
            final(self).event == event_completed(old(self).event),
            r is Err <==> (old(self).event matches Event::Cycle((p, last)) && spec_elapsed(
                last,
                completion_ns,
            ) > p),
            r is Err ==> (r->Err_0 matches PlcError::Timeout(te) && old(self).event matches
                Event::Cycle((p, last)) && te.set_time == p && te.time_left == spec_elapsed(
                last,
                completion_ns,
            ) && te.name == old(self).name),
    {
        match &mut self.event {
            Event::BitFront(pair) => {
                pair.1.set_bit(2, true).unwrap();
                Ok(())
            },
            Event::Cycle(pair) => {
                let elapsed: u64 = if completion_ns >= pair.1 {
                    completion_ns - pair.1
                } else {
                    0
                };
                if elapsed > pair.0 {
                    return Err(
                        PlcError::Timeout(TaskTimeOutError::new(elapsed, self.name, pair.0)),
                    );
                }
                Ok(())
            },
            Event::Background => Ok(()),
        }
    }
}

/// An edge trigger fires at most once per rising edge: right after a poll
/// with a high sample, a second poll with the sample still high can never
/// report ready, whatever the flag byte held before.
pub proof fn lemma_bitfront_single_fire(flags: u8)
    ensures
        !bitfront_ready(polled_flags(polled_flags(flags, true), true)),
{
    let h1 = flags.bit_write(1, flags.bit_read(0));
    let g1 = polled_flags(flags, true);
    assert(g1 == h1 | (1u8 << 0));
    assert(((h1 | (1u8 << 0)) >> 0) & 1 == 1) by (bit_vector);
    assert(g1.bit_read(0));

    let g2 = polled_flags(g1, true);
    assert(g2 == (g1 | (1u8 << 1)) | (1u8 << 0));
    assert(((((g1 | (1u8 << 1)) | (1u8 << 0)) >> 1) & 1) == 1) by (bit_vector);
    assert(g2.bit_read(1));
}

/// While the completion latch is cleared (as the on-start actions do),
/// polling can never report ready: a re-fire needs the completed
/// activation to set the latch again.
pub proof fn lemma_latch_blocks_fire(flags: u8, sample: bool)
    ensures
        !bitfront_ready(polled_flags(flags.bit_write(2, false), sample)),
{
    let f0 = flags.bit_write(2, false);
    assert(f0 == flags & !(1u8 << 2));
    assert((((flags & !(1u8 << 2)) >> 2) & 1) != 1) by (bit_vector);
    assert(!f0.bit_read(2));

    let h = f0.bit_write(1, f0.bit_read(0));
    if f0.bit_read(0) {
        assert(h == f0 | (1u8 << 1));
        assert((((f0 | (1u8 << 1)) >> 2) & 1) == ((f0 >> 2) & 1)) by (bit_vector);
    } else {
        assert(h == f0 & !(1u8 << 1));
        assert((((f0 & !(1u8 << 1)) >> 2) & 1) == ((f0 >> 2) & 1)) by (bit_vector);
    }
    assert(h.bit_read(2) == f0.bit_read(2));

    let g = polled_flags(f0, sample);
    if sample {
        assert(g == h | (1u8 << 0));
        assert((((h | (1u8 << 0)) >> 2) & 1) == ((h >> 2) & 1)) by (bit_vector);
    } else {
        assert(g == h & !(1u8 << 0));
        assert((((h & !(1u8 << 0)) >> 2) & 1) == ((h >> 2) & 1)) by (bit_vector);
    }
    assert(g.bit_read(2) == h.bit_read(2));
}

/// Consecutive activations of a cycle task are at least one period
/// apart: an activation start records its instant in the event, and the
/// event only fires again at a `now` no earlier than that instant plus
/// the period.
pub proof fn lemma_cycle_interval(
    period: u64,
    last_start: u64,
    coils: Seq<bool>,
    discretes: Seq<bool>,
    now: u64,
)
    requires
        event_fires(Event::Cycle((period, last_start)), coils, discretes, now),
        now >= last_start,
    ensures
        now >= last_start + period,
{
}

} // verus!
