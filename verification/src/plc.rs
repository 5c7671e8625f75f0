//! The scheduler: three task pools and a shared register context.
//!
//! Each iteration promotes every ready event task onto the call stack
//! (falling back to one background task when nothing is ready), sorts the
//! stack by `(event class, priority)` with a stable sort, and advances the
//! head task by exactly one program step.  A completed or failed
//! activation sends its task back to the pool it came from.

use vstd::prelude::*;
use vstd::multiset::Multiset;

use crate::task::sort::sort_tasks;
use crate::task::sort::stable_sorted;
use crate::task::task_errors::PlcError;
use crate::task::task_errors::ReportedError;
use crate::task::event_class;
use crate::task::event_fires;
use crate::task::event_poll_ok;
use crate::task::event_polled;
use crate::task::next_cursor;
use crate::task::MutProgram;
use crate::task::Event;
use crate::task::Task;
use rmodbus::server::context::ModbusContext;

verus! {

/// A task after one readiness poll: same name, programs, priority and
/// cursor, the event advanced by the poll.
pub open spec fn polled_task<P>(t: Task<P>, coils: Seq<bool>, discretes: Seq<bool>) -> Task<P> {
    Task {
        name: t.name,
        programs: t.programs,
        priority: t.priority,
        event: event_polled(t.event, coils, discretes),
        next_program: t.next_program,
    }
}

/// The tasks of `s` whose events report ready this tick, polled, in
/// arrival order.
pub open spec fn ready_tasks<P>(
    s: Seq<Task<P>>,
    coils: Seq<bool>,
    discretes: Seq<bool>,
    now: u64,
) -> Seq<Task<P>> {
    s.filter(|t: Task<P>| event_fires(t.event, coils, discretes, now)).map_values(
        |t: Task<P>| polled_task(t, coils, discretes),
    )
}

/// The tasks of `s` that stay in the event pool this tick (not ready, or
/// their poll failed), polled, in arrival order.
pub open spec fn idle_tasks<P>(
    s: Seq<Task<P>>,
    coils: Seq<bool>,
    discretes: Seq<bool>,
    now: u64,
) -> Seq<Task<P>> {
    s.filter(|t: Task<P>| !event_fires(t.event, coils, discretes, now)).map_values(
        |t: Task<P>| polled_task(t, coils, discretes),
    )
}

/// The whole pool after one readiness poll of every task.
pub open spec fn polled_pool<P>(s: Seq<Task<P>>, coils: Seq<bool>, discretes: Seq<bool>) -> Seq<
    Task<P>,
> {
    s.map_values(|t: Task<P>| polled_task(t, coils, discretes))
}

/// The tasks of `s` whose readiness poll fails (an edge trigger watching
/// an address outside the register tables).
pub open spec fn poll_failures<P>(s: Seq<Task<P>>) -> Seq<Task<P>> {
    s.filter(|t: Task<P>| !event_poll_ok(t.event))
}

/// The non-background tasks of `s`, in arrival order.
pub open spec fn event_members<P>(s: Seq<Task<P>>) -> Seq<Task<P>> {
    s.filter(|t: Task<P>| event_class(t.event) != 2)
}

/// The background tasks of `s`, in arrival order.
pub open spec fn background_members<P>(s: Seq<Task<P>>) -> Seq<Task<P>> {
    s.filter(|t: Task<P>| event_class(t.event) == 2)
}

/// How one more task extends the non-background members.
pub proof fn lemma_event_members_push<P>(s: Seq<Task<P>>, x: Task<P>)
    ensures
        event_members(s.push(x)) == if event_class(x.event) != 2 {
            event_members(s).push(x)
        } else {
            event_members(s)
        },
{
    reveal_with_fuel(Seq::filter, 2);
    assert(s.push(x).drop_last() =~= s);
    assert(s.push(x).last() == x);
}

/// How one more task extends the background members.
pub proof fn lemma_background_members_push<P>(s: Seq<Task<P>>, x: Task<P>)
    ensures
        background_members(s.push(x)) == if event_class(x.event) == 2 {
            background_members(s).push(x)
        } else {
            background_members(s)
        },
{
    reveal_with_fuel(Seq::filter, 2);
    assert(s.push(x).drop_last() =~= s);
    assert(s.push(x).last() == x);
}

/// How one more task extends the poll failures.
pub proof fn lemma_poll_failures_push<P>(s: Seq<Task<P>>, x: Task<P>)
    ensures
        poll_failures(s.push(x)) == if !event_poll_ok(x.event) {
            poll_failures(s).push(x)
        } else {
            poll_failures(s)
        },
{
    reveal_with_fuel(Seq::filter, 2);
    assert(s.push(x).drop_last() =~= s);
    assert(s.push(x).last() == x);
}

/// How one more task extends the ready tasks of a tick.
pub proof fn lemma_ready_tasks_push<P>(
    s: Seq<Task<P>>,
    x: Task<P>,
    coils: Seq<bool>,
    discretes: Seq<bool>,
    now: u64,
)
    ensures
        ready_tasks(s.push(x), coils, discretes, now) == if event_fires(
            x.event,
            coils,
            discretes,
            now,
        ) {
            ready_tasks(s, coils, discretes, now).push(polled_task(x, coils, discretes))
        } else {
            ready_tasks(s, coils, discretes, now)
        },
{
    reveal_with_fuel(Seq::filter, 2);
    assert(s.push(x).drop_last() =~= s);
    assert(s.push(x).last() == x);
    if event_fires(x.event, coils, discretes, now) {
        assert(ready_tasks(s.push(x), coils, discretes, now) =~= ready_tasks(
            s,
            coils,
            discretes,
            now,
        ).push(polled_task(x, coils, discretes)));
    } else {
        assert(ready_tasks(s.push(x), coils, discretes, now) =~= ready_tasks(
            s,
            coils,
            discretes,
            now,
        ));
    }
}

/// How one more task extends the idle tasks of a tick.
pub proof fn lemma_idle_tasks_push<P>(
    s: Seq<Task<P>>,
    x: Task<P>,
    coils: Seq<bool>,
    discretes: Seq<bool>,
    now: u64,
)
    ensures
        idle_tasks(s.push(x), coils, discretes, now) == if !event_fires(
            x.event,
            coils,
            discretes,
            now,
        ) {
            idle_tasks(s, coils, discretes, now).push(polled_task(x, coils, discretes))
        } else {
            idle_tasks(s, coils, discretes, now)
        },
{
    reveal_with_fuel(Seq::filter, 2);
    assert(s.push(x).drop_last() =~= s);
    assert(s.push(x).last() == x);
    if !event_fires(x.event, coils, discretes, now) {
        assert(idle_tasks(s.push(x), coils, discretes, now) =~= idle_tasks(
            s,
            coils,
            discretes,
            now,
        ).push(polled_task(x, coils, discretes)));
    } else {
        assert(idle_tasks(s.push(x), coils, discretes, now) =~= idle_tasks(
            s,
            coils,
            discretes,
            now,
        ));
    }
}

/// Every polled event task lands in exactly one of the two groups: the
/// ready tasks and the idle tasks partition the pool.
pub proof fn lemma_ready_idle_partition<P>(
    s: Seq<Task<P>>,
    coils: Seq<bool>,
    discretes: Seq<bool>,
    now: u64,
)
    ensures
        ready_tasks(s, coils, discretes, now).len() + idle_tasks(s, coils, discretes, now).len()
            == s.len(),
    decreases s.len(),
{
    reveal_with_fuel(Seq::filter, 2);
    if s.len() == 0 {
        assert(s =~= Seq::<Task<P>>::empty());
    } else {
        let rest = s.drop_last();
        lemma_ready_idle_partition(rest, coils, discretes, now);
        assert(s =~= rest.push(s.last()));
        lemma_ready_tasks_push(rest, s.last(), coils, discretes, now);
        lemma_idle_tasks_push(rest, s.last(), coils, discretes, now);
    }
}

/// Pool partition: one readiness sweep puts every polled task in
/// exactly one of the two groups — together, the ready tasks and the
/// idle tasks are a permutation of the polled pool, so no task is lost
/// or duplicated.  With the sort permutation
/// (`lemma_stable_sorted_multiset`) and the exact pool sequences of
/// `run_iteration`, every task stands in exactly one of the three pools
/// after each iteration.
pub proof fn lemma_pool_partition<P>(
    s: Seq<Task<P>>,
    coils: Seq<bool>,
    discretes: Seq<bool>,
    now: u64,
)
    ensures
        ready_tasks(s, coils, discretes, now).to_multiset().add(
            idle_tasks(s, coils, discretes, now).to_multiset(),
        ) =~= polled_pool(s, coils, discretes).to_multiset(),
    decreases s.len(),
{
    broadcast use vstd::seq_lib::group_to_multiset_ensures;

    reveal_with_fuel(Seq::filter, 2);
    if s.len() == 0 {
        assert(s =~= Seq::<Task<P>>::empty());
        assert(ready_tasks(s, coils, discretes, now) =~= Seq::<Task<P>>::empty());
        assert(idle_tasks(s, coils, discretes, now) =~= Seq::<Task<P>>::empty());
        assert(polled_pool(s, coils, discretes) =~= Seq::<Task<P>>::empty());
    } else {
        let rest = s.drop_last();
        let last = s.last();
        lemma_pool_partition(rest, coils, discretes, now);
        assert(s =~= rest.push(last));
        lemma_ready_tasks_push(rest, last, coils, discretes, now);
        lemma_idle_tasks_push(rest, last, coils, discretes, now);
        assert(polled_pool(s, coils, discretes) =~= polled_pool(rest, coils, discretes).push(
            polled_task(last, coils, discretes),
        ));
    }
}

/// A pool none of whose tasks is ready contributes no ready tasks.
pub proof fn lemma_ready_tasks_none<P>(
    s: Seq<Task<P>>,
    coils: Seq<bool>,
    discretes: Seq<bool>,
    now: u64,
)
    requires
        forall|i: int|
            0 <= i < s.len() ==> !event_fires(#[trigger] s[i].event, coils, discretes, now),
    ensures
        ready_tasks(s, coils, discretes, now) == Seq::<Task<P>>::empty(),
    decreases s.len(),
{
    reveal_with_fuel(Seq::filter, 2);
    if s.len() == 0 {
        assert(s =~= Seq::<Task<P>>::empty());
        assert(ready_tasks(s, coils, discretes, now) =~= Seq::<Task<P>>::empty());
    } else {
        let rest = s.drop_last();
        assert(forall|i: int|
            0 <= i < rest.len() ==> rest[i] == s[i] && !event_fires(
                #[trigger] rest[i].event,
                coils,
                discretes,
                now,
            ));
        lemma_ready_tasks_none(rest, coils, discretes, now);
        assert(s =~= rest.push(s.last()));
        lemma_ready_tasks_push(rest, s.last(), coils, discretes, now);
    }
}

/// The names of a task sequence, in order.
pub open spec fn task_names<P>(s: Seq<Task<P>>) -> Seq<&'static str> {
    s.map_values(|t: Task<P>| t.name)
}

/// `task_names` distributes over concatenation.
proof fn lemma_task_names_concat<P>(a: Seq<Task<P>>, b: Seq<Task<P>>)
    ensures
        task_names(a + b) == task_names(a) + task_names(b),
{
    assert(task_names(a + b) =~= task_names(a) + task_names(b));
}

/// A permutation of tasks is a permutation of their names.
proof fn lemma_task_names_permutation<P>(a: Seq<Task<P>>, b: Seq<Task<P>>)
    requires
        a.to_multiset() == b.to_multiset(),
    ensures
        task_names(a).to_multiset() =~= task_names(b).to_multiset(),
    decreases a.len(),
{
    broadcast use vstd::seq_lib::group_to_multiset_ensures;
    broadcast use vstd::multiset::group_multiset_axioms;

    if a.len() == 0 {
        assert(b.to_multiset().len() == 0);
        assert(b.len() == 0);
        assert(task_names(a) =~= Seq::<&'static str>::empty());
        assert(task_names(b) =~= Seq::<&'static str>::empty());
    } else {
        let x = a.last();
        assert(a.contains(x)) by {
            assert(a[a.len() - 1] == x);
        }
        assert(b.to_multiset().count(x) > 0);
        assert(b.contains(x));
        let i = choose|i: int| 0 <= i < b.len() && b[i] == x;
        assert(a =~= a.drop_last().push(x));
        assert(a.to_multiset() =~= a.drop_last().to_multiset().insert(x));
        assert(b.remove(i).to_multiset() =~= b.to_multiset().remove(x));
        assert(a.drop_last().to_multiset() =~= b.remove(i).to_multiset());
        lemma_task_names_permutation(a.drop_last(), b.remove(i));

        assert(task_names(a) =~= task_names(a.drop_last()).push(x.name));
        assert(task_names(b.remove(i)) =~= task_names(b).remove(i));
        assert(task_names(b).remove(i).to_multiset() =~= task_names(b).to_multiset().remove(
            task_names(b)[i],
        ));
        assert(task_names(b)[i] == x.name);
        assert(task_names(b).to_multiset().count(x.name) > 0) by {
            assert(task_names(b).contains(task_names(b)[i]));
        }
        assert(task_names(a).to_multiset() =~= task_names(a.drop_last()).to_multiset().insert(
            x.name,
        ));
        assert(task_names(a).to_multiset() =~= task_names(b).to_multiset());
    }
}

/// The names of one readiness sweep's two groups together are the names
/// of the pool.
proof fn lemma_names_partition<P>(
    s: Seq<Task<P>>,
    coils: Seq<bool>,
    discretes: Seq<bool>,
    now: u64,
)
    ensures
        task_names(ready_tasks(s, coils, discretes, now)).to_multiset().add(
            task_names(idle_tasks(s, coils, discretes, now)).to_multiset(),
        ) =~= task_names(s).to_multiset(),
    decreases s.len(),
{
    broadcast use vstd::seq_lib::group_to_multiset_ensures;
    broadcast use vstd::multiset::group_multiset_axioms;

    reveal_with_fuel(Seq::filter, 2);
    if s.len() == 0 {
        assert(s =~= Seq::<Task<P>>::empty());
        assert(ready_tasks(s, coils, discretes, now) =~= Seq::<Task<P>>::empty());
        assert(idle_tasks(s, coils, discretes, now) =~= Seq::<Task<P>>::empty());
        assert(task_names(ready_tasks(s, coils, discretes, now)) =~= Seq::<&'static str>::empty());
        assert(task_names(idle_tasks(s, coils, discretes, now)) =~= Seq::<&'static str>::empty());
        assert(task_names(s) =~= Seq::<&'static str>::empty());
    } else {
        let rest = s.drop_last();
        let last = s.last();
        lemma_names_partition(rest, coils, discretes, now);
        assert(s =~= rest.push(last));
        lemma_ready_tasks_push(rest, last, coils, discretes, now);
        lemma_idle_tasks_push(rest, last, coils, discretes, now);
        assert(task_names(s) =~= task_names(rest).push(last.name));
        if event_fires(last.event, coils, discretes, now) {
            assert(task_names(ready_tasks(s, coils, discretes, now)) =~= task_names(
                ready_tasks(rest, coils, discretes, now),
            ).push(last.name));
        } else {
            assert(task_names(idle_tasks(s, coils, discretes, now)) =~= task_names(
                idle_tasks(rest, coils, discretes, now),
            ).push(last.name));
        }
    }
}

/// The scheduler: the event pool, the background pool (sorted once at
/// construction), the call stack, and the shared register context.
pub struct Plc<P> {
    pub event_pool: Vec<Task<P>>,
    pub background_pool: Vec<Task<P>>,
    pub context: ModbusContext,
    pub call_stack: Vec<Task<P>>,
}

impl<P: MutProgram> Plc<P> {
    /// Background progress: when no event task is ready and nothing is
    /// mid-activation, the task this tick steps is exactly the head of
    /// the background pool, and the pool shrinks by that head.  Together
    /// with `run_iteration` returning a completed background task to the
    /// tail of the pool, each background task is dispatched within as
    /// many idle ticks as the pool holds tasks: none starves.
    pub proof fn lemma_background_progress(self, now: u64)
        requires
            forall|i: int|
                0 <= i < self.event_pool@.len() ==> !event_fires(
                    #[trigger] self.event_pool@[i].event,
                    self.context.coils@,
                    self.context.discretes@,
                    now,
                ),
            self.call_stack@.len() == 0,
            self.background_pool@.len() > 0,
        ensures
            self.sorted_stack(now) == seq![self.background_pool@[0]],
            self.promoted(now).1 == self.background_pool@.drop_first(),
    {
        lemma_ready_tasks_none(
            self.event_pool@,
            self.context.coils@,
            self.context.discretes@,
            now,
        );
        assert(self.call_stack@ + ready_tasks(
            self.event_pool@,
            self.context.coils@,
            self.context.discretes@,
            now,
        ) =~= Seq::<Task<P>>::empty());
        assert(self.promoted(now).0 =~= seq![self.background_pool@[0]]);
        crate::task::sort::lemma_stable_sorted_singleton(self.background_pool@[0]);
    }

    /// Priority dominance over one tick: in the stack this tick steps
    /// from, a non-background task stands strictly before every task of
    /// the same class with a larger priority number — and
    /// `run_iteration` steps only the head, so the lower number runs
    /// first.
    pub proof fn lemma_tick_priority_dominance(self, now: u64, i: int, j: int)
        requires
            0 <= i < self.sorted_stack(now).len(),
            0 <= j < self.sorted_stack(now).len(),
            event_class(self.sorted_stack(now)[i].event) == event_class(
                self.sorted_stack(now)[j].event,
            ),
            self.sorted_stack(now)[i].priority < self.sorted_stack(now)[j].priority,
        ensures
            i < j,
    {
        crate::task::sort::lemma_stable_sorted_sorted(self.promoted(now).0);
        crate::task::sort::lemma_priority_dominance(self.sorted_stack(now), i, j);
    }

    /// Every task name the scheduler holds, over all three pools.  One
    /// iteration preserves this multiset: each task stays in exactly one
    /// pool, none is lost or duplicated.
    pub open spec fn names_multiset(self) -> Multiset<&'static str> {
        task_names(self.event_pool@).to_multiset().add(
            task_names(self.background_pool@).to_multiset(),
        ).add(task_names(self.call_stack@).to_multiset())
    }

    /// The call stack after this tick's promotions, before sorting, and
    /// the background pool it leaves behind: every ready event task joins
    /// the stack; if the stack would stay empty, the head background task
    /// is promoted instead.
    pub open spec fn promoted(self, now: u64) -> (Seq<Task<P>>, Seq<Task<P>>) {
        let mid = self.call_stack@ + ready_tasks(
            self.event_pool@,
            self.context.coils@,
            self.context.discretes@,
            now,
        );
        if mid.len() == 0 && self.background_pool@.len() > 0 {
            (mid.push(self.background_pool@[0]), self.background_pool@.drop_first())
        } else {
            (mid, self.background_pool@)
        }
    }

    /// The call stack this tick steps from: the promoted stack, stably
    /// sorted by `(event class, priority)`.
    pub open spec fn sorted_stack(self, now: u64) -> Seq<Task<P>> {
        stable_sorted(self.promoted(now).0)
    }

    /// Build a scheduler over `tasks`: background tasks go to the
    /// background pool, sorted by the task order; all others to the event
    /// pool in the given order.  The register context starts zeroed.
    pub fn new(tasks: Vec<Task<P>>) -> (r: Self)
        ensures
            r.event_pool@ == event_members(tasks@),
            r.background_pool@ == stable_sorted(background_members(tasks@)),
            r.call_stack@.len() == 0,
            r.context.coils@ =~= Seq::new(crate::modbus::context::CONTEXT_SIZE as nat, |i: int| false),
            r.context.discretes@ =~= Seq::new(
                crate::modbus::context::CONTEXT_SIZE as nat,
                |i: int| false,
            ),
            r.context.holdings@ =~= Seq::new(
                crate::modbus::context::CONTEXT_SIZE as nat,
                |i: int| 0u16,
            ),
            r.context.inputs@ =~= Seq::new(
                crate::modbus::context::CONTEXT_SIZE as nat,
                |i: int| 0u16,
            ),
    {
        let context = ModbusContext::new();

        let mut tasks = tasks;
        let ghost orig = tasks@;
        let mut event_pool: Vec<Task<P>> = Vec::new();
        let mut background_pool: Vec<Task<P>> = Vec::new();

        proof {
            reveal_with_fuel(Seq::filter, 2);
            assert(orig.subrange(0, 0) =~= Seq::<Task<P>>::empty());
        }

        let total = tasks.len();
        let mut k: usize = 0;
        while tasks.len() > 0
            invariant
                tasks@ == orig.subrange(k as int, total as int),
                k as int + tasks@.len() == total as int,
                total == orig.len(),
                event_pool@ == event_members(orig.subrange(0, k as int)),
                background_pool@ == background_members(orig.subrange(0, k as int)),
            decreases tasks@.len(),
        {
            proof {
                assert(orig.subrange(k as int, total as int)[0] == orig[k as int]);
            }
            let t = tasks.remove(0);
            proof {
                assert(t == orig[k as int]);
                assert(orig.subrange(0, (k + 1) as int) =~= orig.subrange(0, k as int).push(
                    orig[k as int],
                ));
                lemma_event_members_push(orig.subrange(0, k as int), orig[k as int]);
                lemma_background_members_push(orig.subrange(0, k as int), orig[k as int]);
                assert(tasks@ =~= orig.subrange((k + 1) as int, total as int));
            }
            match t.event {
                Event::Background => background_pool.push(t),
                _ => event_pool.push(t),
            }
            k += 1;
        }
        proof {
            assert(orig.subrange(0, total as int) =~= orig);
        }

        sort_tasks(&mut background_pool);

        Self { event_pool, background_pool, context, call_stack: Vec::new() }
    }

    /// Promote this tick's ready tasks onto the call stack and sort it.
    ///
    /// Every event task is polled once; ready ones move to the call stack
    /// in arrival order, the rest stay, and a task whose poll fails stays
    /// and contributes an error to the returned list (the tick goes on).
    /// If the stack would stay empty and a background task exists, the
    /// head of the background pool is promoted.  The stack is then stably
    /// sorted by `(event class, priority)`.
    pub fn set_call_stack(&mut self, now_ns: u64) -> (errs: Vec<PlcError>)
        ensures
            final(self).event_pool@ == idle_tasks(
                old(self).event_pool@,
                old(self).context.coils@,
                old(self).context.discretes@,
                now_ns,
            ),
            final(self).background_pool@ == old(self).promoted(now_ns).1,
            final(self).call_stack@ == stable_sorted(old(self).promoted(now_ns).0),
            final(self).context == old(self).context,
            errs@.len() == poll_failures(old(self).event_pool@).len(),
    {
        let ghost orig_pool = self.event_pool@;
        let ghost co = self.context.coils@;
        let ghost di = self.context.discretes@;
        let ghost orig_stack = self.call_stack@;
        let mut errs: Vec<PlcError> = Vec::new();
        let mut remaining: Vec<Task<P>> = Vec::new();

        proof {
            reveal_with_fuel(Seq::filter, 2);
            assert(orig_pool.subrange(0, 0) =~= Seq::<Task<P>>::empty());
        }

        let total = self.event_pool.len();
        let mut k: usize = 0;
        while self.event_pool.len() > 0
            invariant
                self.event_pool@ == orig_pool.subrange(k as int, total as int),
                k as int + self.event_pool@.len() == total as int,
                total == orig_pool.len(),
                remaining@ == idle_tasks(orig_pool.subrange(0, k as int), co, di, now_ns),
                self.call_stack@ == orig_stack + ready_tasks(
                    orig_pool.subrange(0, k as int),
                    co,
                    di,
                    now_ns,
                ),
                errs@.len() == poll_failures(orig_pool.subrange(0, k as int)).len(),
                self.context == old(self).context,
                co == self.context.coils@,
                di == self.context.discretes@,
                self.background_pool == old(self).background_pool,
            decreases self.event_pool@.len(),
        {
            proof {
                assert(orig_pool.subrange(k as int, total as int)[0] == orig_pool[k as int]);
            }
            let mut t = self.event_pool.remove(0);
            proof {
                assert(t == orig_pool[k as int]);
            }
            let verdict = t.need_run(&self.context, now_ns);
            proof {
                assert(orig_pool.subrange(0, (k + 1) as int) =~= orig_pool.subrange(
                    0,
                    k as int,
                ).push(orig_pool[k as int]));
                lemma_ready_tasks_push(
                    orig_pool.subrange(0, k as int),
                    orig_pool[k as int],
                    co,
                    di,
                    now_ns,
                );
                lemma_idle_tasks_push(
                    orig_pool.subrange(0, k as int),
                    orig_pool[k as int],
                    co,
                    di,
                    now_ns,
                );
                lemma_poll_failures_push(orig_pool.subrange(0, k as int), orig_pool[k as int]);
                assert(self.event_pool@ =~= orig_pool.subrange((k + 1) as int, total as int));
            }
            match verdict {
                Ok(true) => {
                    proof {
                        assert(t == polled_task(orig_pool[k as int], co, di));
                    }
                    self.call_stack.push(t);
                },
                Ok(false) => {
                    proof {
                        assert(t == polled_task(orig_pool[k as int], co, di));
                    }
                    remaining.push(t);
                },
                Err(e) => {
                    proof {
                        assert(t == orig_pool[k as int]);
                        assert(t == polled_task(orig_pool[k as int], co, di));
                    }
                    errs.push(e);
                    remaining.push(t);
                },
            }
            k += 1;
        }
        proof {
            assert(orig_pool.subrange(0, total as int) =~= orig_pool);
        }
        self.event_pool = remaining;

        if self.call_stack.len() == 0 && self.background_pool.len() > 0 {
            let t = self.background_pool.remove(0);
            self.call_stack.push(t);
            proof {
                assert(self.call_stack@ =~= (orig_stack + ready_tasks(
                    orig_pool,
                    co,
                    di,
                    now_ns,
                )).push(old(self).background_pool@[0]));
            }
        }

        sort_tasks(&mut self.call_stack);

        errs
    }

    /// Send a finished task back to the pool it belongs to: background
    /// tasks to the tail of the background pool, all others to the tail
    /// of the event pool.
    fn return_task(&mut self, task: Task<P>)
        ensures
            final(self).context == old(self).context,
            final(self).call_stack == old(self).call_stack,
            event_class(task.event) == 2 ==> final(self).background_pool@ == old(self).background_pool@.push(task) && final(self).event_pool == old(self).event_pool,
            event_class(task.event) != 2 ==> final(self).event_pool@ == old(self).event_pool@.push(task) && final(self).background_pool == old(self).background_pool,
    {
        match task.event {
            Event::Background => self.background_pool.push(task),
            _ => self.event_pool.push(task),
        }
    }

    /// One scheduler iteration: promote and sort (`set_call_stack`), then
    /// advance the head of the call stack by exactly one program step.
    ///
    /// A step that leaves its activation in progress keeps the task at the
    /// head with its cursor advanced; a completed activation returns the
    /// task to its pool; a failed step does the same with the cursor reset
    /// to 0 and its error reported.  Tasks other than the head are not
    /// touched.  The returned errors are this tick's poll failures, then
    /// the step failure if one occurred.
    pub fn run_iteration(&mut self, now_ns: u64) -> (errs: Vec<ReportedError>)
        ensures
            ({
                let s = old(self).sorted_stack(now_ns);
                let pool1 = idle_tasks(
                    old(self).event_pool@,
                    old(self).context.coils@,
                    old(self).context.discretes@,
                    now_ns,
                );
                let bg1 = old(self).promoted(now_ns).1;
                &&& s.len() == 0 ==> {
                    &&& final(self).call_stack@.len() == 0
                    &&& final(self).event_pool@ == pool1
                    &&& final(self).background_pool@ == bg1
                    &&& final(self).context == old(self).context
                }
                &&& s.len() > 0 && final(self).call_stack@.len() == s.len() ==> {
                    &&& final(self).call_stack@.skip(1) == s.skip(1)
                    &&& final(self).call_stack@[0].name == s[0].name
                    &&& final(self).call_stack@[0].priority == s[0].priority
                    &&& final(self).call_stack@[0].event == s[0].started_event(now_ns)
                    &&& (final(self).call_stack@[0].next_program as int) == next_cursor(
                        s[0].next_program,
                        s[0].programs.len() as int,
                    )
                    &&& final(self).call_stack@[0].next_program != 0
                    &&& final(self).event_pool@ == pool1
                    &&& final(self).background_pool@ == bg1
                }
                &&& s.len() > 0 ==> final(self).call_stack@.len() == s.len() || final(self).call_stack@.len() == s.len() - 1
                &&& s.len() > 0 && final(self).call_stack@.len() == s.len() - 1 ==> {
                    &&& final(self).call_stack@ == s.skip(1)
                    &&& event_class(s[0].event) == 2 ==> {
                        &&& final(self).event_pool@ == pool1
                        &&& final(self).background_pool@.len() == bg1.len() + 1
                        &&& final(self).background_pool@.subrange(0, bg1.len() as int) == bg1
                        &&& final(self).background_pool@.last().name == s[0].name
                        &&& final(self).background_pool@.last().next_program == 0
                    }
                    &&& event_class(s[0].event) != 2 ==> {
                        &&& final(self).background_pool@ == bg1
                        &&& final(self).event_pool@.len() == pool1.len() + 1
                        &&& final(self).event_pool@.subrange(0, pool1.len() as int) == pool1
                        &&& final(self).event_pool@.last().name == s[0].name
                        &&& final(self).event_pool@.last().next_program == 0
                    }
                }
                &&& final(self).event_pool@.len() + final(self).background_pool@.len() + final(self).call_stack@.len() == old(self).event_pool@.len() + old(self).background_pool@.len() + old(self).call_stack@.len()
                &&& errs@.len() == poll_failures(old(self).event_pool@).len() || errs@.len()
                    == poll_failures(old(self).event_pool@).len() + 1
                &&& forall|i: int|
                    0 <= i < poll_failures(old(self).event_pool@).len() && i < errs@.len()
                        ==> (#[trigger] errs@[i]).task is None
                &&& errs@.len() == poll_failures(old(self).event_pool@).len() + 1 ==> s.len() > 0
                    && errs@.last().task == Some(s[0].name)
                &&& final(self).names_multiset() =~= old(self).names_multiset()
            }),
    {
        proof {
            lemma_ready_idle_partition(
                old(self).event_pool@,
                old(self).context.coils@,
                old(self).context.discretes@,
                now_ns,
            );
            crate::task::sort::lemma_stable_sorted_multiset(old(self).promoted(now_ns).0);
            vstd::prelude::Seq::to_multiset_ensures(old(self).promoted(now_ns).0);
            vstd::prelude::Seq::to_multiset_ensures(stable_sorted(old(self).promoted(now_ns).0));
        }
        let mut poll_errs = self.set_call_stack(now_ns);
        proof {
            broadcast use vstd::seq_lib::group_to_multiset_ensures;
            broadcast use vstd::multiset::group_multiset_axioms;

            let co = old(self).context.coils@;
            let di = old(self).context.discretes@;
            let ep0 = old(self).event_pool@;
            let bg0 = old(self).background_pool@;
            let cs0 = old(self).call_stack@;
            let rt = ready_tasks(ep0, co, di, now_ns);
            let mid = old(self).promoted(now_ns).0;
            lemma_names_partition(ep0, co, di, now_ns);
            lemma_task_names_permutation(stable_sorted(mid), mid);
            if (cs0 + rt).len() == 0 && bg0.len() > 0 {
                assert(cs0 =~= Seq::<Task<P>>::empty());
                assert(rt =~= Seq::<Task<P>>::empty());
                assert(task_names(cs0) =~= Seq::<&'static str>::empty());
                assert(task_names(rt) =~= Seq::<&'static str>::empty());
                assert(mid =~= Seq::<Task<P>>::empty().push(bg0[0]));
                assert(task_names(mid) =~= Seq::<&'static str>::empty().push(bg0[0].name));
                assert(bg0 =~= seq![bg0[0]] + bg0.drop_first());
                lemma_task_names_concat(seq![bg0[0]], bg0.drop_first());
                vstd::seq_lib::lemma_multiset_commutative(
                    task_names(seq![bg0[0]]),
                    task_names(bg0.drop_first()),
                );
                assert(task_names(seq![bg0[0]]) =~= Seq::<&'static str>::empty().push(bg0[0].name));
                assert(self.names_multiset() =~= old(self).names_multiset());
            } else {
                assert(mid == cs0 + rt);
                lemma_task_names_concat(cs0, rt);
                vstd::seq_lib::lemma_multiset_commutative(task_names(cs0), task_names(rt));
                assert(self.names_multiset() =~= old(self).names_multiset());
            }
        }
        let mut errs: Vec<ReportedError> = Vec::new();
        let ghost n_polls = poll_errs@.len();
        while poll_errs.len() > 0
            invariant
                errs@.len() + poll_errs@.len() == n_polls,
                forall|i: int| 0 <= i < errs@.len() ==> (#[trigger] errs@[i]).task is None,
            decreases poll_errs@.len(),
        {
            let e = poll_errs.remove(0);
            errs.push(ReportedError { task: None, error: e });
        }

        if self.call_stack.len() == 0 {
            return errs;
        }

        let ghost s = old(self).sorted_stack(now_ns);
        let mut task = self.call_stack.remove(0);
        proof {
            assert(task == s[0]);
            assert(self.call_stack@ =~= s.skip(1));
        }
        proof {
            broadcast use vstd::seq_lib::group_to_multiset_ensures;
            broadcast use vstd::multiset::group_multiset_axioms;

            assert(s =~= seq![s[0]] + s.skip(1));
            lemma_task_names_concat(seq![s[0]], s.skip(1));
            vstd::seq_lib::lemma_multiset_commutative(task_names(seq![s[0]]), task_names(s.skip(1)));
            assert(task_names(seq![s[0]]) =~= Seq::<&'static str>::empty().push(s[0].name));
        }
        let outcome = task.run(&mut self.context, now_ns);
        match outcome {
            Ok(next) => {
                if next != 0 {
                    self.call_stack.insert(0, task);
                    proof {
                        broadcast use vstd::seq_lib::group_to_multiset_ensures;
                        broadcast use vstd::multiset::group_multiset_axioms;

                        assert(self.call_stack@.skip(1) =~= s.skip(1));
                        assert(task_names(self.call_stack@) =~= task_names(s)) by {
                            assert(self.call_stack@.len() == s.len());
                            assert(forall|k: int|
                                1 <= k < s.len() ==> #[trigger] self.call_stack@[k] == s.skip(
                                    1,
                                )[k - 1] && self.call_stack@[k] == s[k]);
                            assert(self.call_stack@[0].name == s[0].name);
                        }
                        assert(self.names_multiset() =~= old(self).names_multiset());
                    }
                } else {
                    let ghost returned = task;
                    let ghost pre_ep = self.event_pool@;
                    let ghost pre_bg = self.background_pool@;
                    proof {
                        assert(returned.name == s[0].name);
                    }
                    self.return_task(task);
                    proof {
                        broadcast use vstd::seq_lib::group_to_multiset_ensures;
                        broadcast use vstd::multiset::group_multiset_axioms;

                        if event_class(returned.event) == 2 {
                            assert(self.background_pool@ == pre_bg.push(returned));
                            assert(task_names(pre_bg.push(returned)) =~= task_names(pre_bg).push(
                                returned.name,
                            ));
                        } else {
                            assert(self.event_pool@ == pre_ep.push(returned));
                            assert(task_names(pre_ep.push(returned)) =~= task_names(pre_ep).push(
                                returned.name,
                            ));
                        }
                        assert(self.names_multiset() =~= old(self).names_multiset());
                    }
                }
            },
            Err(e) => {
                errs.push(ReportedError { task: Some(task.get_name()), error: e });
                task.next_program = 0;
                let ghost returned = task;
                let ghost pre_ep = self.event_pool@;
                let ghost pre_bg = self.background_pool@;
                proof {
                    assert(returned.name == s[0].name);
                }
                self.return_task(task);
                proof {
                    broadcast use vstd::seq_lib::group_to_multiset_ensures;
                    broadcast use vstd::multiset::group_multiset_axioms;

                    if event_class(returned.event) == 2 {
                        assert(self.background_pool@ == pre_bg.push(returned));
                        assert(task_names(pre_bg.push(returned)) =~= task_names(pre_bg).push(
                            returned.name,
                        ));
                    } else {
                        assert(self.event_pool@ == pre_ep.push(returned));
                        assert(task_names(pre_ep.push(returned)) =~= task_names(pre_ep).push(
                            returned.name,
                        ));
                    }
                    assert(self.names_multiset() =~= old(self).names_multiset());
                }
            },
        }
        errs
    }
}

} // verus!
