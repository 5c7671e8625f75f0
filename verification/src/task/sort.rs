//! The scheduling order of tasks and a verified stable sort for it.
//!
//! Tasks order by `(event class, priority)`: non-background tasks before
//! background ones, lower priority numbers first.  The executable sort is
//! proved equal to `stable_sorted`, an insertion-based specification that
//! keeps arrival order among equal keys; sortedness, permutation and
//! stability are proved of that specification below.

use vstd::prelude::*;
use vstd::multiset::Multiset;

use super::event_class;
use super::Event;
use super::Task;

verus! {

/// Scheduling order: by event class, then by priority.  Total and
/// transitive; tasks with equal keys compare both ways.
pub open spec fn task_le<P>(a: Task<P>, b: Task<P>) -> bool {
    event_class(a.event) < event_class(b.event) || (event_class(a.event) == event_class(b.event)
        && a.priority <= b.priority)
}

/// `x` inserted into `s` behind every element that sorts at or before
/// it — the slot a stable sort gives the latest arrival among equals.
pub open spec fn insert_stable<P>(s: Seq<Task<P>>, x: Task<P>) -> Seq<Task<P>>
    decreases s.len(),
{
    if s.len() == 0 {
        seq![x]
    } else if task_le(s.first(), x) {
        seq![s.first()] + insert_stable(s.drop_first(), x)
    } else {
        seq![x] + s
    }
}

/// The stable sort of `s` under `task_le`: every element inserted, in
/// arrival order, behind its equals.
pub open spec fn stable_sorted<P>(s: Seq<Task<P>>) -> Seq<Task<P>>
    decreases s.len(),
{
    if s.len() == 0 {
        Seq::empty()
    } else {
        insert_stable(stable_sorted(s.drop_last()), s.last())
    }
}

/// Pairwise sortedness under `task_le`.
pub open spec fn sorted<P>(s: Seq<Task<P>>) -> bool {
    forall|i: int, j: int| 0 <= i <= j < s.len() ==> task_le(s[i], s[j])
}

/// The subsequence of `s` with scheduling key exactly `(class, priority)`,
/// in the order of `s`.
pub open spec fn with_key<P>(s: Seq<Task<P>>, class: int, priority: u8) -> Seq<Task<P>> {
    s.filter(|t: Task<P>| event_class(t.event) == class && t.priority == priority)
}

/// Every element of `insert_stable(s, x)` is an element of `s` or is `x`.
proof fn lemma_insert_stable_contains<P>(s: Seq<Task<P>>, x: Task<P>, e: Task<P>)
    requires
        insert_stable(s, x).contains(e),
    ensures
        s.contains(e) || e == x,
    decreases s.len(),
{
    if s.len() == 0 {
    } else if task_le(s.first(), x) {
        let r = insert_stable(s, x);
        let i = choose|i: int| 0 <= i < r.len() && r[i] == e;
        if i == 0 {
            assert(s[0] == e);
        } else {
            assert(insert_stable(s.drop_first(), x)[i - 1] == e);
            lemma_insert_stable_contains(s.drop_first(), x, e);
            if s.drop_first().contains(e) {
                let j = choose|j: int| 0 <= j < s.drop_first().len() && s.drop_first()[j] == e;
                assert(s[j + 1] == e);
            }
        }
    } else {
        let r = insert_stable(s, x);
        let i = choose|i: int| 0 <= i < r.len() && r[i] == e;
        if i > 0 {
            assert(s[i - 1] == e);
        }
    }
}

/// Inserting into a sorted sequence keeps it sorted.
proof fn lemma_insert_stable_sorted<P>(s: Seq<Task<P>>, x: Task<P>)
    requires
        sorted(s),
    ensures
        sorted(insert_stable(s, x)),
    decreases s.len(),
{
    if s.len() == 0 {
    } else if task_le(s.first(), x) {
        let rest = s.drop_first();
        assert(sorted(rest)) by {
            assert(forall|i: int, j: int|
                0 <= i <= j < rest.len() ==> rest[i] == s[i + 1] && rest[j] == s[j + 1]);
        }
        lemma_insert_stable_sorted(rest, x);
        let r = insert_stable(s, x);
        let tail = insert_stable(rest, x);
        assert(r == seq![s.first()] + tail);
        assert forall|i: int, j: int| 0 <= i <= j < r.len() implies task_le(r[i], r[j]) by {
            if i == 0 && j > 0 {
                assert(r[j] == tail[j - 1]);
                assert(tail.contains(tail[j - 1]));
                lemma_insert_stable_contains(rest, x, tail[j - 1]);
                if rest.contains(tail[j - 1]) {
                    let k = choose|k: int|
                        0 <= k < rest.len() && rest[k] == tail[j - 1];
                    assert(rest[k] == s[k + 1]);
                    assert(task_le(s[0], s[k + 1]));
                }
            } else if i > 0 {
                assert(r[i] == tail[i - 1] && r[j] == tail[j - 1]);
            }
        }
    } else {
        let r = insert_stable(s, x);
        assert(r == seq![x] + s);
        assert(!task_le(s.first(), x));
        assert forall|i: int, j: int| 0 <= i <= j < r.len() implies task_le(r[i], r[j]) by {
            if i == 0 && j > 0 {
                assert(r[j] == s[j - 1]);
                assert(task_le(s[0], s[j - 1]));
                assert(task_le(x, s[0]));
            } else if i > 0 {
                assert(r[i] == s[i - 1] && r[j] == s[j - 1]);
            }
        }
    }
}

/// `insert_stable` adds exactly `x` to the contents of `s`.
proof fn lemma_insert_stable_multiset<P>(s: Seq<Task<P>>, x: Task<P>)
    ensures
        insert_stable(s, x).to_multiset() =~= s.to_multiset().insert(x),
    decreases s.len(),
{
    broadcast use vstd::seq_lib::group_to_multiset_ensures;

    if s.len() == 0 {
        assert(insert_stable(s, x) =~= Seq::empty().push(x));
        assert(s.to_multiset() =~= Multiset::empty());
    } else if task_le(s.first(), x) {
        lemma_insert_stable_multiset(s.drop_first(), x);
        let r = insert_stable(s, x);
        assert(r == seq![s.first()] + insert_stable(s.drop_first(), x));
        vstd::seq_lib::lemma_multiset_commutative(seq![s.first()], insert_stable(s.drop_first(), x));
        assert(seq![s.first()].to_multiset() =~= Multiset::empty().insert(s.first()));
        vstd::seq_lib::lemma_multiset_commutative(seq![s.first()], s.drop_first());
        assert(s =~= seq![s.first()] + s.drop_first());
    } else {
        let r = insert_stable(s, x);
        assert(r == seq![x] + s);
        vstd::seq_lib::lemma_multiset_commutative(seq![x], s);
        assert(seq![x].to_multiset() =~= Multiset::empty().insert(x));
    }
}

/// A filter of a sequence none of whose elements satisfies the predicate
/// is empty.
proof fn lemma_filter_none<P>(s: Seq<Task<P>>, pred: spec_fn(Task<P>) -> bool)
    requires
        forall|i: int| 0 <= i < s.len() ==> !pred(s[i]),
    ensures
        s.filter(pred) == Seq::<Task<P>>::empty(),
    decreases s.len(),
{
    reveal_with_fuel(Seq::filter, 2);
    if s.len() == 0 {
    } else {
        lemma_filter_none(s.drop_last(), pred);
    }
}

/// The filter of a one-element sequence.
proof fn lemma_filter_singleton<P>(x: Task<P>, pred: spec_fn(Task<P>) -> bool)
    ensures
        seq![x].filter(pred) == if pred(x) {
            seq![x]
        } else {
            Seq::<Task<P>>::empty()
        },
{
    reveal_with_fuel(Seq::filter, 2);
    assert(seq![x].drop_last() =~= Seq::<Task<P>>::empty());
    assert(seq![x].last() == x);
    if pred(x) {
        assert(seq![x].filter(pred) =~= Seq::<Task<P>>::empty().push(x));
        assert(Seq::<Task<P>>::empty().push(x) =~= seq![x]);
    }
}

/// `insert_stable` into a sorted sequence appends `x` to its key class
/// and leaves every other key class unchanged.
proof fn lemma_insert_stable_with_key<P>(s: Seq<Task<P>>, x: Task<P>, class: int, priority: u8)
    requires
        sorted(s),
    ensures
        with_key(insert_stable(s, x), class, priority) == if event_class(x.event) == class
            && x.priority == priority {
            with_key(s, class, priority).push(x)
        } else {
            with_key(s, class, priority)
        },
    decreases s.len(),
{
    broadcast use vstd::prelude::Seq::filter_distributes_over_add;

    reveal_with_fuel(Seq::filter, 2);
    let pred = |t: Task<P>| event_class(t.event) == class && t.priority == priority;
    lemma_filter_singleton(x, pred);
    if s.len() == 0 {
        assert(insert_stable(s, x) =~= seq![x]);
        assert(s.filter(pred) =~= Seq::<Task<P>>::empty());
        if pred(x) {
            assert(seq![x] =~= Seq::<Task<P>>::empty().push(x));
        }
    } else if task_le(s.first(), x) {
        let rest = s.drop_first();
        assert(sorted(rest)) by {
            assert(forall|i: int, j: int|
                0 <= i <= j < rest.len() ==> rest[i] == s[i + 1] && rest[j] == s[j + 1]);
        }
        lemma_insert_stable_with_key(rest, x, class, priority);
        let head = seq![s.first()];
        lemma_filter_singleton(s.first(), pred);
        assert(insert_stable(s, x) == head + insert_stable(rest, x));
        assert(s =~= head + rest);
        assert((head + rest).filter(pred) == head.filter(pred) + rest.filter(pred));
        assert((head + insert_stable(rest, x)).filter(pred) == head.filter(pred) + insert_stable(
            rest,
            x,
        ).filter(pred));
        if pred(x) {
            assert(with_key(insert_stable(rest, x), class, priority) == with_key(
                rest,
                class,
                priority,
            ).push(x));
            assert(head.filter(pred) + with_key(rest, class, priority).push(x) =~= (head.filter(
                pred,
            ) + with_key(rest, class, priority)).push(x));
        }
    } else {
        // x sorts strictly before the head, so nothing in s shares a key
        // with x; its key class in s is empty.
        let r = insert_stable(s, x);
        assert(r == seq![x] + s);
        assert((seq![x] + s).filter(pred) == seq![x].filter(pred) + s.filter(pred));
        if pred(x) {
            assert forall|i: int| 0 <= i < s.len() implies !pred(s[i]) by {
                assert(task_le(s[0], s[i]));
                assert(!task_le(s[0], x));
            }
            lemma_filter_none(s, pred);
            assert(seq![x] + Seq::<Task<P>>::empty() =~= Seq::<Task<P>>::empty().push(x));
        } else {
            assert(Seq::<Task<P>>::empty() + s.filter(pred) =~= s.filter(pred));
        }
    }
}

/// The sorted stack is sorted.  (Half of the call-stack ordering law;
/// the other half is `lemma_stable_sorted_stability`.)
pub proof fn lemma_stable_sorted_sorted<P>(s: Seq<Task<P>>)
    ensures
        sorted(stable_sorted(s)),
    decreases s.len(),
{
    if s.len() == 0 {
    } else {
        lemma_stable_sorted_sorted(s.drop_last());
        lemma_insert_stable_sorted(stable_sorted(s.drop_last()), s.last());
    }
}

/// Sorting neither loses, duplicates, nor invents a task.
pub proof fn lemma_stable_sorted_multiset<P>(s: Seq<Task<P>>)
    ensures
        stable_sorted(s).to_multiset() =~= s.to_multiset(),
    decreases s.len(),
{
    broadcast use vstd::seq_lib::group_to_multiset_ensures;

    if s.len() == 0 {
    } else {
        lemma_stable_sorted_multiset(s.drop_last());
        lemma_insert_stable_multiset(stable_sorted(s.drop_last()), s.last());
        assert(s =~= s.drop_last().push(s.last()));
    }
}

/// Stability: among tasks of one scheduling key, the sort keeps the
/// arrival order — the key's subsequence is unchanged.
pub proof fn lemma_stable_sorted_stability<P>(s: Seq<Task<P>>, class: int, priority: u8)
    ensures
        with_key(stable_sorted(s), class, priority) == with_key(s, class, priority),
    decreases s.len(),
{
    broadcast use vstd::prelude::Seq::filter_distributes_over_add;

    reveal_with_fuel(Seq::filter, 2);
    if s.len() == 0 {
    } else {
        let pred = |t: Task<P>| event_class(t.event) == class && t.priority == priority;
        lemma_stable_sorted_stability(s.drop_last(), class, priority);
        lemma_stable_sorted_sorted(s.drop_last());
        lemma_insert_stable_with_key(stable_sorted(s.drop_last()), s.last(), class, priority);
        lemma_filter_singleton(s.last(), pred);
        assert(s =~= s.drop_last() + seq![s.last()]);
        assert((s.drop_last() + seq![s.last()]).filter(pred) == s.drop_last().filter(pred)
            + seq![s.last()].filter(pred));
        if pred(s.last()) {
            assert(s.drop_last().filter(pred) + seq![s.last()] =~= s.drop_last().filter(
                pred,
            ).push(s.last()));
        } else {
            assert(s.drop_last().filter(pred) + Seq::<Task<P>>::empty() =~= s.drop_last().filter(
                pred,
            ));
        }
    }
}

/// The stable sort of a one-task sequence is that sequence.
pub proof fn lemma_stable_sorted_singleton<P>(x: Task<P>)
    ensures
        stable_sorted(seq![x]) == seq![x],
{
    assert(seq![x].drop_last() =~= Seq::<Task<P>>::empty());
    assert(seq![x].last() == x);
    assert(stable_sorted(Seq::<Task<P>>::empty()) == Seq::<Task<P>>::empty());
    assert(insert_stable(Seq::<Task<P>>::empty(), x) == seq![x]);
}

/// Priority dominance: in a sorted stack, a non-background task stands
/// strictly before every task of the same class with a larger priority
/// number, so its program step runs first.
pub proof fn lemma_priority_dominance<P>(s: Seq<Task<P>>, i: int, j: int)
    requires
        sorted(s),
        0 <= i < s.len(),
        0 <= j < s.len(),
        event_class(s[i].event) == event_class(s[j].event),
        s[i].priority < s[j].priority,
    ensures
        i < j,
{
    if j <= i {
        assert(task_le(s[j], s[i]));
    }
}

/// `insert_stable(s, x)` laid out around the insertion point `j`: the
/// first index whose element sorts strictly after `x`.
proof fn lemma_insert_stable_split<P>(s: Seq<Task<P>>, x: Task<P>, j: int)
    requires
        0 <= j <= s.len(),
        forall|k: int| 0 <= k < j ==> task_le(s[k], x),
        j < s.len() ==> !task_le(s[j], x),
    ensures
        insert_stable(s, x) == s.subrange(0, j) + seq![x] + s.subrange(j, s.len() as int),
    decreases s.len(),
{
    if s.len() == 0 {
        assert(insert_stable(s, x) =~= s.subrange(0, j) + seq![x] + s.subrange(
            j,
            s.len() as int,
        ));
    } else if j == 0 {
        assert(!task_le(s.first(), x));
        assert(insert_stable(s, x) == seq![x] + s);
        assert(seq![x] + s =~= s.subrange(0, 0) + seq![x] + s.subrange(0, s.len() as int));
    } else {
        assert(task_le(s.first(), x));
        let rest = s.drop_first();
        assert(forall|k: int| 0 <= k < j - 1 ==> rest[k] == s[k + 1] && task_le(s[k + 1], x));
        assert(j - 1 < rest.len() ==> rest[j - 1] == s[j]);
        lemma_insert_stable_split(rest, x, j - 1);
        assert(insert_stable(s, x) == seq![s.first()] + (rest.subrange(0, j - 1) + seq![x]
            + rest.subrange(j - 1, rest.len() as int)));
        assert(seq![s.first()] + (rest.subrange(0, j - 1) + seq![x] + rest.subrange(
            j - 1,
            rest.len() as int,
        )) =~= s.subrange(0, j) + seq![x] + s.subrange(j, s.len() as int));
    }
}

/// Scheduling class of a task, executable form.
pub fn task_class_of<P>(t: &Task<P>) -> (r: u8)
    ensures
        r as int == event_class(t.event),
{
    match t.event {
        Event::Background => 2,
        _ => 1,
    }
}

/// `task_le`, executable form.
pub fn task_le_exec<P>(a: &Task<P>, b: &Task<P>) -> (r: bool)
    ensures
        r == task_le(*a, *b),
{
    let ca = task_class_of(a);
    let cb = task_class_of(b);
    ca < cb || (ca == cb && a.priority <= b.priority)
}

/// Stable insertion sort of a task vector by `(event class, priority)`.
pub fn sort_tasks<P>(tasks: &mut Vec<Task<P>>)
    ensures
        final(tasks)@ == stable_sorted(old(tasks)@),
{
    let ghost orig = tasks@;
    let mut i: usize = 0;
    while i < tasks.len()
        invariant
            i <= tasks@.len(),
            tasks@.len() == orig.len(),
            tasks@.subrange(0, i as int) == stable_sorted(orig.subrange(0, i as int)),
            tasks@.subrange(i as int, tasks@.len() as int) == orig.subrange(
                i as int,
                orig.len() as int,
            ),
        decreases tasks@.len() - i,
    {
        let ghost prefix = tasks@.subrange(0, i as int);
        let ghost x_spec = tasks@[i as int];
        assert(tasks@.subrange(i as int, tasks@.len() as int)[0] == tasks@[i as int]);
        assert(orig.subrange(i as int, orig.len() as int)[0] == orig[i as int]);
        assert(x_spec == orig[i as int]);
        proof {
            lemma_stable_sorted_sorted(orig.subrange(0, i as int));
        }

        let mut j: usize = 0;
        while j < i && task_le_exec(&tasks[j], &tasks[i])
            invariant
                j <= i,
                i < tasks@.len(),
                tasks@.subrange(0, i as int) == prefix,
                tasks@[i as int] == x_spec,
                forall|k: int| 0 <= k < j ==> task_le(prefix[k], x_spec),
            decreases i - j,
        {
            assert(prefix[j as int] == tasks@[j as int]);
            j += 1;
        }

        assert(j < i ==> !task_le(prefix[j as int], x_spec));
        let ghost old_view = tasks@;
        proof {
            assert(old_view =~= old_view.subrange(0, i as int) + old_view.subrange(
                i as int,
                old_view.len() as int,
            ));
        }
        let x = tasks.remove(i);
        tasks.insert(j, x);

        proof {
            lemma_insert_stable_split(prefix, x_spec, j as int);
            let before = prefix + seq![x_spec] + orig.subrange((i + 1) as int, orig.len() as int);
            assert(old_view =~= before);
            assert(tasks@ =~= before.remove(i as int).insert(j as int, x_spec));
            assert(before.remove(i as int) =~= prefix + orig.subrange(
                (i + 1) as int,
                orig.len() as int,
            ));
            assert(tasks@ =~= prefix.subrange(0, j as int) + seq![x_spec] + prefix.subrange(
                j as int,
                prefix.len() as int,
            ) + orig.subrange((i + 1) as int, orig.len() as int));
            assert(tasks@.subrange(0, (i + 1) as int) =~= prefix.subrange(0, j as int) + seq![
                x_spec,
            ] + prefix.subrange(j as int, prefix.len() as int));
            let next_pref = orig.subrange(0, (i + 1) as int);
            assert(next_pref.drop_last() =~= orig.subrange(0, i as int));
            assert(next_pref.last() == orig[i as int]);
            assert(stable_sorted(next_pref) == insert_stable(
                stable_sorted(orig.subrange(0, i as int)),
                orig[i as int],
            ));
            assert(tasks@.subrange((i + 1) as int, tasks@.len() as int) =~= orig.subrange(
                (i + 1) as int,
                orig.len() as int,
            ));
        }
        i += 1;
    }
    assert(tasks@ =~= tasks@.subrange(0, tasks@.len() as int));
    assert(orig =~= orig.subrange(0, orig.len() as int));
}

} // verus!
