//! What holds of every run of a queue: a run is the sequence of operations
//! that took effect on it, in the order its lock ordered them.
use crate::queue_state::{has_front, popped, pushed, waits};
use vstd::prelude::*;

verus! {

/// One operation on a queue, as the lock ordered it.
pub enum QueueOp<T> {
    Push(T),
    Pop,
    Close,
}

/// The queue after one operation.
pub open spec fn step<T>(q: Option<Seq<T>>, op: QueueOp<T>) -> Option<Seq<T>> {
    match op {
        QueueOp::Push(item) => pushed(q, item),
        QueueOp::Pop => popped(q),
        QueueOp::Close => None,
    }
}

/// The queue after a run of operations.
pub open spec fn run<T>(q: Option<Seq<T>>, ops: Seq<QueueOp<T>>) -> Option<Seq<T>>
    decreases ops.len(),
{
    if ops.len() == 0 {
        q
    } else {
        step(run(q, ops.drop_last()), ops.last())
    }
}

/// The items of a queue, none once it is closed.
pub open spec fn contents<T>(q: Option<Seq<T>>) -> Seq<T> {
    match q {
        Some(items) => items,
        None => Seq::empty(),
    }
}

/// The items whose push the queue accepted, in order.
pub open spec fn accepted<T>(q: Option<Seq<T>>, ops: Seq<QueueOp<T>>) -> Seq<T>
    decreases ops.len(),
{
    if ops.len() == 0 {
        Seq::empty()
    } else {
        let before = run(q, ops.drop_last());
        let earlier = accepted(q, ops.drop_last());
        match ops.last() {
            QueueOp::Push(item) => if before is Some {
                earlier.push(item)
            } else {
                earlier
            },
            _ => earlier,
        }
    }
}

/// The items that pops returned, in order.
pub open spec fn delivered<T>(q: Option<Seq<T>>, ops: Seq<QueueOp<T>>) -> Seq<T>
    decreases ops.len(),
{
    if ops.len() == 0 {
        Seq::empty()
    } else {
        let before = run(q, ops.drop_last());
        let earlier = delivered(q, ops.drop_last());
        match ops.last() {
            QueueOp::Pop => if has_front(before) {
                earlier.push(before->Some_0[0])
            } else {
                earlier
            },
            _ => earlier,
        }
    }
}

/// The items that a close handed over to its caller.
pub open spec fn flushed<T>(q: Option<Seq<T>>, ops: Seq<QueueOp<T>>) -> Seq<T>
    decreases ops.len(),
{
    if ops.len() == 0 {
        Seq::empty()
    } else {
        let before = run(q, ops.drop_last());
        let earlier = flushed(q, ops.drop_last());
        match ops.last() {
            QueueOp::Close => earlier + contents(before),
            _ => earlier,
        }
    }
}

/// No item is lost, duplicated or reordered: what the queue held at first and
/// every item it accepted, in order, are exactly what pops returned, then
/// what a close handed over, then what it still holds.
pub proof fn lemma_conservation<T>(q: Option<Seq<T>>, ops: Seq<QueueOp<T>>)
    ensures
        contents(q) + accepted(q, ops) == delivered(q, ops) + flushed(q, ops) + contents(
            run(q, ops),
        ),
        run(q, ops) is Some ==> flushed(q, ops).len() == 0,
    decreases ops.len(),
{
    if ops.len() > 0 {
        let prefix = ops.drop_last();
        lemma_conservation(q, prefix);
        let before = run(q, prefix);
        let d = delivered(q, prefix);
        let f = flushed(q, prefix);
        let a = accepted(q, prefix);
        match ops.last() {
            QueueOp::Push(item) => {
                if before is Some {
                    assert(contents(q) + a.push(item) =~= (contents(q) + a).push(item));
                    assert(d + f + contents(before).push(item) =~= (d + f + contents(
                        before,
                    )).push(item));
                }
            },
            QueueOp::Pop => {
                if has_front(before) {
                    let items = before->Some_0;
                    assert(items =~= seq![items[0]] + items.drop_first());
                    assert(f =~= Seq::<T>::empty());
                    assert(d + f + items =~= d.push(items[0]) + f + items.drop_first());
                }
            },
            QueueOp::Close => {
                assert(d + f + contents(before) =~= d + (f + contents(before)) + contents(
                    None::<Seq<T>>,
                ));
            },
        }
    }
}

/// First in, first out: on a fresh queue, the items that pops return are the
/// first of the items whose push it accepted, in the order of those pushes.
pub proof fn lemma_fifo<T>(ops: Seq<QueueOp<T>>)
    ensures
        delivered(Some(Seq::empty()), ops).is_prefix_of(accepted(Some(Seq::empty()), ops)),
{
    let q = Some(Seq::<T>::empty());
    lemma_conservation(q, ops);
    let d = delivered(q, ops);
    let a = accepted(q, ops);
    assert(contents(q) + a =~= a);
    assert(a.subrange(0, d.len() as int) =~= d);
}

/// Closing is final: once closed, a queue stays closed whatever follows,
/// accepts no push, hands no item to a pop or to a later close.
pub proof fn lemma_closed_stays_closed<T>(ops: Seq<QueueOp<T>>)
    ensures
        run(None, ops) is None,
        accepted(None, ops).len() == 0,
        delivered(None, ops).len() == 0,
        flushed(None, ops).len() == 0,
    decreases ops.len(),
{
    if ops.len() > 0 {
        lemma_closed_stays_closed(ops.drop_last());
    }
}

/// A second close finds the queue closed, so it fails whatever came between
/// the two.
pub proof fn lemma_second_close_fails<T>(q: Option<Seq<T>>, between: Seq<QueueOp<T>>)
    ensures
        run(step(q, QueueOp::Close), between) is None,
{
    lemma_closed_stays_closed(between);
}

/// The pushes of a run made only of pushes.
pub open spec fn pushes<T>(items: Seq<T>) -> Seq<QueueOp<T>> {
    Seq::new(items.len(), |i: int| QueueOp::Push(items[i]))
}

/// `count` pops in a row.
pub open spec fn pops<T>(count: nat) -> Seq<QueueOp<T>> {
    Seq::new(count, |i: int| QueueOp::Pop)
}

/// Items pushed onto a fresh queue are all there, in order. A close then
/// hands every one of them over to its caller, and pops after it return
/// nothing: each of them reports the closure.
pub proof fn lemma_round_trip<T>(items: Seq<T>, count: nat)
    ensures
        run(Some(Seq::empty()), pushes(items)) == Some(items),
        flushed(Some(Seq::empty()), pushes(items).push(QueueOp::Close) + pops(count)) == items,
        delivered(Some(Seq::empty()), pushes(items).push(QueueOp::Close) + pops(count)).len()
            == 0,
        run(Some(Seq::empty()), pushes(items).push(QueueOp::Close) + pops(count)) is None,
{
    let q = Some(Seq::<T>::empty());
    lemma_pushes_fill(items);
    let closing = pushes(items).push(QueueOp::Close);
    assert(closing.drop_last() =~= pushes(items));
    lemma_only_pushes_flush_nothing(items);
    lemma_only_pushes_deliver_nothing(items);
    lemma_pops_after_close(closing, count);
}

proof fn lemma_pushes_fill<T>(items: Seq<T>)
    ensures
        run(Some(Seq::empty()), pushes(items)) == Some(items),
    decreases items.len(),
{
    if items.len() > 0 {
        let init = items.drop_last();
        lemma_pushes_fill(init);
        assert(pushes(items).drop_last() =~= pushes(init));
        assert(init.push(items.last()) =~= items);
    } else {
        assert(pushes(items) =~= Seq::empty());
    }
}

proof fn lemma_only_pushes_deliver_nothing<T>(items: Seq<T>)
    ensures
        delivered(Some(Seq::empty()), pushes(items)).len() == 0,
    decreases items.len(),
{
    if items.len() > 0 {
        lemma_only_pushes_deliver_nothing(items.drop_last());
        assert(pushes(items).drop_last() =~= pushes(items.drop_last()));
    }
}

/// Pops after a run that ended closed change nothing and return nothing.
proof fn lemma_pops_after_close<T>(ops: Seq<QueueOp<T>>, count: nat)
    requires
        run(Some(Seq::empty()), ops) is None,
    ensures
        run(Some(Seq::empty()), ops + pops(count)) is None,
        flushed(Some(Seq::empty()), ops + pops(count)) == flushed(Some(Seq::empty()), ops),
        delivered(Some(Seq::empty()), ops + pops(count)) == delivered(Some(Seq::empty()), ops),
    decreases count,
{
    if count == 0 {
        assert(ops + pops(0) =~= ops);
    } else {
        let shorter = (count - 1) as nat;
        lemma_pops_after_close(ops, shorter);
        assert((ops + pops(count)).drop_last() =~= ops + pops(shorter));
    }
}

proof fn lemma_only_pushes_flush_nothing<T>(items: Seq<T>)
    ensures
        flushed(Some(Seq::empty()), pushes(items)) == Seq::<T>::empty(),
    decreases items.len(),
{
    if items.len() > 0 {
        lemma_only_pushes_flush_nothing(items.drop_last());
        assert(pushes(items).drop_last() =~= pushes(items.drop_last()));
    }
}

/// A pop on a closed queue never waits and changes nothing.
pub proof fn lemma_closed_pop_does_not_wait<T>()
    ensures
        !waits(None::<Seq<T>>),
        popped(None::<Seq<T>>) is None,
{
}

} // verus!
