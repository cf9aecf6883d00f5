use vstd::prelude::*;

use crate::buffer::BoundedBuffer;

verus! {

/// The two condition signals of the monitor that guards a buffer.
#[derive(PartialEq, Eq, Structural, Clone, Copy, Debug)]
pub enum Condition {
    /// There is an item to take.
    NotEmpty,
    /// There is room for an item.
    NotFull,
}

/// What a task does after one step taken while it holds the lock.
#[derive(PartialEq, Eq, Structural, Clone, Copy, Debug)]
pub enum Action {
    /// Nothing changed: release the lock and block on the condition, then
    /// take the step again on wakeup, whatever woke the task.
    Wait(Condition),
    /// The buffer changed: wake every task blocked on the condition, then
    /// release the lock.
    NotifyAll(Condition),
}

/// A task that shares a buffer: a producer with the item it puts in, or a
/// consumer.
#[derive(PartialEq, Eq, Structural, Clone, Copy, Debug)]
pub enum Task {
    Producer(isize),
    Consumer,
}

/// Whether `t` can make its move on items `s` in a buffer of capacity `cap`.
pub open spec fn proceeds(s: Seq<isize>, cap: nat, t: Task) -> bool {
    match t {
        Task::Producer(_) => s.len() < cap,
        Task::Consumer => s.len() > 0,
    }
}

/// The items after one step of `t` on items `s`: a producer pushes its item
/// when there is room, a consumer pops the top item when there is one, and a
/// task that cannot proceed leaves the items as they are.
pub open spec fn next_items(s: Seq<isize>, cap: nat, t: Task) -> Seq<isize> {
    match t {
        Task::Producer(x) => if s.len() < cap {
            s.push(x)
        } else {
            s
        },
        Task::Consumer => if s.len() > 0 {
            s.drop_last()
        } else {
            s
        },
    }
}

/// The action that follows one step of `t` on items `s`: a task that proceeds
/// wakes the tasks of the other kind, one that cannot waits for them.
pub open spec fn action_for(s: Seq<isize>, cap: nat, t: Task) -> Action {
    match t {
        Task::Producer(_) => if s.len() < cap {
            Action::NotifyAll(Condition::NotEmpty)
        } else {
            Action::Wait(Condition::NotFull)
        },
        Task::Consumer => if s.len() > 0 {
            Action::NotifyAll(Condition::NotFull)
        } else {
            Action::Wait(Condition::NotEmpty)
        },
    }
}

/// The items after the steps `ts`, taken in order from items `s`.
pub open spec fn run_items(s: Seq<isize>, cap: nat, ts: Seq<Task>) -> Seq<isize>
    decreases ts.len(),
{
    if ts.len() == 0 {
        s
    } else {
        next_items(run_items(s, cap, ts.drop_last()), cap, ts.last())
    }
}

/// How many of the steps `ts`, taken from items `s`, were producers that
/// pushed.
pub open spec fn pushes_in(s: Seq<isize>, cap: nat, ts: Seq<Task>) -> nat
    decreases ts.len(),
{
    if ts.len() == 0 {
        0
    } else {
        let before = run_items(s, cap, ts.drop_last());
        let last: nat = if ts.last() is Producer && proceeds(before, cap, ts.last()) {
            1
        } else {
            0
        };
        pushes_in(s, cap, ts.drop_last()) + last
    }
}

/// How many of the steps `ts`, taken from items `s`, were consumers that
/// popped.
pub open spec fn pops_in(s: Seq<isize>, cap: nat, ts: Seq<Task>) -> nat
    decreases ts.len(),
{
    if ts.len() == 0 {
        0
    } else {
        let before = run_items(s, cap, ts.drop_last());
        let last: nat = if ts.last() is Consumer && proceeds(before, cap, ts.last()) {
            1
        } else {
            0
        };
        pops_in(s, cap, ts.drop_last()) + last
    }
}

/// One step of a producer that holds the lock: it re-checks whether the
/// buffer is full, and either pushes `item` or asks to wait for room.
pub fn produce_step<const N: usize>(buf: &mut BoundedBuffer<N>, item: isize) -> (r: Action)
    ensures
        final(buf)@ == next_items(old(buf)@, N as nat, Task::Producer(item)),
        r == action_for(old(buf)@, N as nat, Task::Producer(item)),
{
    if buf.full() {
        Action::Wait(Condition::NotFull)
    } else {
        buf.push(item);
        Action::NotifyAll(Condition::NotEmpty)
    }
}

/// One step of a consumer that holds the lock: it re-checks whether the
/// buffer is empty, and either pops the top item, which it returns, or asks
/// to wait for an item.
pub fn consume_step<const N: usize>(buf: &mut BoundedBuffer<N>) -> (r: (Action, Option<isize>))
    ensures
        final(buf)@ == next_items(old(buf)@, N as nat, Task::Consumer),
        r.0 == action_for(old(buf)@, N as nat, Task::Consumer),
        r.1 == (if old(buf)@.len() > 0 {
            Some(old(buf)@.last())
        } else {
            None::<isize>
        }),
{
    if buf.empty() {
        (Action::Wait(Condition::NotEmpty), None)
    } else {
        let item = buf.pop();
        (Action::NotifyAll(Condition::NotFull), Some(item))
    }
}

/// Runs the steps of `schedule` in order on `buf`, as if each task in turn
/// took the lock for one step, and returns how many items were pushed and
/// how many were popped.
pub fn run_schedule<const N: usize>(buf: &mut BoundedBuffer<N>, schedule: &Vec<Task>) -> (r: (
    usize,
    usize,
))
    ensures
        final(buf)@ == run_items(old(buf)@, N as nat, schedule@),
        r.0 == pushes_in(old(buf)@, N as nat, schedule@),
        r.1 == pops_in(old(buf)@, N as nat, schedule@),
{
    let ghost start = buf@;
    let mut pushed: usize = 0;
    let mut popped: usize = 0;
    let mut i: usize = 0;
    while i < schedule.len()
        invariant
            i <= schedule@.len(),
            buf@ == run_items(start, N as nat, schedule@.subrange(0, i as int)),
            pushed == pushes_in(start, N as nat, schedule@.subrange(0, i as int)),
            popped == pops_in(start, N as nat, schedule@.subrange(0, i as int)),
            pushed + popped <= i,
        decreases schedule.len() - i,
    {
        let ghost next = schedule@.subrange(0, i + 1);
        assert(next.drop_last() =~= schedule@.subrange(0, i as int));
        match schedule[i] {
            Task::Producer(x) => {
                let a = produce_step(buf, x);
                if let Action::NotifyAll(_) = a {
                    pushed = pushed + 1;
                }
            },
            Task::Consumer => {
                let (_, item) = consume_step(buf);
                if item.is_some() {
                    popped = popped + 1;
                }
            },
        }
        i = i + 1;
    }
    assert(schedule@.subrange(0, i as int) =~= schedule@);
    (pushed, popped)
}

/// From items that fit in a buffer of capacity `cap`, every schedule of
/// steps keeps the number of items held between zero and `cap`.
pub proof fn lemma_capacity_kept(s: Seq<isize>, cap: nat, ts: Seq<Task>)
    requires
        s.len() <= cap,
    ensures
        run_items(s, cap, ts).len() <= cap,
    decreases ts.len(),
{
    if ts.len() > 0 {
        lemma_capacity_kept(s, cap, ts.drop_last());
    }
}

/// Over any schedule, the items held at the end and those popped add up to
/// the items held at the start and those pushed. So a schedule that starts
/// and ends with an empty buffer pops exactly as many items as it pushes.
pub proof fn lemma_pushes_balance_pops(s: Seq<isize>, cap: nat, ts: Seq<Task>)
    ensures
        run_items(s, cap, ts).len() + pops_in(s, cap, ts) == s.len() + pushes_in(s, cap, ts),
        s.len() == 0 && run_items(s, cap, ts).len() == 0 ==> pushes_in(s, cap, ts) == pops_in(
            s,
            cap,
            ts,
        ),
    decreases ts.len(),
{
    if ts.len() > 0 {
        lemma_pushes_balance_pops(s, cap, ts.drop_last());
    }
}

/// A task that cannot proceed and is woken any number of times, with no
/// other task stepping in between, leaves the items as they are and is told
/// to wait again each time: a wakeup is never taken as a sign that the
/// awaited condition holds.
pub proof fn lemma_spurious_wakeups(s: Seq<isize>, cap: nat, t: Task, ts: Seq<Task>)
    requires
        !proceeds(s, cap, t),
        forall|i: int| 0 <= i < ts.len() ==> ts[i] == t,
    ensures
        run_items(s, cap, ts) == s,
        action_for(run_items(s, cap, ts), cap, t) is Wait,
    decreases ts.len(),
{
    if ts.len() > 0 {
        lemma_spurious_wakeups(s, cap, t, ts.drop_last());
        assert(ts.last() == t);
    }
}

/// When a step of task `u` turns the items into ones on which a waiting
/// task `t` can proceed, that step broadcasts the very condition that `t`
/// waits on, so the wakeup that `t` needs is never lost.
pub proof fn lemma_no_lost_wakeup(s: Seq<isize>, cap: nat, t: Task, u: Task, c: Condition)
    requires
        action_for(s, cap, t) == Action::Wait(c),
        proceeds(next_items(s, cap, u), cap, t),
    ensures
        action_for(s, cap, u) == Action::NotifyAll(c),
{
}

} // verus!
