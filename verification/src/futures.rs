//! The task executors: pools of suspended tasks under integer ids.
//!
//! A task is polled outside the pool. The executor hands the task out, the
//! caller drives one progress step with a wake handle that carries the id, and
//! hands the task back with what the step reported. While the task is in hand
//! the pool is free, so a wake or a spawn that arrives during the step finds
//! the pool in a consistent state.
//!
//! There is one executor for each of the two task protocols. They differ in
//! the type of their ids and in the first id that they give out.

use vstd::prelude::*;

pub mod v01;
pub mod v02;

verus! {

/// What one progress step of a task reports.
#[derive(Debug, Clone, Copy, PartialEq, Eq, Structural)]
pub enum Async {
    /// The task has finished.
    Ready,
    /// The task waits for a wake signal.
    Pending,
    /// The task has ended with an error.
    Failed,
}

/// The pool after a task was spawned under `id`.
pub open spec fn pool_after_spawn<K, T>(tasks: Map<K, T>, id: K, task: T) -> Map<K, T> {
    tasks.insert(id, task)
}

/// The pool after the task under `id`, if any, was taken out of it.
pub open spec fn pool_after_take<K, T>(tasks: Map<K, T>, id: K) -> Map<K, T> {
    tasks.remove(id)
}

/// The task that taking `id` out of the pool hands over.
pub open spec fn pool_taken<K, T>(tasks: Map<K, T>, id: K) -> Option<T> {
    if tasks.contains_key(id) {
        Some(tasks[id])
    } else {
        None
    }
}

/// The pool after a task that was polled under `id` is handed back: a pending
/// task goes back under its id, any other is discarded.
pub open spec fn pool_after_settle<K, T>(tasks: Map<K, T>, id: K, task: T, outcome: Async) -> Map<
    K,
    T,
> {
    if outcome == Async::Pending {
        tasks.insert(id, task)
    } else {
        tasks
    }
}

/// A task that reports pending and then ready is in the pool after the first
/// poll and gone after the second; nothing else in the pool has changed by
/// then, and a wake that arrives later takes nothing and changes nothing.
pub proof fn lemma_pending_then_ready<K, T>(tasks: Map<K, T>, id: K, task: T, first: T, second: T)
    requires
        tasks.contains_key(id),
        tasks[id] == task,
    ensures
        ({
            let polled_once = pool_after_settle(
                pool_after_take(tasks, id),
                id,
                first,
                Async::Pending,
            );
            let polled_twice = pool_after_settle(
                pool_after_take(polled_once, id),
                id,
                second,
                Async::Ready,
            );
            &&& pool_taken(tasks, id) == Some(task)
            &&& polled_once == tasks.insert(id, first)
            &&& pool_taken(polled_once, id) == Some(first)
            &&& polled_twice == tasks.remove(id)
            &&& pool_taken(polled_twice, id) == None::<T>
            &&& pool_after_take(polled_twice, id) == polled_twice
        }),
{
    let polled_once = pool_after_settle(pool_after_take(tasks, id), id, first, Async::Pending);
    assert(polled_once =~= tasks.insert(id, first));
    let polled_twice = pool_after_settle(pool_after_take(polled_once, id), id, second, Async::Ready);
    assert(polled_twice =~= tasks.remove(id));
    assert(pool_after_take(polled_twice, id) =~= polled_twice);
}

/// A task that has ended, ready or failed, is not in the pool, whatever the
/// pool held under its id before.
pub proof fn lemma_ended_task_leaves<K, T>(tasks: Map<K, T>, id: K, task: T, outcome: Async)
    requires
        outcome != Async::Pending,
    ensures
        !pool_after_settle(pool_after_take(tasks, id), id, task, outcome).contains_key(id),
        pool_after_settle(pool_after_take(tasks, id), id, task, outcome) == tasks.remove(id),
{
}

/// A task that is spawned under a fresh id, reports pending on its first
/// poll and ready on its second leaves the pool as it was before the spawn,
/// and a wake that arrives after that takes nothing and changes nothing.
pub proof fn lemma_spawned_task_runs_out<K, T>(
    tasks: Map<K, T>,
    id: K,
    task: T,
    first: T,
    second: T,
)
    requires
        !tasks.contains_key(id),
    ensures
        ({
            let spawned = pool_after_spawn(tasks, id, task);
            let polled_once = pool_after_settle(
                pool_after_take(spawned, id),
                id,
                first,
                Async::Pending,
            );
            let polled_twice = pool_after_settle(
                pool_after_take(polled_once, id),
                id,
                second,
                Async::Ready,
            );
            &&& pool_taken(spawned, id) == Some(task)
            &&& pool_taken(polled_once, id) == Some(first)
            &&& polled_twice == tasks
            &&& pool_taken(polled_twice, id) == None::<T>
            &&& pool_after_take(polled_twice, id) == tasks
        }),
{
    let spawned = pool_after_spawn(tasks, id, task);
    let polled_once = pool_after_settle(pool_after_take(spawned, id), id, first, Async::Pending);
    assert(polled_once =~= tasks.insert(id, first));
    let polled_twice = pool_after_settle(pool_after_take(polled_once, id), id, second, Async::Ready);
    assert(polled_twice =~= tasks);
    assert(pool_after_take(polled_twice, id) =~= tasks);
}

} // verus!
