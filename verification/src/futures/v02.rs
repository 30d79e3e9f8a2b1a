//! The executor for tasks of the later protocol: ids are `u32` and start
//! at 0.

use crate::futures::{pool_after_settle, pool_after_spawn, pool_after_take, pool_taken, Async};
use std::collections::HashMap;
use vstd::prelude::*;

verus! {

broadcast use vstd::std_specs::hash::group_hash_axioms;

/// An executor of tasks of type `T`.
pub struct StasisExecutor<T> {
    current: u32,
    futures: HashMap<u32, T>,
}

impl<T> StasisExecutor<T> {
    /// The id that the next spawned task gets.
    pub closed spec fn next_id(&self) -> u32 {
        self.current
    }

    /// The tasks in the pool, by id.
    pub closed spec fn tasks(&self) -> Map<u32, T> {
        self.futures@
    }

    /// Every task in the pool was spawned: its id has been given out.
    pub open spec fn wf(&self) -> bool {
        forall|id: u32| #[trigger] self.tasks().contains_key(id) ==> id < self.next_id()
    }

    /// Whether `after` is this pool once `task` was spawned in it under `id`:
    /// the id is fresh, and the task is in the pool under it.
    pub open spec fn spawned(self, after: Self, task: T, id: u32) -> bool {
        &&& after.wf()
        &&& id == self.next_id()
        &&& after.next_id() == id + 1
        &&& !self.tasks().contains_key(id)
        &&& after.tasks() == pool_after_spawn(self.tasks(), id, task)
    }

    /// Whether `after` is this pool once the task under `id` was polled, and
    /// its step left it as `left` and reported `outcome`.
    pub open spec fn polled(self, after: Self, id: u32, left: T, outcome: Async) -> bool {
        &&& after.wf()
        &&& self.tasks().contains_key(id)
        &&& after.next_id() == self.next_id()
        &&& after.tasks() == pool_after_settle(
            pool_after_take(self.tasks(), id),
            id,
            left,
            outcome,
        )
    }

    /// An executor with an empty pool, whose first id is 0.
    pub fn new() -> (executor: Self)
        ensures
            executor.wf(),
            executor.next_id() == 0,
            executor.tasks() == Map::<u32, T>::empty(),
    {
        StasisExecutor { current: 0, futures: HashMap::new() }
    }

    /// Whether another id can be given out.
    pub fn has_room(&self) -> (room: bool)
        ensures
            room == (self.next_id() < u32::MAX),
    {
        self.current < u32::MAX
    }

    /// Whether a task is in the pool under `id`.
    pub fn contains(&self, id: u32) -> (found: bool)
        ensures
            found == self.tasks().contains_key(id),
    {
        self.futures.contains_key(&id)
    }

    /// Whether `id` has been given out.
    pub fn was_spawned(&self, id: u32) -> (spawned: bool)
        ensures
            spawned == (id < self.next_id()),
    {
        id < self.current
    }

    /// Puts a task into the pool under a fresh id and returns the id, which the
    /// caller polls at once.
    pub fn spawn(&mut self, task: T) -> (id: u32)
        requires
            old(self).wf(),
            old(self).next_id() < u32::MAX,
        ensures
            old(self).spawned(*final(self), task, id),
    {
        let id = self.current;
        self.current = self.current + 1;
        self.futures.insert(id, task);
        assert forall|other: u32| #[trigger] self.tasks().contains_key(other) implies other
            < self.next_id() by {
            if other != id {
                assert(old(self).tasks().contains_key(other));
            }
        }
        id
    }

    /// First half of a poll: takes the task under `id` out of the pool. `None`
    /// means that there is nothing to poll, and the pool is as it was.
    pub fn take(&mut self, id: u32) -> (task: Option<T>)
        ensures
            task == pool_taken(old(self).tasks(), id),
            final(self).tasks() == pool_after_take(old(self).tasks(), id),
            final(self).next_id() == old(self).next_id(),
            old(self).wf() ==> final(self).wf(),
            task is None ==> final(self).tasks() == old(self).tasks(),
    {
        let task = self.futures.remove(&id);
        proof {
            if task is None {
                assert(self.futures@ =~= old(self).futures@);
            }
        }
        task
    }

    /// Second half of a poll: takes back the task that was polled under `id`
    /// together with what its step reported.
    pub fn settle(&mut self, id: u32, task: T, outcome: Async)
        requires
            old(self).wf(),
            id < old(self).next_id(),
        ensures
            final(self).wf(),
            final(self).next_id() == old(self).next_id(),
            final(self).tasks() == pool_after_settle(old(self).tasks(), id, task, outcome),
    {
        match outcome {
            Async::Pending => {
                self.futures.insert(id, task);
                assert forall|other: u32| #[trigger] self.tasks().contains_key(other) implies other
                    < self.next_id() by {
                    if other != id {
                        assert(old(self).tasks().contains_key(other));
                    }
                }
            },
            Async::Ready => {},
            Async::Failed => {},
        }
    }

    /// Polls the task under `id` once, for a caller that holds the executor
    /// for the whole poll: takes the task out, lets `drive` make one step of
    /// it, and takes it back as the step reports. Returns what the step
    /// reported; `None`, with nothing done, where no task is under `id`.
    pub fn poll<F>(&mut self, id: u32, drive: F) -> (outcome: Option<Async>) where
        F: FnOnce(&mut T) -> Async,
        requires
            old(self).wf(),
            old(self).tasks().contains_key(id) ==> forall|task: &mut T|
                *task == old(self).tasks()[id] ==> #[trigger] drive.requires((task,)),
        ensures
            final(self).wf(),
            final(self).next_id() == old(self).next_id(),
            !old(self).tasks().contains_key(id) ==> outcome is None && final(self).tasks() == old(
                self,
            ).tasks(),
            old(self).tasks().contains_key(id) ==> exists|task: &mut T, reported: Async|
                {
                    &&& *task == old(self).tasks()[id]
                    &&& #[trigger] drive.ensures((task,), reported)
                    &&& outcome == Some(reported)
                    &&& old(self).polled(*final(self), id, *final(task), reported)
                },
    {
        let mut task = match self.take(id) {
            Some(task) => task,
            None => { return None; },
        };
        let reported = drive(&mut task);
        self.settle(id, task, reported);
        Some(reported)
    }

    /// Spawns a task and polls it at once, for a caller that holds the
    /// executor for the whole step: puts the task into the pool under a fresh
    /// id, lets `drive` make its first step, and keeps the task only where the
    /// step reports that it is pending. Returns the id and what the step
    /// reported.
    pub fn spawn_and_poll<F>(&mut self, task: T, drive: F) -> (r: (u32, Async)) where
        F: FnOnce(&mut T) -> Async,
        requires
            old(self).wf(),
            old(self).next_id() < u32::MAX,
            forall|t: &mut T| *t == task ==> #[trigger] drive.requires((t,)),
        ensures
            final(self).wf(),
            r.0 == old(self).next_id(),
            final(self).next_id() == old(self).next_id() + 1,
            !old(self).tasks().contains_key(r.0),
            exists|t: &mut T, reported: Async|
                {
                    &&& *t == task
                    &&& #[trigger] drive.ensures((t,), reported)
                    &&& r.1 == reported
                    &&& final(self).tasks() == pool_after_settle(
                        old(self).tasks(),
                        r.0,
                        *final(t),
                        reported,
                    )
                },
    {
        let id = self.spawn(task);
        let ghost spawned = *self;
        let outcome = self.poll(id, drive);
        let reported = outcome.unwrap();
        proof {
            let (t, seen) = choose|t: &mut T, seen: Async|
                {
                    &&& *t == spawned.tasks()[id]
                    &&& #[trigger] drive.ensures((t,), seen)
                    &&& outcome == Some(seen)
                    &&& spawned.polled(*self, id, *final(t), seen)
                };
            assert(pool_after_take(spawned.tasks(), id) =~= old(self).tasks());
            assert(*t == task && drive.ensures((t,), reported) && self.tasks()
                == pool_after_settle(old(self).tasks(), id, *final(t), reported));
        }
        (id, reported)
    }
}

/// A task that is spawned, reports pending on its first poll and ready on
/// its second is polled twice and discarded once: the pool then holds what
/// it held before the spawn, one more id has been given out, and nothing is
/// left under the task's id for a later wake to poll.
pub proof fn lemma_spawn_pending_ready<T>(
    start: StasisExecutor<T>,
    spawned: StasisExecutor<T>,
    waiting: StasisExecutor<T>,
    done: StasisExecutor<T>,
    id: u32,
    task: T,
    first: T,
    second: T,
)
    requires
        start.spawned(spawned, task, id),
        spawned.polled(waiting, id, first, Async::Pending),
        waiting.polled(done, id, second, Async::Ready),
    ensures
        pool_taken(spawned.tasks(), id) == Some(task),
        pool_taken(waiting.tasks(), id) == Some(first),
        done.tasks() == start.tasks(),
        done.next_id() == start.next_id() + 1,
        done.wf(),
        pool_taken(done.tasks(), id) == None::<T>,
        pool_after_take(done.tasks(), id) == done.tasks(),
{
    crate::futures::lemma_spawned_task_runs_out(start.tasks(), id, task, first, second);
}

} // verus!
