//! The global cell: one value, made on first use and held by one user at a
//! time.
//!
//! This is the cell as a single thread of the guest sees it. The first lock
//! makes the value; every lock hands the value out inside a guard, and
//! releasing the guard puts it back. A cell whose value is out cannot be
//! locked again until the guard has come back.

use vstd::prelude::*;

verus! {

/// A cell for one value of type `T`.
pub struct Global<T> {
    once: bool,
    inner: Option<T>,
}

/// The guard of a locked cell. It holds the value while the cell is locked.
pub struct GlobalLock<T> {
    value: T,
}

impl<T> GlobalLock<T> {
    /// The value under the guard.
    pub closed spec fn view(&self) -> T {
        self.value
    }

    /// Reads the value under the guard.
    pub fn get(&self) -> (value: &T)
        ensures
            *value == self@,
    {
        &self.value
    }

    /// Borrows the value under the guard to change it in place.
    pub fn get_mut(&mut self) -> (value: &mut T)
        ensures
            *value == old(self)@,
            final(self)@ == *final(value),
    {
        &mut self.value
    }

    /// Replaces the value under the guard and returns the one that was there.
    pub fn replace(&mut self, value: T) -> (before: T)
        ensures
            final(self)@ == value,
            before == old(self)@,
    {
        let mut value = value;
        std::mem::swap(&mut self.value, &mut value);
        value
    }
}

impl<T> Global<T> {
    /// Whether the value has been made.
    pub closed spec fn initialized(&self) -> bool {
        self.once
    }

    /// Whether a guard is out.
    pub closed spec fn locked(&self) -> bool {
        self.once && self.inner is None
    }

    /// The value in the cell; none before the first lock and while a guard is
    /// out.
    pub closed spec fn value(&self) -> Option<T> {
        self.inner
    }

    /// A cell that is not initialized holds nothing.
    pub closed spec fn wf(&self) -> bool {
        !self.once ==> self.inner is None
    }

    /// Whether `after` is this cell once it was locked and `held` was handed
    /// out: a value that the cell had is the one handed out.
    pub open spec fn locks(self, after: Self, held: T) -> bool {
        &&& after.wf()
        &&& after.initialized()
        &&& after.locked()
        &&& self.initialized() ==> Some(held) == self.value()
    }

    /// Whether `after` is this cell once a guard came back with `held`.
    pub open spec fn unlocks(self, after: Self, held: T) -> bool {
        &&& after.wf()
        &&& after.initialized()
        &&& !after.locked()
        &&& after.value() == Some(held)
    }

    /// A cell whose value is still to be made.
    pub fn new() -> (cell: Self)
        ensures
            cell.wf(),
            !cell.initialized(),
            !cell.locked(),
            cell.value() is None,
    {
        Global { once: false, inner: None }
    }

    /// Whether a guard is out.
    pub fn is_locked(&self) -> (locked: bool)
        ensures
            locked == self.locked(),
    {
        self.once && self.inner.is_none()
    }

    /// Locks the cell and hands its value out under a guard. The first lock
    /// makes the value with `init`; every later lock leaves `init` alone and
    /// hands out the value that the last guard brought back.
    pub fn lock_with<F>(&mut self, init: F) -> (guard: GlobalLock<T>) where F: FnOnce() -> T
        requires
            old(self).wf(),
            !old(self).locked(),
            !old(self).initialized() ==> init.requires(()),
        ensures
            old(self).locks(*final(self), guard@),
            !old(self).initialized() ==> init.ensures((), guard@),
    {
        let value = match self.inner.take() {
            Some(value) => value,
            None => init(),
        };
        self.once = true;
        GlobalLock { value }
    }

    /// Takes a guard back: the cell is free again and holds the guard's value.
    pub fn unlock(&mut self, guard: GlobalLock<T>)
        requires
            old(self).locked(),
        ensures
            old(self).unlocks(*final(self), guard@),
    {
        self.inner = Some(guard.value);
    }
}

impl<T: Default> Global<T> {
    /// Locks the cell and hands its value out under a guard. The first lock
    /// makes the value as the default of its type.
    pub fn lock(&mut self) -> (guard: GlobalLock<T>)
        requires
            old(self).wf(),
            !old(self).locked(),
        ensures
            old(self).locks(*final(self), guard@),
            !old(self).initialized() ==> call_ensures(T::default, (), guard@),
    {
        let value = match self.inner.take() {
            Some(value) => value,
            None => T::default(),
        };
        self.once = true;
        GlobalLock { value }
    }

    /// Runs `f` on the value of the cell, between a lock and its release, and
    /// returns what `f` returns. The value that `f` leaves is the value of the
    /// cell afterwards.
    pub fn with<F, R>(&mut self, f: F) -> (r: R) where F: FnOnce(&mut T) -> R
        requires
            old(self).wf(),
            !old(self).locked(),
            forall|value: &mut T|
                {
                    &&& old(self).initialized() ==> Some(*value) == old(self).value()
                    &&& !old(self).initialized() ==> call_ensures(T::default, (), *value)
                } ==> #[trigger] f.requires((value,)),
        ensures
            exists|value: &mut T|
                {
                    &&& old(self).initialized() ==> Some(*value) == old(self).value()
                    &&& !old(self).initialized() ==> call_ensures(T::default, (), *value)
                    &&& #[trigger] f.ensures((value,), r)
                    &&& old(self).unlocks(*final(self), *final(value))
                },
    {
        let mut guard = self.lock();
        let r = f(&mut guard.value);
        self.unlock(guard);
        r
    }
}

/// The value is made once: a lock of a cell that has been locked and
/// released before hands out the value that the last guard brought back,
/// whatever the first lock made.
pub proof fn lemma_value_is_made_once<T>(
    start: Global<T>,
    held: Global<T>,
    free: Global<T>,
    again: Global<T>,
    made: T,
    brought: T,
    found: T,
)
    requires
        start.locks(held, made),
        held.unlocks(free, brought),
        free.locks(again, found),
    ensures
        found == brought,
        !free.locked(),
        again.locked(),
{
}

} // verus!
