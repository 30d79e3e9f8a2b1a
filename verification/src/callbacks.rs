//! Queues for the callbacks that the host pushes and the guest pulls.
//!
//! The host may invoke a JavaScript callback once or many times. Each
//! invocation pushes a value under a callback id; the guest pops the values in
//! the order in which they came. A listener may be armed under an id: the next
//! push takes it out and hands it to the caller, who fires it once the queues
//! are free again.

use std::collections::HashMap;
use std::collections::VecDeque;
use vstd::prelude::*;

verus! {

broadcast use vstd::std_specs::hash::group_hash_axioms;

/// A reference to a callback queue.
#[derive(Debug, Clone, Copy, Hash, PartialEq, Eq, Structural)]
pub struct CallbackId(pub u32);

/// An id together with the note whether its setup has run.
pub struct LazyId {
    id: CallbackId,
    initialized: bool,
}

impl LazyId {
    /// The id inside.
    pub closed spec fn id(&self) -> CallbackId {
        self.id
    }

    /// Whether the setup has run.
    pub closed spec fn initialized(&self) -> bool {
        self.initialized
    }

    /// An id whose setup has not run yet.
    pub fn new(id: CallbackId) -> (lazy: LazyId)
        ensures
            lazy.id() == id,
            !lazy.initialized(),
    {
        LazyId { id, initialized: false }
    }

    /// Returns the id, after running the setup on it if this is the first
    /// call. Later calls leave their setup untouched.
    pub fn get_or_init<F>(&mut self, f: F) -> (id: CallbackId) where F: FnOnce(CallbackId)
        requires
            !old(self).initialized() ==> f.requires((old(self).id(),)),
        ensures
            id == old(self).id(),
            final(self).id() == id,
            final(self).initialized(),
            !old(self).initialized() ==> f.ensures((id,), ()),
    {
        if self.initialized {
            self.id
        } else {
            f(self.id);
            self.initialized = true;
            self.id
        }
    }
}

/// The value that a pop hands out: the head of the queue, if there is one.
pub open spec fn head<T>(queue: Seq<T>) -> Option<T> {
    if queue.len() > 0 {
        Some(queue[0])
    } else {
        None
    }
}

/// The queue that a pop leaves: all but the head.
pub open spec fn tail<T>(queue: Seq<T>) -> Seq<T> {
    if queue.len() > 0 {
        queue.subrange(1, queue.len() as int)
    } else {
        queue
    }
}

/// What is kept under one id: the values that wait, and the armed listener.
pub struct Callback<T, L> {
    notify: Option<L>,
    stack: VecDeque<T>,
}

/// The callback queues of values of type `T`, with listeners of type `L`.
pub struct Callbacks<T, L> {
    current: u32,
    map: HashMap<u32, Callback<T, L>>,
}

impl<T, L> Callbacks<T, L> {
    /// The number of ids given out so far, which is also the last of them.
    pub closed spec fn counter(&self) -> u32 {
        self.current
    }

    /// The values that wait under `id`, oldest first.
    pub closed spec fn queue(&self, id: CallbackId) -> Seq<T> {
        if self.map@.contains_key(id.0) {
            self.map@[id.0].stack@
        } else {
            Seq::empty()
        }
    }

    /// The listener armed under `id`, if there is one.
    pub closed spec fn listener(&self, id: CallbackId) -> Option<L> {
        if self.map@.contains_key(id.0) {
            self.map@[id.0].notify
        } else {
            None
        }
    }

    /// Whether `after` holds under every id but `id` what this holds there.
    pub open spec fn same_elsewhere(self, after: Self, id: CallbackId) -> bool {
        &&& forall|other: CallbackId|
            other != id ==> #[trigger] after.queue(other) == self.queue(other)
        &&& forall|other: CallbackId|
            other != id ==> #[trigger] after.listener(other) == self.listener(other)
    }

    /// Whether `after` is this once `value` was pushed under `id` and `fired`
    /// was handed out: the value is last in its queue, and the listener that
    /// was armed is the one handed out and is armed no more.
    pub open spec fn pushes(self, after: Self, id: CallbackId, value: T, fired: Option<L>) -> bool {
        &&& after.queue(id) == self.queue(id).push(value)
        &&& fired == self.listener(id)
        &&& after.listener(id) is None
        &&& after.counter() == self.counter()
        &&& self.same_elsewhere(after, id)
    }

    /// Whether `after` is this once `popped` was popped under `id`: the head
    /// of the queue was handed out, and the listener is as it was.
    pub open spec fn pops(self, after: Self, id: CallbackId, popped: Option<T>) -> bool {
        &&& popped == head(self.queue(id))
        &&& after.queue(id) == tail(self.queue(id))
        &&& after.listener(id) == self.listener(id)
        &&& after.counter() == self.counter()
        &&& self.same_elsewhere(after, id)
    }

    /// Whether `after` is this once `f` was armed under `id`, in place of
    /// whatever was armed there.
    pub open spec fn listens(self, after: Self, id: CallbackId, f: L) -> bool {
        &&& after.listener(id) == Some(f)
        &&& after.queue(id) == self.queue(id)
        &&& after.counter() == self.counter()
        &&& self.same_elsewhere(after, id)
    }

    /// Queues without values or listeners; the first id will be 1.
    pub fn new() -> (callbacks: Self)
        ensures
            callbacks.counter() == 0,
            forall|id: CallbackId| #[trigger] callbacks.queue(id) == Seq::<T>::empty(),
            forall|id: CallbackId| #[trigger] callbacks.listener(id) is None,
    {
        Callbacks { current: 0, map: HashMap::new() }
    }

    /// Whether another id can be given out.
    pub fn has_room(&self) -> (room: bool)
        ensures
            room == (self.counter() < u32::MAX),
    {
        self.current < u32::MAX
    }

    /// Gives out a fresh id: one more than the last.
    pub fn create(&mut self) -> (id: CallbackId)
        requires
            old(self).counter() < u32::MAX,
        ensures
            id.0 == old(self).counter() + 1,
            final(self).counter() == id.0,
            forall|any: CallbackId| #[trigger] final(self).queue(any) == old(self).queue(any),
            forall|any: CallbackId| #[trigger] final(self).listener(any) == old(self).listener(any),
    {
        self.current = self.current + 1;
        CallbackId(self.current)
    }

    /// Gives out a fresh id whose setup is still to run.
    pub fn lazy(&mut self) -> (lazy: LazyId)
        requires
            old(self).counter() < u32::MAX,
        ensures
            lazy.id().0 == old(self).counter() + 1,
            !lazy.initialized(),
            final(self).counter() == lazy.id().0,
            forall|any: CallbackId| #[trigger] final(self).queue(any) == old(self).queue(any),
            forall|any: CallbackId| #[trigger] final(self).listener(any) == old(self).listener(any),
    {
        let id = self.create();
        LazyId::new(id)
    }

    fn take_entry(&mut self, id: CallbackId) -> (entry: Callback<T, L>)
        ensures
            entry.stack@ == old(self).queue(id),
            entry.notify == old(self).listener(id),
            final(self).map@ == old(self).map@.remove(id.0),
            final(self).current == old(self).current,
    {
        match self.map.remove(&id.0) {
            Some(entry) => entry,
            None => Callback { notify: None, stack: VecDeque::new() },
        }
    }

    fn put_entry(&mut self, id: CallbackId, entry: Callback<T, L>, Ghost(before): Ghost<Self>)
        requires
            old(self).map@ == before.map@.remove(id.0),
        ensures
            final(self).queue(id) == entry.stack@,
            final(self).listener(id) == entry.notify,
            final(self).current == old(self).current,
            before.same_elsewhere(*final(self), id),
    {
        self.map.insert(id.0, entry);
        assert forall|other: CallbackId| other != id implies #[trigger] self.queue(other)
            == before.queue(other) by {
            assert(other.0 != id.0);
        }
        assert forall|other: CallbackId| other != id implies #[trigger] self.listener(other)
            == before.listener(other) by {
            assert(other.0 != id.0);
        }
    }

    /// Appends a value to the queue under `id` and hands out the listener
    /// that was armed there, if any. The caller fires it after letting go of
    /// the queues.
    pub fn push(&mut self, id: CallbackId, t: T) -> (fired: Option<L>)
        ensures
            old(self).pushes(*final(self), id, t, fired),
    {
        let ghost before = *self;
        let mut entry = self.take_entry(id);
        entry.stack.push_back(t);
        let fired = entry.notify.take();
        self.put_entry(id, entry, Ghost(before));
        fired
    }

    /// Removes and returns the oldest value under `id`; `None` where nothing
    /// waits there.
    pub fn pop(&mut self, id: CallbackId) -> (popped: Option<T>)
        ensures
            old(self).pops(*final(self), id, popped),
    {
        let ghost before = *self;
        let mut entry = self.take_entry(id);
        let popped = entry.stack.pop_front();
        self.put_entry(id, entry, Ghost(before));
        popped
    }

    /// Arms a listener under `id`, in place of any that was armed there.
    pub fn listen(&mut self, id: CallbackId, f: L)
        ensures
            old(self).listens(*final(self), id, f),
    {
        let ghost before = *self;
        let mut entry = self.take_entry(id);
        entry.notify = Some(f);
        self.put_entry(id, entry, Ghost(before));
    }

    /// Arms a listener under `id` and pops the oldest value there, in one
    /// step.
    pub fn pop_listen(&mut self, id: CallbackId, f: L) -> (popped: Option<T>)
        ensures
            popped == head(old(self).queue(id)),
            final(self).queue(id) == tail(old(self).queue(id)),
            final(self).listener(id) == Some(f),
            final(self).counter() == old(self).counter(),
            old(self).same_elsewhere(*final(self), id),
    {
        self.listen(id, f);
        self.pop(id)
    }
}

/// A listener: one that fires once, or a handler that takes every value and
/// is armed again after each.
pub enum Listener<F, H> {
    Once(F),
    Repeating(H),
}

/// What is to be done with a listener that a push handed out.
pub enum Fired<T, F, H> {
    /// Call the listener.
    Once(F),
    /// Call the handler on the value, then arm the handler again with
    /// [`Callbacks::on`].
    Repeating { handler: H, value: T },
}

impl<T, F, H> Callbacks<T, Listener<F, H>> {
    /// Arms a handler under `id` that is to take every value pushed there,
    /// in place of any listener that was armed there.
    pub fn on(&mut self, id: CallbackId, handler: H)
        ensures
            old(self).listens(*final(self), id, Listener::Repeating(handler)),
    {
        self.listen(id, Listener::Repeating(handler));
    }

    /// Says what a listener that a push under `id` handed out asks for. For a
    /// handler that repeats, this pops the value that it is to take, which the
    /// push has left in the queue.
    pub fn fire(&mut self, id: CallbackId, listener: Listener<F, H>) -> (fired: Fired<T, F, H>)
        requires
            listener is Repeating ==> old(self).queue(id).len() > 0,
        ensures
            match listener {
                Listener::Once(f) => fired == Fired::<T, F, H>::Once(f) && *final(self) == *old(
                    self,
                ),
                Listener::Repeating(handler) => fired == (Fired::<T, F, H>::Repeating {
                    handler,
                    value: old(self).queue(id)[0],
                }) && old(self).pops(*final(self), id, Some(old(self).queue(id)[0])),
            },
    {
        match listener {
            Listener::Once(f) => Fired::Once(f),
            Listener::Repeating(handler) => {
                let value = self.pop(id).unwrap();
                Fired::Repeating { handler, value }
            },
        }
    }
}

/// A handler that repeats is armed whenever it is not in hand: a push hands
/// it out, firing it takes the oldest value, and arming it again leaves it
/// where it was, with one value less in the queue than after the push.
pub proof fn lemma_on_stays_armed<T, F, H>(
    start: Callbacks<T, Listener<F, H>>,
    pushed: Callbacks<T, Listener<F, H>>,
    fired: Callbacks<T, Listener<F, H>>,
    armed: Callbacks<T, Listener<F, H>>,
    id: CallbackId,
    handler: H,
    value: T,
    handed: Option<Listener<F, H>>,
    taken: Option<T>,
)
    requires
        start.listener(id) == Some(Listener::<F, H>::Repeating(handler)),
        start.pushes(pushed, id, value, handed),
        pushed.pops(fired, id, taken),
        fired.listens(armed, id, Listener::Repeating(handler)),
    ensures
        handed == Some(Listener::<F, H>::Repeating(handler)),
        pushed.queue(id).len() > 0,
        taken == Some(start.queue(id).push(value)[0]),
        armed.listener(id) == start.listener(id),
        armed.queue(id) == tail(start.queue(id).push(value)),
        start.queue(id).len() == 0 ==> taken == Some(value) && armed.queue(id) == start.queue(id),
{
    if start.queue(id).len() == 0 {
        assert(tail(start.queue(id).push(value)) =~= start.queue(id));
    }
}

/// One step on a queue: a push of a value, or a pop.
pub enum QueueOp<T> {
    Push(T),
    Pop,
}

/// The queue that a run of pushes and pops leaves of the queue `start`.
pub open spec fn queue_after<T>(start: Seq<T>, ops: Seq<QueueOp<T>>) -> Seq<T>
    decreases ops.len(),
{
    if ops.len() == 0 {
        start
    } else {
        let before = queue_after(start, ops.drop_last());
        match ops.last() {
            QueueOp::Push(value) => before.push(value),
            QueueOp::Pop => tail(before),
        }
    }
}

/// The values that a run pushes, in the order of the pushes.
pub open spec fn pushed<T>(ops: Seq<QueueOp<T>>) -> Seq<T>
    decreases ops.len(),
{
    if ops.len() == 0 {
        Seq::empty()
    } else {
        match ops.last() {
            QueueOp::Push(value) => pushed(ops.drop_last()).push(value),
            QueueOp::Pop => pushed(ops.drop_last()),
        }
    }
}

/// The values that the pops of a run hand out, in the order of the pops.
pub open spec fn popped<T>(start: Seq<T>, ops: Seq<QueueOp<T>>) -> Seq<T>
    decreases ops.len(),
{
    if ops.len() == 0 {
        Seq::empty()
    } else {
        match ops.last() {
            QueueOp::Push(_) => popped(start, ops.drop_last()),
            QueueOp::Pop => match head(queue_after(start, ops.drop_last())) {
                Some(value) => popped(start, ops.drop_last()).push(value),
                None => popped(start, ops.drop_last()),
            },
        }
    }
}

/// First in, first out: however pushes and pops under one id are mixed, the
/// values popped so far, followed by those that still wait, are the values
/// that waited at the start followed by the values pushed, in that order.
pub proof fn lemma_fifo<T>(start: Seq<T>, ops: Seq<QueueOp<T>>)
    ensures
        popped(start, ops) + queue_after(start, ops) == start + pushed(ops),
    decreases ops.len(),
{
    if ops.len() == 0 {
        assert(popped(start, ops) + queue_after(start, ops) =~= start + pushed(ops));
    } else {
        let earlier = ops.drop_last();
        lemma_fifo(start, earlier);
        let waiting = queue_after(start, earlier);
        let out = popped(start, earlier);
        match ops.last() {
            QueueOp::Push(value) => {
                assert(out + waiting.push(value) =~= (out + waiting).push(value));
                assert(start + pushed(earlier).push(value) =~= (start + pushed(earlier)).push(
                    value,
                ));
            },
            QueueOp::Pop => {
                if waiting.len() > 0 {
                    assert(out.push(waiting[0]) + tail(waiting) =~= out + waiting);
                }
            },
        }
    }
}

/// A listener fires once: the first push after it was armed hands it out and
/// leaves none armed, and the push after that hands out nothing.
pub proof fn lemma_listener_fires_once<T, L>(
    start: Callbacks<T, L>,
    armed: Callbacks<T, L>,
    once: Callbacks<T, L>,
    twice: Callbacks<T, L>,
    id: CallbackId,
    f: L,
    first: T,
    second: T,
    fired_first: Option<L>,
    fired_second: Option<L>,
)
    requires
        start.listens(armed, id, f),
        armed.pushes(once, id, first, fired_first),
        once.pushes(twice, id, second, fired_second),
    ensures
        fired_first == Some(f),
        once.listener(id) is None,
        fired_second is None,
        twice.queue(id) == start.queue(id).push(first).push(second),
{
}

/// A value pushed under an id on which nobody listens is kept: the next pop
/// of an empty queue after the push hands it out.
pub proof fn lemma_push_is_kept<T, L>(
    start: Callbacks<T, L>,
    filled: Callbacks<T, L>,
    emptied: Callbacks<T, L>,
    id: CallbackId,
    value: T,
    fired: Option<L>,
    popped: Option<T>,
)
    requires
        start.queue(id) == Seq::<T>::empty(),
        start.pushes(filled, id, value, fired),
        filled.pops(emptied, id, popped),
    ensures
        popped == Some(value),
        emptied.queue(id) == Seq::<T>::empty(),
{
    assert(filled.queue(id) =~= seq![value]);
    assert(emptied.queue(id) =~= Seq::<T>::empty());
}

} // verus!
