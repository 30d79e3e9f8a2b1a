//! The registry of the callbacks that the host may invoke.
//!
//! A registered callback takes its argument as JSON text and gives its result
//! as JSON text. The registry gives each callback an id, counted up from 0,
//! and finds it again by that id for as long as the guest lives.

use std::collections::HashMap;
use vstd::prelude::*;
use vstd::string::*;

verus! {

broadcast use vstd::std_specs::hash::group_hash_axioms;

/// The callbacks registered so far, each under its id.
pub struct Callbacks<F> {
    current: u32,
    registered: HashMap<u32, F>,
}

impl<F> Callbacks<F> {
    /// The id that the next registered callback gets.
    pub closed spec fn next_id(&self) -> u32 {
        self.current
    }

    /// The registered callbacks, by id.
    pub closed spec fn registered(&self) -> Map<u32, F> {
        self.registered@
    }

    /// The ids in use are exactly those given out so far.
    pub open spec fn wf(&self) -> bool {
        forall|id: u32| #[trigger] self.registered().contains_key(id) <==> id < self.next_id()
    }

    /// Whether `after` is this registry once `f` has been registered in it
    /// under `id`: the id is the next one, and all that was registered stays.
    pub open spec fn registers(self, after: Self, f: F, id: u32) -> bool {
        &&& id == self.next_id()
        &&& after.next_id() == id + 1
        &&& after.registered() == self.registered().insert(id, f)
    }

    /// A registry without callbacks, whose first id is 0.
    pub fn new() -> (callbacks: Self)
        ensures
            callbacks.wf(),
            callbacks.next_id() == 0,
            callbacks.registered() == Map::<u32, F>::empty(),
    {
        Callbacks { current: 0, registered: HashMap::new() }
    }

    /// Whether another id can be given out.
    pub fn has_room(&self) -> (room: bool)
        ensures
            room == (self.next_id() < u32::MAX),
    {
        self.current < u32::MAX
    }

    /// Registers a callback under the next id and returns the id. The ids
    /// given out before keep their callbacks.
    pub fn register(&mut self, f: F) -> (id: u32)
        requires
            old(self).wf(),
            old(self).next_id() < u32::MAX,
        ensures
            final(self).wf(),
            old(self).registers(*final(self), f, id),
            !old(self).registered().contains_key(id),
    {
        let id = self.current;
        self.current = self.current + 1;
        self.registered.insert(id, f);
        assert forall|other: u32| #[trigger]
            self.registered().contains_key(other) <==> other < self.next_id() by {
            if other != id {
                assert(old(self).registered().contains_key(other) <==> other < id);
            }
        }
        id
    }

    /// The callback registered under `id`, if there is one.
    pub fn get(&self, id: u32) -> (found: Option<&F>)
        ensures
            match found {
                Some(f) => self.registered().contains_key(id) && *f == self.registered()[id],
                None => !self.registered().contains_key(id),
            },
    {
        self.registered.get(&id)
    }
}

/// What a callback's result is to the host: the JSON literal `null` is sent
/// as no value at all, any other text as it is.
pub open spec fn normalized(raw: String) -> Option<String> {
    if raw@ == "null"@ {
        None
    } else {
        Some(raw)
    }
}

/// Turns the text that a callback returned into what the host is sent.
pub fn normalize(raw: String) -> (sent: Option<String>)
    ensures
        sent == normalized(raw),
{
    if raw == String::from_str("null") {
        None
    } else {
        Some(raw)
    }
}

/// Invokes a callback on the JSON text of its argument and returns what the
/// host is sent: the text that the callback gave, or nothing where that text
/// is `null`.
///
/// A caller that guards the registry with a lock takes the callback out with
/// [`Callbacks::get`], releases the lock and only then invokes the callback
/// here, so that the callback may itself reach the registry.
pub fn invoke<F: Fn(String) -> String>(f: &F, args: String) -> (sent: Option<String>)
    requires
        f.requires((args,)),
    ensures
        exists|raw: String| f.ensures((args,), raw) && sent == normalized(raw),
{
    let raw = f(args);
    normalize(raw)
}

/// Invokes the callback registered under `id` on the JSON text of its
/// argument and returns what the host is sent: the text that the callback
/// gave, or nothing where that text is `null`.
pub fn call<F: Fn(String) -> String>(callbacks: &Callbacks<F>, id: u32, args: String) -> (sent:
    Option<String>)
    requires
        callbacks.registered().contains_key(id),
        callbacks.registered()[id].requires((args,)),
    ensures
        exists|raw: String|
            callbacks.registered()[id].ensures((args,), raw) && sent == normalized(raw),
{
    let f = callbacks.get(id).unwrap();
    invoke(f, args)
}

/// Ids are given out in strictly increasing order and never twice: of two
/// registrations in a row the second gets the greater id, neither id was in
/// use before, and afterwards each callback is found under its own id.
pub proof fn lemma_ids_increase<F>(
    start: Callbacks<F>,
    middle: Callbacks<F>,
    end: Callbacks<F>,
    f: F,
    g: F,
    first: u32,
    second: u32,
)
    requires
        start.wf(),
        start.registers(middle, f, first),
        middle.registers(end, g, second),
    ensures
        first < second,
        !start.registered().contains_key(first),
        !middle.registered().contains_key(second),
        end.registered().contains_key(first) && end.registered()[first] == f,
        end.registered().contains_key(second) && end.registered()[second] == g,
        end.wf(),
{
    assert(!start.registered().contains_key(first));
    assert forall|id: u32| #[trigger] middle.registered().contains_key(id) <==> id
        < middle.next_id() by {
        if id != first {
            assert(start.registered().contains_key(id) <==> id < first);
        }
    }
    assert(!middle.registered().contains_key(second));
    assert forall|id: u32| #[trigger] end.registered().contains_key(id) <==> id
        < end.next_id() by {
        if id != second {
            assert(middle.registered().contains_key(id) <==> id < second);
        }
    }
}

} // verus!
