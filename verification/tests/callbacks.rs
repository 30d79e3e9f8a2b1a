use stasis::callbacks::{CallbackId, Callbacks, Fired, LazyId, Listener};
use std::cell::Cell;
use std::rc::Rc;

#[test]
fn ids_count_up_from_one() {
    let mut callbacks: Callbacks<u8, u8> = Callbacks::new();
    assert_eq!(callbacks.create(), CallbackId(1));
    assert_eq!(callbacks.create(), CallbackId(2));
    assert_eq!(callbacks.create(), CallbackId(3));
}

#[test]
fn pop_is_first_in_first_out() {
    let mut callbacks: Callbacks<u32, u8> = Callbacks::new();
    let id = callbacks.create();
    callbacks.push(id, 10);
    callbacks.push(id, 20);
    assert_eq!(callbacks.pop(id), Some(10));
    callbacks.push(id, 30);
    assert_eq!(callbacks.pop(id), Some(20));
    assert_eq!(callbacks.pop(id), Some(30));
    assert_eq!(callbacks.pop(id), None);
}

#[test]
fn queues_do_not_mix() {
    let mut callbacks: Callbacks<&str, u8> = Callbacks::new();
    let a = callbacks.create();
    let b = callbacks.create();
    callbacks.push(a, "a1");
    callbacks.push(b, "b1");
    callbacks.push(a, "a2");
    assert_eq!(callbacks.pop(b), Some("b1"));
    assert_eq!(callbacks.pop(b), None);
    assert_eq!(callbacks.pop(a), Some("a1"));
    assert_eq!(callbacks.pop(a), Some("a2"));
}

#[test]
fn pop_of_an_unknown_id_is_none() {
    let mut callbacks: Callbacks<u32, u8> = Callbacks::new();
    assert_eq!(callbacks.pop(CallbackId(42)), None);
}

#[test]
fn push_before_listen_is_kept() {
    let mut callbacks: Callbacks<u32, u8> = Callbacks::new();
    let id = callbacks.create();
    assert_eq!(callbacks.push(id, 5), None);
    callbacks.listen(id, 1);
    assert_eq!(callbacks.pop(id), Some(5));
}

#[test]
fn listener_is_handed_out_once() {
    let mut callbacks: Callbacks<(), &str> = Callbacks::new();
    let id = callbacks.create();
    callbacks.listen(id, "armed");
    assert_eq!(callbacks.push(id, ()), Some("armed"));
    assert_eq!(callbacks.push(id, ()), None);
    assert_eq!(callbacks.pop(id), Some(()));
    assert_eq!(callbacks.pop(id), Some(()));
    assert_eq!(callbacks.pop(id), None);
}

#[test]
fn listen_replaces_the_listener() {
    let mut callbacks: Callbacks<u8, &str> = Callbacks::new();
    let id = callbacks.create();
    callbacks.listen(id, "first");
    callbacks.listen(id, "second");
    assert_eq!(callbacks.push(id, 0), Some("second"));
}

#[test]
fn listeners_do_not_mix() {
    let mut callbacks: Callbacks<u8, &str> = Callbacks::new();
    let a = callbacks.create();
    let b = callbacks.create();
    callbacks.listen(a, "on a");
    assert_eq!(callbacks.push(b, 1), None);
    assert_eq!(callbacks.push(a, 2), Some("on a"));
}

#[test]
fn pop_listen_pops_and_arms() {
    let mut callbacks: Callbacks<u32, &str> = Callbacks::new();
    let id = callbacks.create();
    assert_eq!(callbacks.pop_listen(id, "l1"), None);
    assert_eq!(callbacks.push(id, 8), Some("l1"));
    callbacks.push(id, 9);
    assert_eq!(callbacks.pop_listen(id, "l2"), Some(8));
    assert_eq!(callbacks.push(id, 10), Some("l2"));
    assert_eq!(callbacks.pop(id), Some(9));
    assert_eq!(callbacks.pop(id), Some(10));
}

#[test]
fn timeout_fires_its_listener_once() {
    let fired = Rc::new(Cell::new(0u32));
    let mut callbacks: Callbacks<(), Box<dyn FnOnce()>> = Callbacks::new();
    let id = callbacks.create();
    let count = fired.clone();
    callbacks.listen(id, Box::new(move || count.set(count.get() + 1)));
    if let Some(listener) = callbacks.push(id, ()) {
        listener();
    }
    if let Some(listener) = callbacks.push(id, ()) {
        listener();
    }
    assert_eq!(fired.get(), 1);
}

#[test]
fn lazy_id_runs_its_setup_once() {
    let mut callbacks: Callbacks<u8, u8> = Callbacks::new();
    let mut lazy: LazyId = callbacks.lazy();
    let runs = Cell::new(0u32);
    let seen = Cell::new(0u32);
    let id = lazy.get_or_init(|id: CallbackId| {
        runs.set(runs.get() + 1);
        seen.set(id.0);
    });
    assert_eq!(id, CallbackId(1));
    assert_eq!(seen.get(), 1);
    let again = lazy.get_or_init(|_id: CallbackId| runs.set(runs.get() + 1));
    assert_eq!(again, id);
    assert_eq!(runs.get(), 1);
}

#[test]
fn lazy_ids_are_fresh() {
    let mut callbacks: Callbacks<u8, u8> = Callbacks::new();
    let first = callbacks.create();
    let mut lazy = callbacks.lazy();
    let second = lazy.get_or_init(|_id: CallbackId| ());
    assert_ne!(first, second);
    assert_eq!(second, CallbackId(2));
    assert_eq!(callbacks.create(), CallbackId(3));
}

#[test]
fn on_takes_every_value() {
    let seen = Rc::new(std::cell::RefCell::new(Vec::new()));
    let mut callbacks: Callbacks<u32, Listener<Box<dyn FnOnce()>, Box<dyn FnMut(u32)>>> =
        Callbacks::new();
    let id = callbacks.create();
    let log = seen.clone();
    callbacks.on(id, Box::new(move |value| log.borrow_mut().push(value)));
    for value in [1u32, 2, 3] {
        if let Some(listener) = callbacks.push(id, value) {
            match callbacks.fire(id, listener) {
                Fired::Once(f) => f(),
                Fired::Repeating { mut handler, value } => {
                    handler(value);
                    callbacks.on(id, handler);
                }
            }
        }
    }
    assert_eq!(*seen.borrow(), vec![1, 2, 3]);
    assert_eq!(callbacks.pop(id), None);
}

#[test]
fn fire_leaves_the_queue_to_a_listener_that_fires_once() {
    let mut callbacks: Callbacks<u32, Listener<&str, &str>> = Callbacks::new();
    let id = callbacks.create();
    callbacks.listen(id, Listener::Once("once"));
    let listener = callbacks.push(id, 4).unwrap();
    match callbacks.fire(id, listener) {
        Fired::Once(f) => assert_eq!(f, "once"),
        Fired::Repeating { .. } => panic!("the listener fires once"),
    }
    assert_eq!(callbacks.pop(id), Some(4));
}
