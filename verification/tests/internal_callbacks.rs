use stasis::internal_callbacks::{call, invoke, normalize, Callbacks};

type Handler = Box<dyn Fn(String) -> String>;

fn upper() -> Handler {
    Box::new(|args: String| args.to_uppercase())
}

fn nothing() -> Handler {
    Box::new(|_args: String| "null".to_string())
}

#[test]
fn callback_ids_count_up_from_zero() {
    let mut callbacks: Callbacks<Handler> = Callbacks::new();
    assert_eq!(callbacks.register(upper()), 0);
    assert_eq!(callbacks.register(nothing()), 1);
    assert_eq!(callbacks.register(upper()), 2);
}

#[test]
fn ids_are_never_reused() {
    let mut callbacks: Callbacks<u32> = Callbacks::new();
    let mut last = None;
    for n in 0..100u32 {
        assert!(callbacks.has_room());
        let id = callbacks.register(n * 3);
        if let Some(before) = last {
            assert!(id > before);
        }
        last = Some(id);
    }
    for n in 0..100u32 {
        assert_eq!(callbacks.get(n), Some(&(n * 3)));
    }
    assert_eq!(callbacks.get(100), None);
}

#[test]
fn unknown_id_is_not_found() {
    let callbacks: Callbacks<Handler> = Callbacks::new();
    assert!(callbacks.get(0).is_none());
}

#[test]
fn call_runs_the_callback() {
    let mut callbacks: Callbacks<Handler> = Callbacks::new();
    let id = callbacks.register(upper());
    assert_eq!(call(&callbacks, id, "\"abc\"".to_string()), Some("\"ABC\"".to_string()));
}

#[test]
fn call_finds_each_callback_under_its_id() {
    let mut callbacks: Callbacks<Handler> = Callbacks::new();
    let first = callbacks.register(upper());
    let second = callbacks.register(Box::new(|args: String| format!("[{}]", args)));
    assert_eq!(call(&callbacks, second, "1".to_string()), Some("[1]".to_string()));
    assert_eq!(call(&callbacks, first, "\"x\"".to_string()), Some("\"X\"".to_string()));
}

#[test]
fn null_is_sent_as_nothing() {
    let mut callbacks: Callbacks<Handler> = Callbacks::new();
    let id = callbacks.register(nothing());
    assert_eq!(call(&callbacks, id, "[]".to_string()), None);
}

#[test]
fn only_the_literal_null_is_dropped() {
    assert_eq!(normalize("null".to_string()), None);
    assert_eq!(normalize("\"null\"".to_string()), Some("\"null\"".to_string()));
    assert_eq!(normalize(" null".to_string()), Some(" null".to_string()));
    assert_eq!(normalize("".to_string()), Some("".to_string()));
    assert_eq!(normalize("0".to_string()), Some("0".to_string()));
}

#[test]
fn invoke_runs_a_callback_that_was_taken_out() {
    let mut callbacks: Callbacks<std::rc::Rc<Handler>> = Callbacks::new();
    let id = callbacks.register(std::rc::Rc::new(upper()));
    let taken = callbacks.get(id).cloned().unwrap();
    let again = callbacks.register(std::rc::Rc::new(nothing()));
    assert_eq!(again, 1);
    assert_eq!(invoke(&*taken, "\"abc\"".to_string()), Some("\"ABC\"".to_string()));
}
