//! Guest-side core of a bridge between a WebAssembly module and the JavaScript
//! environment that hosts it.
//!
//! The crate holds the parts of the bridge that decide and compute: the byte
//! codec of the numeric ABI, the framing of outbound messages, the routing of
//! inbound opcodes, the registries of callbacks and tasks, and the global
//! cell. Raw memory and the host import itself are left to the embedding
//! program, which hands this crate plain values and acts on what it returns.

use crate::outgoing::{call_text, json_string, register_fn_text, EncodeError, Outgoing};
use crate::outgoing::{CALL_FN, REGISTER_FN};
use vstd::prelude::*;
use vstd::string::*;

pub mod callbacks;
pub mod console;
pub mod data;
pub mod futures;
pub mod global;
pub mod incoming;
pub mod internal_callbacks;
pub mod outgoing;

verus! {

/// A handle to a namespace on the host, by the id that the host gave it.
#[derive(Debug, Clone, Copy, PartialEq, Eq, Structural)]
pub struct Module {
    id: u32,
}

impl Module {
    /// The id of the module.
    pub closed spec fn spec_id(&self) -> u32 {
        self.id
    }

    /// The handle to the module that the host created under `id`.
    pub fn new(id: u32) -> (module: Self)
        ensures
            module.id() == id,
    {
        Self { id }
    }

    /// The id of the module.
    #[verifier::when_used_as_spec(spec_id)]
    pub fn id(&self) -> (id: u32)
        ensures
            id == self.id(),
    {
        self.id
    }

    /// The request that binds the JavaScript function `code` under `name` in
    /// this module.
    pub fn register(&self, name: &str, code: &str) -> (r: Result<Outgoing, EncodeError>)
        ensures
            r matches Ok(message) && message.carries(
                REGISTER_FN,
                register_fn_text(self.id(), json_string(name@), json_string(code@)),
            ),
    {
        crate::outgoing::register_fn(self.id, name, code)
    }

    /// The request that binds the guest callback `callback_id` under `name`
    /// in this module.
    pub fn register_callback(&self, name: &str, callback_id: u32) -> (r: Result<
        Outgoing,
        EncodeError,
    >)
        ensures
            r matches Ok(message) && message.carries(
                crate::outgoing::REGISTER_CB,
                crate::outgoing::register_callback_text(self.id(), callback_id, json_string(name@)),
            ),
    {
        crate::outgoing::register_callback(self.id, name, callback_id)
    }

    /// The request that calls the function `name` of this module on an
    /// argument that is already JSON text.
    pub fn call(&self, name: &str, args_json: &str) -> (r: Result<Outgoing, EncodeError>)
        ensures
            r matches Ok(message) && message.carries(
                CALL_FN,
                call_text(self.id(), json_string(name@), args_json@),
            ),
    {
        crate::outgoing::call(self.id, name, args_json)
    }
}

/// The source of the host function behind [`alert`].
pub const ALERT_CODE: &'static str =
    "\n            function(s) {\n                window.alert(s);\n            }\n        ";

/// The names under which the prelude binds its functions, in the order of
/// their requests.
pub open spec fn prelude_names() -> Seq<Seq<char>> {
    seq!["console.log"@, "console.error"@, "console.warn"@, "alert"@]
}

/// The sources of the prelude's functions, in the order of their requests.
pub open spec fn prelude_codes() -> Seq<Seq<char>> {
    seq!["console.log"@, "console.error"@, "console.warn"@, ALERT_CODE@]
}

/// The module that binds the console and the alert of the browser.
#[derive(Debug, Clone, Copy, PartialEq, Eq, Structural)]
pub struct Prelude(pub Module);

impl Prelude {
    /// The four requests that fill a fresh module with the prelude's
    /// functions: `console.log`, `console.error`, `console.warn` and `alert`.
    pub fn setup(module: Module) -> (r: Result<(Prelude, Vec<Outgoing>), EncodeError>)
        ensures
            r matches Ok((prelude, requests)) && {
                &&& prelude.0 == module
                &&& requests@.len() == 4
                &&& forall|i: int|
                    0 <= i < 4 ==> (#[trigger] requests@[i]).carries(
                        REGISTER_FN,
                        register_fn_text(
                            module.id(),
                            json_string(prelude_names()[i]),
                            json_string(prelude_codes()[i]),
                        ),
                    )
            },
    {
        let mut requests: Vec<Outgoing> = Vec::new();
        match module.register("console.log", "console.log") {
            Ok(request) => requests.push(request),
            Err(e) => { return Err(e); },
        }
        match module.register("console.error", "console.error") {
            Ok(request) => requests.push(request),
            Err(e) => { return Err(e); },
        }
        match module.register("console.warn", "console.warn") {
            Ok(request) => requests.push(request),
            Err(e) => { return Err(e); },
        }
        match module.register("alert", ALERT_CODE) {
            Ok(request) => requests.push(request),
            Err(e) => { return Err(e); },
        }
        Ok((Prelude(module), requests))
    }
}

/// The request that shows `message` in an alert of the browser.
pub fn alert(prelude: &Prelude, message: &str) -> (r: Result<Outgoing, EncodeError>)
    ensures
        r matches Ok(request) && request.carries(
            CALL_FN,
            call_text(prelude.0.id(), json_string("alert"@), json_string(message@)),
        ),
{
    match crate::outgoing::to_json_string(message) {
        Ok(json) => prelude.0.call("alert", json.as_str()),
        Err(_) => Err(EncodeError::Args),
    }
}

/// The first part of a panic's report: where the panic happened.
pub open spec fn panic_place(location: Option<(u32, &str)>) -> Seq<char> {
    match location {
        Some((line, file)) => "Panic!\nLine "@ + crate::outgoing::decimal(line as nat) + " in "@
            + file@,
        None => "Panic in unknown location"@,
    }
}

/// The report of a panic: the place, then after an empty line the payload.
pub open spec fn panic_text(location: Option<(u32, &str)>, payload: Option<&str>) -> Seq<char> {
    panic_place(location) + ":\n\n"@ + match payload {
        Some(text) => text@,
        None => "No panic info."@,
    }
}

/// Writes the report of a panic from its location, a line and a file, and
/// from its payload where that is text.
pub fn panic_message(location: Option<(u32, &str)>, payload: Option<&str>) -> (report: String)
    ensures
        report@ == panic_text(location, payload),
{
    let mut report = match location {
        Some((line, file)) => {
            let mut place = String::from_str("Panic!\nLine ");
            place.append(crate::outgoing::u32_to_decimal(line).as_str());
            place.append(" in ");
            place.append(file);
            place
        },
        None => String::from_str("Panic in unknown location"),
    };
    report.append(":\n\n");
    match payload {
        Some(text) => report.append(text),
        None => report.append("No panic info."),
    }
    report
}

/// The request that writes the report of a panic to the host's error console.
pub fn panic_request(prelude: &Prelude, location: Option<(u32, &str)>, payload: Option<&str>) -> (r:
    Result<Outgoing, EncodeError>)
    ensures
        r matches Ok(request) && request.carries(
            CALL_FN,
            call_text(
                prelude.0.id(),
                json_string("console.error"@),
                json_string(panic_text(location, payload)),
            ),
        ),
{
    let report = panic_message(location, payload);
    match crate::outgoing::to_json_string(report.as_str()) {
        Ok(json) => crate::console::error(prelude, json.as_str()),
        Err(_) => Err(EncodeError::Args),
    }
}

} // verus!
