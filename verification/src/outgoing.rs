//! The outbound call surface: what the guest asks of the host.
//!
//! Every request is one call of the host import with an opcode and two
//! arguments. The functions here build the requests; the embedding program
//! turns a payload into a fat pointer and makes the call.

use vstd::prelude::*;
use vstd::string::*;

verus! {

/// Tells the host the address of the guest's inbound dispatcher.
pub const REGISTER_STASIS_CB: u32 = 0;

/// Asks the host for a new module.
pub const CREATE_MODULE: u32 = 1;

/// Binds a JavaScript function in a module.
pub const REGISTER_FN: u32 = 2;

/// Binds a guest callback in a module.
pub const REGISTER_CB: u32 = 3;

/// Calls a function of a module.
pub const CALL_FN: u32 = 4;

/// One request to the host.
#[derive(Debug, PartialEq, Eq)]
pub enum Outgoing {
    /// An opcode with two numbers as its arguments.
    Scalar { op: u32, a: u32, b: u32 },
    /// An opcode whose two arguments are the fat pointer of a JSON payload.
    /// The host owns the payload from the moment of the call.
    Payload { op: u32, json: String },
}

impl Outgoing {
    /// The opcode of the request.
    pub open spec fn opcode(self) -> u32 {
        match self {
            Outgoing::Scalar { op, .. } => op,
            Outgoing::Payload { op, .. } => op,
        }
    }

    /// Whether the request carries the JSON payload `text` under the opcode
    /// `op`.
    pub open spec fn carries(self, op: u32, text: Seq<char>) -> bool {
        self.opcode() == op && self.text() == Some(text)
    }

    /// The JSON text of the request, if it carries one.
    pub open spec fn text(self) -> Option<Seq<char>> {
        match self {
            Outgoing::Scalar { .. } => None,
            Outgoing::Payload { json, .. } => Some(json@),
        }
    }
}

/// The part of a request that could not be written as JSON. No string is
/// refused by the JSON writer, so every function of this crate that builds a
/// request states that it succeeds; the type names what a failure would be
/// about.
#[derive(Debug, Clone, Copy, PartialEq, Eq, Structural)]
pub enum EncodeError {
    /// The name of the function or callback.
    Name,
    /// The source of the function.
    Code,
    /// The argument of a call.
    Args,
}

/// The character of one decimal digit.
pub open spec fn digit(d: nat) -> char
    recommends
        d < 10,
{
    if d == 0 {
        '0'
    } else if d == 1 {
        '1'
    } else if d == 2 {
        '2'
    } else if d == 3 {
        '3'
    } else if d == 4 {
        '4'
    } else if d == 5 {
        '5'
    } else if d == 6 {
        '6'
    } else if d == 7 {
        '7'
    } else if d == 8 {
        '8'
    } else {
        '9'
    }
}

/// A number in decimal, without leading zeros.
pub open spec fn decimal(n: nat) -> Seq<char>
    decreases n,
{
    if n < 10 {
        seq![digit(n)]
    } else {
        decimal(n / 10) + seq![digit(n % 10)]
    }
}

fn digit_str(d: u32) -> (text: &'static str)
    requires
        d < 10,
    ensures
        text@ == seq![digit(d as nat)],
{
    proof {
        reveal_strlit("0");
        reveal_strlit("1");
        reveal_strlit("2");
        reveal_strlit("3");
        reveal_strlit("4");
        reveal_strlit("5");
        reveal_strlit("6");
        reveal_strlit("7");
        reveal_strlit("8");
        reveal_strlit("9");
    }
    let text = match d {
        0 => "0",
        1 => "1",
        2 => "2",
        3 => "3",
        4 => "4",
        5 => "5",
        6 => "6",
        7 => "7",
        8 => "8",
        _ => "9",
    };
    assert(text@ =~= seq![digit(d as nat)]);
    text
}

/// Writes a number in decimal.
pub fn u32_to_decimal(n: u32) -> (text: String)
    ensures
        text@ == decimal(n as nat),
{
    let mut text = String::from_str(digit_str(n % 10));
    let mut rest: u32 = n / 10;
    while rest > 0
        invariant
            rest > 0 ==> decimal(n as nat) == decimal(rest as nat) + text@,
            rest == 0 ==> decimal(n as nat) == text@,
        decreases rest,
    {
        let ghost before = text@;
        text = String::from_str(digit_str(rest % 10)).concat(text.as_str());
        proof {
            let d = seq![digit((rest % 10) as nat)];
            assert(text@ == d + before);
            if rest >= 10 {
                assert((decimal((rest / 10) as nat) + d) + before =~= decimal((rest / 10) as nat)
                    + (d + before));
            }
        }
        rest = rest / 10;
    }
    text
}

#[verifier::external_type_specification]
#[verifier::external_body]
pub struct ExJsonError(serde_json::Error);

/// The lower-case hexadecimal digit of a number below sixteen.
pub open spec fn hex_digit(d: nat) -> char
    recommends
        d < 16,
{
    if d < 10 {
        digit(d)
    } else if d == 10 {
        'a'
    } else if d == 11 {
        'b'
    } else if d == 12 {
        'c'
    } else if d == 13 {
        'd'
    } else if d == 14 {
        'e'
    } else {
        'f'
    }
}

/// One character as it stands inside a JSON string: the quote, the backslash
/// and the control characters below U+0020 are escaped, the common ones by a
/// letter and the others by their code in four hexadecimal digits; every
/// other character stands for itself.
pub open spec fn json_char(c: char) -> Seq<char> {
    if c == '"' {
        seq!['\\', '"']
    } else if c == '\\' {
        seq!['\\', '\\']
    } else if c == '\u{8}' {
        seq!['\\', 'b']
    } else if c == '\t' {
        seq!['\\', 't']
    } else if c == '\n' {
        seq!['\\', 'n']
    } else if c == '\u{c}' {
        seq!['\\', 'f']
    } else if c == '\r' {
        seq!['\\', 'r']
    } else if (c as u32) < 0x20 {
        seq![
            '\\',
            'u',
            '0',
            '0',
            hex_digit((c as u32 / 16) as nat),
            hex_digit((c as u32 % 16) as nat),
        ]
    } else {
        seq![c]
    }
}

/// The characters of a text as they stand inside a JSON string.
pub open spec fn json_chars(text: Seq<char>) -> Seq<char>
    decreases text.len(),
{
    if text.len() == 0 {
        Seq::empty()
    } else {
        json_chars(text.drop_last()) + json_char(text.last())
    }
}

/// The JSON text of a string: its characters, escaped where JSON asks for
/// it, between double quotes.
pub open spec fn json_string(text: Seq<char>) -> Seq<char> {
    seq!['"'] + json_chars(text) + seq!['"']
}

/// A text without a quote, a backslash or a control character stands inside
/// a JSON string as it is.
pub proof fn lemma_plain_text(text: Seq<char>)
    requires
        forall|i: int| 0 <= i < text.len() ==> json_char(#[trigger] text[i]) == seq![text[i]],
    ensures
        json_chars(text) == text,
        json_string(text) == seq!['"'] + text + seq!['"'],
    decreases text.len(),
{
    if text.len() > 0 {
        lemma_plain_text(text.drop_last());
        assert(text.drop_last() + seq![text.last()] =~= text);
    }
}

/// Calls `serde_json::to_string` on a string. The call writes into memory and
/// the string is its own serializer, so it succeeds, and its result is the
/// JSON text of the string: a quote, each character as the escape table of
/// the crate has it, and a quote.
#[verifier::external_body]
pub(crate) fn to_json_string(text: &str) -> (r: Result<String, serde_json::Error>)
    ensures
        r is Ok,
        r matches Ok(json) ==> json@ == json_string(text@),
{
    serde_json::to_string(text)
}

/// The payload that binds the function `code` under `name` in a module, given
/// the JSON texts of the name and of the code.
pub open spec fn register_fn_text(module_id: u32, name_json: Seq<char>, code_json: Seq<char>) -> Seq<
    char,
> {
    "{\"id\":"@ + decimal(module_id as nat) + ",\"name\":"@ + name_json + ",\"code\":"@ + code_json
        + "}"@
}

/// The payload that binds a guest callback under `name` in a module, given
/// the JSON text of the name.
pub open spec fn register_callback_text(
    module_id: u32,
    callback_id: u32,
    name_json: Seq<char>,
) -> Seq<char> {
    "{\"module\":"@ + decimal(module_id as nat) + ",\"callback\":"@ + decimal(callback_id as nat)
        + ",\"name\":"@ + name_json + "}"@
}

/// The payload that calls the function `name` of a module, given the JSON
/// texts of the name and of the argument.
pub open spec fn call_text(module_id: u32, name_json: Seq<char>, args_json: Seq<char>) -> Seq<
    char,
> {
    "{\"id\":"@ + decimal(module_id as nat) + ",\"name\":"@ + name_json + ",\"args\":"@ + args_json
        + "}"@
}

/// Frames a register-function request around the JSON texts of its strings.
pub fn register_fn_message(module_id: u32, name_json: &str, code_json: &str) -> (message: Outgoing)
    ensures
        message.opcode() == REGISTER_FN,
        message.text() == Some(register_fn_text(module_id, name_json@, code_json@)),
{
    let mut json = String::from_str("{\"id\":");
    json.append(u32_to_decimal(module_id).as_str());
    json.append(",\"name\":");
    json.append(name_json);
    json.append(",\"code\":");
    json.append(code_json);
    json.append("}");
    Outgoing::Payload { op: REGISTER_FN, json }
}

/// Frames a register-callback request around the JSON text of its name.
pub fn register_callback_message(module_id: u32, callback_id: u32, name_json: &str) -> (message:
    Outgoing)
    ensures
        message.opcode() == REGISTER_CB,
        message.text() == Some(register_callback_text(module_id, callback_id, name_json@)),
{
    let mut json = String::from_str("{\"module\":");
    json.append(u32_to_decimal(module_id).as_str());
    json.append(",\"callback\":");
    json.append(u32_to_decimal(callback_id).as_str());
    json.append(",\"name\":");
    json.append(name_json);
    json.append("}");
    Outgoing::Payload { op: REGISTER_CB, json }
}

/// Frames a call request around the JSON texts of its name and argument.
pub fn call_message(module_id: u32, name_json: &str, args_json: &str) -> (message: Outgoing)
    ensures
        message.opcode() == CALL_FN,
        message.text() == Some(call_text(module_id, name_json@, args_json@)),
{
    let mut json = String::from_str("{\"id\":");
    json.append(u32_to_decimal(module_id).as_str());
    json.append(",\"name\":");
    json.append(name_json);
    json.append(",\"args\":");
    json.append(args_json);
    json.append("}");
    Outgoing::Payload { op: CALL_FN, json }
}

/// The request that tells the host where the inbound dispatcher is.
pub fn register_stasis_callback(dispatcher: u32) -> (message: Outgoing)
    ensures
        message == (Outgoing::Scalar { op: REGISTER_STASIS_CB, a: dispatcher, b: 0 }),
{
    Outgoing::Scalar { op: REGISTER_STASIS_CB, a: dispatcher, b: 0 }
}

/// The latch of the startup handshake: whether the host knows the dispatcher.
pub struct Handshake {
    registered: bool,
}

impl Handshake {
    /// Whether the dispatcher has been announced.
    pub closed spec fn registered(&self) -> bool {
        self.registered
    }

    /// The latch of a guest that has not called the host yet.
    pub fn new() -> (latch: Self)
        ensures
            !latch.registered(),
    {
        Handshake { registered: false }
    }

    /// Whether the dispatcher has been announced.
    pub fn is_registered(&self) -> (registered: bool)
        ensures
            registered == self.registered(),
    {
        self.registered
    }
}

/// The requests that create a module, in the order in which they are made,
/// by whether the dispatcher has been announced.
pub open spec fn module_requests(registered: bool, dispatcher: u32) -> Seq<Outgoing> {
    if registered {
        seq![Outgoing::Scalar { op: CREATE_MODULE, a: 0, b: 0 }]
    } else {
        seq![
            Outgoing::Scalar { op: REGISTER_STASIS_CB, a: dispatcher, b: 0 },
            Outgoing::Scalar { op: CREATE_MODULE, a: 0, b: 0 },
        ]
    }
}

/// The requests that create a module, in the order in which they are made.
/// The first creation on a guest announces the dispatcher before it; the last
/// request is the one whose answer is the id of the new module.
pub fn create_module(latch: &mut Handshake, dispatcher: u32) -> (calls: Vec<Outgoing>)
    ensures
        final(latch).registered(),
        calls@ == module_requests(old(latch).registered(), dispatcher),
{
    let mut calls: Vec<Outgoing> = Vec::new();
    if !latch.registered {
        calls.push(register_stasis_callback(dispatcher));
        latch.registered = true;
    }
    calls.push(Outgoing::Scalar { op: CREATE_MODULE, a: 0, b: 0 });
    assert(calls@ =~= module_requests(old(latch).registered(), dispatcher));
    calls
}

/// The dispatcher is announced once and first: the requests of the first
/// creation begin with the announcement, and those of every later creation
/// hold none. Each creation ends with the request for the module.
pub proof fn lemma_announced_once(dispatcher: u32)
    ensures
        module_requests(false, dispatcher)[0] == (Outgoing::Scalar {
            op: REGISTER_STASIS_CB,
            a: dispatcher,
            b: 0,
        }),
        forall|i: int|
            0 <= i < module_requests(true, dispatcher).len() ==> (#[trigger] module_requests(
                true,
                dispatcher,
            )[i]).opcode() != REGISTER_STASIS_CB,
        module_requests(false, dispatcher).last().opcode() == CREATE_MODULE,
        module_requests(true, dispatcher).last().opcode() == CREATE_MODULE,
{
}

/// The request that binds the JavaScript function `code` under `name` in a
/// module. The request is always made: the result is `Ok`.
pub fn register_fn(module_id: u32, name: &str, code: &str) -> (r: Result<Outgoing, EncodeError>)
    ensures
        r matches Ok(message) && message.carries(
            REGISTER_FN,
            register_fn_text(module_id, json_string(name@), json_string(code@)),
        ),
{
    let name_json = match to_json_string(name) {
        Ok(json) => json,
        Err(_) => { return Err(EncodeError::Name); },
    };
    let code_json = match to_json_string(code) {
        Ok(json) => json,
        Err(_) => { return Err(EncodeError::Code); },
    };
    Ok(register_fn_message(module_id, name_json.as_str(), code_json.as_str()))
}

/// The request that binds the guest callback `callback_id` under `name` in a
/// module. The request is always made: the result is `Ok`.
pub fn register_callback(module_id: u32, name: &str, callback_id: u32) -> (r: Result<
    Outgoing,
    EncodeError,
>)
    ensures
        r matches Ok(message) && message.carries(
            REGISTER_CB,
            register_callback_text(module_id, callback_id, json_string(name@)),
        ),
{
    match to_json_string(name) {
        Ok(json) => Ok(register_callback_message(module_id, callback_id, json.as_str())),
        Err(_) => Err(EncodeError::Name),
    }
}

/// The request that calls the function `name` of a module with an argument
/// that is already JSON text. The request is always made: the result is
/// `Ok`.
pub fn call(module_id: u32, name: &str, args_json: &str) -> (r: Result<Outgoing, EncodeError>)
    ensures
        r matches Ok(message) && message.carries(
            CALL_FN,
            call_text(module_id, json_string(name@), args_json@),
        ),
{
    match to_json_string(name) {
        Ok(json) => Ok(call_message(module_id, json.as_str(), args_json)),
        Err(_) => Err(EncodeError::Name),
    }
}

/// What the host handed back from a call.
#[derive(Debug, Clone, Copy, PartialEq, Eq, Structural)]
pub enum CallReturn {
    /// Nothing: the result is the JSON literal `null`.
    Null,
    /// The address of an eight-byte header, which the guest now owns together
    /// with the region that the header points to.
    Header { addr: u32 },
}

/// Reads the number that a call returned.
pub fn call_return(ret: u32) -> (returned: CallReturn)
    ensures
        ret == 0 ==> returned == CallReturn::Null,
        ret != 0 ==> returned == (CallReturn::Header { addr: ret }),
{
    if ret == 0 {
        CallReturn::Null
    } else {
        CallReturn::Header { addr: ret }
    }
}

/// The JSON text of a call's result: the payload that the host sent, or the
/// literal `null` where it sent none.
pub fn return_json(payload: Option<String>) -> (json: String)
    ensures
        json@ == match payload {
            Some(text) => text@,
            None => "null"@,
        },
{
    match payload {
        Some(text) => text,
        None => String::from_str("null"),
    }
}

} // verus!
