//! The console of the browser.

use crate::outgoing::{call_text, json_string, EncodeError, Outgoing, CALL_FN};
use crate::Prelude;
use vstd::prelude::*;

verus! {

/// The request that logs a message to the console. The message is JSON text:
/// one value, or an array of the values to log.
pub fn log(prelude: &Prelude, args_json: &str) -> (r: Result<Outgoing, EncodeError>)
    ensures
        r matches Ok(request) && request.carries(
            CALL_FN,
            call_text(prelude.0.id(), json_string("console.log"@), args_json@),
        ),
{
    prelude.0.call("console.log", args_json)
}

/// The request that logs an error to the console.
pub fn error(prelude: &Prelude, args_json: &str) -> (r: Result<Outgoing, EncodeError>)
    ensures
        r matches Ok(request) && request.carries(
            CALL_FN,
            call_text(prelude.0.id(), json_string("console.error"@), args_json@),
        ),
{
    prelude.0.call("console.error", args_json)
}

/// The request that logs a warning to the console.
pub fn warn(prelude: &Prelude, args_json: &str) -> (r: Result<Outgoing, EncodeError>)
    ensures
        r matches Ok(request) && request.carries(
            CALL_FN,
            call_text(prelude.0.id(), json_string("console.warn"@), args_json@),
        ),
{
    prelude.0.call("console.warn", args_json)
}

} // verus!
