use vstd::prelude::*;
use crate::error::{WebDriverResult, http_status_of};
use crate::json::{JsonValue, ToJson};

verus! {

/// The status code of a successful response.
pub const SUCCESS_STATUS: u16 = 200;

/// An HTTP response: a status code and a JSON body.
#[derive(Debug, PartialEq)]
pub struct Response {
    pub status: u16,
    pub body: JsonValue,
}

/// Wraps the outcome of a command: a result is sent as it is with status
/// 200; an error as `{"error": <message>, "status": <wire string>}` with its
/// status's HTTP code.
pub fn render(result: WebDriverResult<JsonValue>) -> (r: Response)
    ensures
        match result {
            Ok(v) => r.status == SUCCESS_STATUS && r.body == v,
            Err(e) => r.status == http_status_of(e.status) && e.encodes_as(r.body),
        },
{
    match result {
        Ok(v) => Response { status: SUCCESS_STATUS, body: v },
        Err(e) => Response { status: e.http_status(), body: e.to_json() },
    }
}

} // verus!
