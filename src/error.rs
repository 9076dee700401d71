use vstd::prelude::*;
use crate::json::{JsonValue, ToJson, json_quoted, quote_json};

verus! {

/// The closed set of failure categories of the WebDriver protocol.
#[derive(Clone, Copy, Debug, PartialEq, Eq, Structural)]
pub enum ErrorStatus {
    ElementNotSelectable,
    ElementNotVisible,
    InvalidArgument,
    InvalidCookieDomain,
    InvalidElementCoordinates,
    InvalidElementState,
    InvalidSelector,
    InvalidSessionId,
    JavascriptError,
    MoveTargetOutOfBounds,
    NoSuchAlert,
    NoSuchElement,
    NoSuchFrame,
    NoSuchWindow,
    ScriptTimeout,
    SessionNotCreated,
    StaleElementReference,
    Timeout,
    UnableToSetCookie,
    UnexpectedAlertOpen,
    UnknownError,
    UnknownPath,
    UnknownMethod,
    UnsupportedOperation,
}

/// The canonical wire spelling of a status.
pub open spec fn wire_string(status: ErrorStatus) -> Seq<char> {
    match status {
        ErrorStatus::ElementNotSelectable => "element not selectable"@,
        ErrorStatus::ElementNotVisible => "element not visible"@,
        ErrorStatus::InvalidArgument => "invalid argument"@,
        ErrorStatus::InvalidCookieDomain => "invalid cookie domain"@,
        ErrorStatus::InvalidElementCoordinates => "invalid element coordinates"@,
        ErrorStatus::InvalidElementState => "invalid element state"@,
        ErrorStatus::InvalidSelector => "invalid selector"@,
        ErrorStatus::InvalidSessionId => "invalid session id"@,
        ErrorStatus::JavascriptError => "javascript error"@,
        ErrorStatus::MoveTargetOutOfBounds => "move target out of bounds"@,
        ErrorStatus::NoSuchAlert => "no such alert"@,
        ErrorStatus::NoSuchElement => "no such element"@,
        ErrorStatus::NoSuchFrame => "no such frame"@,
        ErrorStatus::NoSuchWindow => "no such window"@,
        ErrorStatus::ScriptTimeout => "script timeout"@,
        ErrorStatus::SessionNotCreated => "session not created"@,
        ErrorStatus::StaleElementReference => "stale element reference"@,
        ErrorStatus::Timeout => "timeout"@,
        ErrorStatus::UnableToSetCookie => "unable to set cookie"@,
        ErrorStatus::UnexpectedAlertOpen => "unexpected alert open"@,
        ErrorStatus::UnknownError => "unknown error"@,
        ErrorStatus::UnknownPath => "unknown command"@,
        ErrorStatus::UnknownMethod => "unknown method"@,
        ErrorStatus::UnsupportedOperation => "unsupported operation"@,
    }
}

/// The HTTP status code that a status is reported with.
pub open spec fn http_status_of(status: ErrorStatus) -> int {
    match status {
        ErrorStatus::UnknownPath => 404,
        ErrorStatus::UnknownMethod => 405,
        _ => 500,
    }
}

/// Every status has a non-empty wire string, and no two statuses share one.
pub proof fn lemma_wire_strings_distinct(a: ErrorStatus, b: ErrorStatus)
    ensures
        wire_string(a).len() > 0,
        a != b ==> wire_string(a) != wire_string(b),
{
    reveal_strlit("element not selectable");
    reveal_strlit("element not visible");
    reveal_strlit("invalid argument");
    reveal_strlit("invalid cookie domain");
    reveal_strlit("invalid element coordinates");
    reveal_strlit("invalid element state");
    reveal_strlit("invalid selector");
    reveal_strlit("invalid session id");
    reveal_strlit("javascript error");
    reveal_strlit("move target out of bounds");
    reveal_strlit("no such alert");
    reveal_strlit("no such element");
    reveal_strlit("no such frame");
    reveal_strlit("no such window");
    reveal_strlit("script timeout");
    reveal_strlit("session not created");
    reveal_strlit("stale element reference");
    reveal_strlit("timeout");
    reveal_strlit("unable to set cookie");
    reveal_strlit("unexpected alert open");
    reveal_strlit("unknown error");
    reveal_strlit("unknown command");
    reveal_strlit("unknown method");
    reveal_strlit("unsupported operation");
    if a != b {
        let wa = wire_string(a);
        let wb = wire_string(b);
        assert(wa.len() != wb.len() || wa[0] != wb[0] || wa[wa.len() - 2] != wb[wb.len() - 2]);
    }
}

/// The HTTP status of the two routing failures is 404 and 405, of any other 500.
pub proof fn lemma_http_status_classes(s: ErrorStatus)
    ensures
        s == ErrorStatus::UnknownPath ==> http_status_of(s) == 404,
        s == ErrorStatus::UnknownMethod ==> http_status_of(s) == 405,
        s != ErrorStatus::UnknownPath && s != ErrorStatus::UnknownMethod ==> http_status_of(s) == 500,
{
}

/// A failure: one status and a free-text message.
#[derive(Debug)]
pub struct WebDriverError {
    pub status: ErrorStatus,
    pub message: String,
}

pub type WebDriverResult<T> = Result<T, WebDriverError>;

impl WebDriverError {
    pub fn new(status: ErrorStatus, message: &str) -> (r: WebDriverError)
        ensures
            r.status == status,
            r.message@ == message@,
    {
        WebDriverError { status, message: message.to_string() }
    }

    /// The wire string of this error's status.
    pub fn status_code(&self) -> (r: &'static str)
        ensures
            r@ == wire_string(self.status),
    {
        match self.status {
            ErrorStatus::ElementNotSelectable => "element not selectable",
            ErrorStatus::ElementNotVisible => "element not visible",
            ErrorStatus::InvalidArgument => "invalid argument",
            ErrorStatus::InvalidCookieDomain => "invalid cookie domain",
            ErrorStatus::InvalidElementCoordinates => "invalid element coordinates",
            ErrorStatus::InvalidElementState => "invalid element state",
            ErrorStatus::InvalidSelector => "invalid selector",
            ErrorStatus::InvalidSessionId => "invalid session id",
            ErrorStatus::JavascriptError => "javascript error",
            ErrorStatus::MoveTargetOutOfBounds => "move target out of bounds",
            ErrorStatus::NoSuchAlert => "no such alert",
            ErrorStatus::NoSuchElement => "no such element",
            ErrorStatus::NoSuchFrame => "no such frame",
            ErrorStatus::NoSuchWindow => "no such window",
            ErrorStatus::ScriptTimeout => "script timeout",
            ErrorStatus::SessionNotCreated => "session not created",
            ErrorStatus::StaleElementReference => "stale element reference",
            ErrorStatus::Timeout => "timeout",
            ErrorStatus::UnableToSetCookie => "unable to set cookie",
            ErrorStatus::UnexpectedAlertOpen => "unexpected alert open",
            ErrorStatus::UnknownError => "unknown error",
            ErrorStatus::UnknownPath => "unknown command",
            ErrorStatus::UnknownMethod => "unknown method",
            ErrorStatus::UnsupportedOperation => "unsupported operation",
        }
    }

    pub fn http_status(&self) -> (r: u16)
        ensures
            r == http_status_of(self.status),
    {
        match self.status {
            ErrorStatus::UnknownPath => 404,
            ErrorStatus::UnknownMethod => 405,
            _ => 500,
        }
    }
    /// The JSON text of this error: `{"error":<message>,"status":<wire string>}`.
    pub fn to_json_string(&self) -> (r: String)
        ensures
            r@ == "{\"error\":"@ + json_quoted(self.message@) + ",\"status\":"@ + json_quoted(
                wire_string(self.status),
            ) + "}"@,
    {
        let mut r = "{\"error\":".to_string();
        let m = quote_json(self.message.as_str());
        r.append(m.as_str());
        r.append(",\"status\":");
        let st = quote_json(self.status_code());
        r.append(st.as_str());
        r.append("}");
        r
    }

    /// A failure reported by the backend transport: the WebDriver status the
    /// backend gave, passed on unchanged, else an unknown error.
    pub fn from_backend(status: Option<ErrorStatus>, message: &str) -> (r: WebDriverError)
        ensures
            r.status == (match status {
                Some(s) => s,
                None => ErrorStatus::UnknownError,
            }),
            r.message@ == message@,
    {
        let s = match status {
            Some(s) => s,
            None => ErrorStatus::UnknownError,
        };
        WebDriverError::new(s, message)
    }

    /// A failure to parse JSON: an unknown error carrying the parser's message.
    pub fn from_parse_error(message: String) -> (r: WebDriverError)
        ensures
            r.status == ErrorStatus::UnknownError,
            r.message == message,
    {
        WebDriverError { status: ErrorStatus::UnknownError, message }
    }
}

impl ToJson for WebDriverError {
    /// The object `{"error": <message>, "status": <wire string>}`.
    open spec fn encodes_as(&self, j: JsonValue) -> bool {
        &&& j matches JsonValue::Object(m)
        &&& m@.len() == 2
        &&& m@[0].0@ == "error"@
        &&& m@[0].1 matches JsonValue::String(e) && e@ == self.message@
        &&& m@[1].0@ == "status"@
        &&& m@[1].1 matches JsonValue::String(st) && st@ == wire_string(self.status)
    }

    fn to_json(&self) -> (r: JsonValue) {
        let status = self.status_code().to_string();
        JsonValue::Object(
            vec![
                ("error".to_string(), JsonValue::String(self.message.clone())),
                ("status".to_string(), JsonValue::String(status)),
            ],
        )
    }
}

} // verus!
