use vstd::prelude::*;
use crate::error::{ErrorStatus, WebDriverError, WebDriverResult};
use crate::json::{
    JsonValue, member_value, find_member, parse_json, parsed_json, parse_outcome, within_limits,
    within_parse_limits,
};
use crate::router::{MatchType, pair_views};

verus! {

/// The parameters of a navigation.
#[derive(Debug, PartialEq)]
pub struct GetParameters {
    pub url: String,
}

/// A typed WebDriver command.
#[derive(Debug, PartialEq)]
pub enum WebDriverCommand {
    NewSession,
    Get(GetParameters),
    GetCurrentUrl,
}

/// A command with the session it is addressed to.
#[derive(Debug, PartialEq)]
pub struct WebDriverMessage {
    pub session_id: Option<String>,
    pub command: WebDriverCommand,
}

/// A command as the contracts speak of it.
pub enum CommandView {
    NewSession,
    Get(Seq<char>),
    GetCurrentUrl,
}

impl View for WebDriverMessage {
    type V = (Option<Seq<char>>, CommandView);

    open spec fn view(&self) -> (Option<Seq<char>>, CommandView) {
        (
            match self.session_id {
                Some(s) => Some(s@),
                None => None,
            },
            match self.command {
                WebDriverCommand::NewSession => CommandView::NewSession,
                WebDriverCommand::Get(p) => CommandView::Get(p.url@),
                WebDriverCommand::GetCurrentUrl => CommandView::GetCurrentUrl,
            },
        )
    }
}

/// The value captured under `name`: the first capture with that name.
pub open spec fn capture_value(caps: Seq<(Seq<char>, Seq<char>)>, name: Seq<char>) -> Option<
    Seq<char>,
>
    decreases caps.len(),
{
    if caps.len() == 0 {
        None
    } else if caps[0].0 == name {
        Some(caps[0].1)
    } else {
        capture_value(caps.drop_first(), name)
    }
}

/// The capture that holds the session id.
pub const SESSION_ID: &'static str = "sessionId";

/// The `url` member of a navigation body, where it is a string.
pub open spec fn url_of(body: JsonValue) -> Option<Seq<char>> {
    match body {
        JsonValue::Object(m) => match member_value(m@, "url"@) {
            Some(JsonValue::String(u)) => Some(u@),
            _ => None,
        },
        _ => None,
    }
}

/// The value a request body parses to: `None` where it is beyond the
/// parser's limits or the parser rejects it.
pub open spec fn body_parsed(body: Seq<char>) -> Option<JsonValue> {
    if within_limits(body) {
        parsed_json(body)
    } else {
        None
    }
}

/// The parser's message, where the build fails because the parser rejects
/// the body.
pub open spec fn parser_message(
    t: MatchType,
    caps: Seq<(Seq<char>, Seq<char>)>,
    body: Seq<char>,
) -> Option<Seq<char>> {
    let reads_body = match t {
        MatchType::MatchNewSession => true,
        MatchType::MatchGet => capture_value(caps, SESSION_ID@) is Some,
        MatchType::MatchGetCurrentUrl => false,
    };
    if reads_body && within_limits(body) {
        match parse_outcome(body) {
            Err(m) => Some(m),
            Ok(_) => None,
        }
    } else {
        None
    }
}

/// What the builder makes of a route, its captures and the request body.
pub open spec fn built_message(
    t: MatchType,
    caps: Seq<(Seq<char>, Seq<char>)>,
    body: Seq<char>,
) -> Result<(Option<Seq<char>>, CommandView), ErrorStatus> {
    match t {
        MatchType::MatchNewSession => match body_parsed(body) {
            None => Err(ErrorStatus::UnknownError),
            Some(_) => Ok((None, CommandView::NewSession)),
        },
        MatchType::MatchGetCurrentUrl => match capture_value(caps, SESSION_ID@) {
            None => Err(ErrorStatus::UnknownError),
            Some(id) => Ok((Some(id), CommandView::GetCurrentUrl)),
        },
        MatchType::MatchGet => match capture_value(caps, SESSION_ID@) {
            None => Err(ErrorStatus::UnknownError),
            Some(id) => match body_parsed(body) {
                None => Err(ErrorStatus::UnknownError),
                Some(j) => match url_of(j) {
                    Some(u) => Ok((Some(id), CommandView::Get(u))),
                    None => Err(ErrorStatus::InvalidArgument),
                },
            },
        },
    }
}

/// The value captured under `name`.
pub fn find_capture(caps: &Vec<(String, String)>, name: &str) -> (r: Option<String>)
    ensures
        match r {
            Some(v) => capture_value(pair_views(caps@), name@) == Some(v@),
            None => capture_value(pair_views(caps@), name@) is None,
        },
{
    let k = name.to_string();
    let ghost cv = pair_views(caps@);
    let mut i: usize = 0;
    assert(cv.subrange(0, cv.len() as int) =~= cv);
    while i < caps.len()
        invariant
            i <= caps@.len(),
            k@ == name@,
            cv == pair_views(caps@),
            capture_value(cv, name@) == capture_value(cv.subrange(i as int, cv.len() as int), name@),
        decreases caps@.len() - i,
    {
        let ghost rest = cv.subrange(i as int, cv.len() as int);
        if caps[i].0 == k {
            return Some(caps[i].1.clone());
        }
        assert(rest.drop_first() =~= cv.subrange(i + 1, cv.len() as int));
        i = i + 1;
    }
    None
}

/// The JSON body of a request. A text beyond the parser's limits, or one
/// that does not parse, is an unknown error; in the second case it carries
/// the parser's message.
pub fn parse_body(body: &str) -> (r: WebDriverResult<JsonValue>)
    ensures
        match body_parsed(body@) {
            Some(j) => r == Ok::<JsonValue, WebDriverError>(j),
            None => r is Err && r->Err_0.status == ErrorStatus::UnknownError,
        },
        within_limits(body@) ==> (parse_outcome(body@) matches Err(m) ==> r is Err
            && r->Err_0.message@ == m),
{
    if !within_parse_limits(body) {
        return Err(
            WebDriverError::new(
                ErrorStatus::UnknownError,
                "JSON body nests too deeply or has too long an exponent",
            ),
        );
    }
    match parse_json(body) {
        Ok(j) => Ok(j),
        Err(message) => Err(WebDriverError::from_parse_error(message)),
    }
}

impl WebDriverMessage {
    /// Builds the command of a matched route from its captures and body.
    pub fn from_http(match_type: MatchType, captures: &Vec<(String, String)>, body: &str) -> (r:
        WebDriverResult<WebDriverMessage>)
        ensures
            match built_message(match_type, pair_views(captures@), body@) {
                Ok(v) => r is Ok && r->Ok_0@ == v,
                Err(s) => r is Err && r->Err_0.status == s,
            },
            parser_message(match_type, pair_views(captures@), body@) matches Some(m) ==> r is Err
                && r->Err_0.message@ == m,
    {
        match match_type {
            MatchType::MatchNewSession => {
                let _parameters = parse_body(body)?;
                Ok(WebDriverMessage { session_id: None, command: WebDriverCommand::NewSession })
            },
            MatchType::MatchGetCurrentUrl => match find_capture(captures, SESSION_ID) {
                None => Err(WebDriverError::new(ErrorStatus::UnknownError, "Missing session id")),
                Some(id) => Ok(
                    WebDriverMessage { session_id: Some(id), command: WebDriverCommand::GetCurrentUrl },
                ),
            },
            MatchType::MatchGet => match find_capture(captures, SESSION_ID) {
                None => Err(WebDriverError::new(ErrorStatus::UnknownError, "Missing session id")),
                Some(id) => {
                    let data = parse_body(body)?;
                    let url = match &data {
                        JsonValue::Object(members) => match find_member(members, "url") {
                            Some(i) => match &members[i].1 {
                                JsonValue::String(u) => Some(u.clone()),
                                _ => None,
                            },
                            None => None,
                        },
                        _ => None,
                    };
                    match url {
                        Some(u) => Ok(
                            WebDriverMessage {
                                session_id: Some(id),
                                command: WebDriverCommand::Get(GetParameters { url: u }),
                            },
                        ),
                        None => Err(
                            WebDriverError::new(ErrorStatus::InvalidArgument, "Missing 'url' parameter"),
                        ),
                    }
                },
            },
        }
    }
}

} // verus!
