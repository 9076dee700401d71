use vstd::prelude::*;
use rustc_serialize::json::Json as Parsed;
use vstd::std_specs::iter::IteratorSpec;

verus! {

/// A JSON value, as the codecs and the command builder read it.
#[derive(Debug, PartialEq)]
pub enum JsonValue {
    Null,
    Boolean(bool),
    I64(i64),
    U64(u64),
    /// A number that is no integer, kept as its JSON text.
    Number(String),
    String(String),
    Array(Vec<JsonValue>),
    /// The members of an object, in order; where a key repeats, lookups
    /// take its first member.
    Object(Vec<(String, JsonValue)>),
}

/// A value that has a JSON encoding.
pub trait ToJson {
    /// `j` is the encoding of `self`.
    spec fn encodes_as(&self, j: JsonValue) -> bool;

    fn to_json(&self) -> (r: JsonValue)
        ensures
            self.encodes_as(r),
    ;
}

/// The value stored under `key` among `members`: the first member with that key.
pub open spec fn member_value(members: Seq<(String, JsonValue)>, key: Seq<char>) -> Option<JsonValue>
    decreases members.len(),
{
    if members.len() == 0 {
        None
    } else if members[0].0@ == key {
        Some(members[0].1)
    } else {
        member_value(members.drop_first(), key)
    }
}

/// The position of the first member with key `key`.
pub fn find_member(members: &Vec<(String, JsonValue)>, key: &str) -> (r: Option<usize>)
    ensures
        match r {
            Some(i) => i < members@.len() && member_value(members@, key@) == Some(members@[i as int].1),
            None => member_value(members@, key@) is None,
        },
{
    let k = key.to_string();
    let mut i: usize = 0;
    assert(members@.subrange(0, members@.len() as int) =~= members@);
    while i < members.len()
        invariant
            i <= members@.len(),
            k@ == key@,
            member_value(members@, key@) == member_value(members@.subrange(i as int, members@.len() as int), key@),
        decreases members@.len() - i,
    {
        let ghost rest = members@.subrange(i as int, members@.len() as int);
        if members[i].0 == k {
            return Some(i);
        }
        assert(rest.drop_first() =~= members@.subrange(i + 1, members@.len() as int));
        i = i + 1;
    }
    None
}

/// The deepest nesting of arrays and objects that a body may have.
pub const MAX_NESTING: usize = 100;

/// The most digits that the exponent of a number may have.
pub const MAX_EXPONENT_DIGITS: usize = 9;

/// Where a left-to-right reading of JSON text stands: inside a string or not
/// (and just after a backslash there), how deeply arrays and objects are
/// open, how many digits the exponent being read has (`None` where no
/// exponent is being read), and whether both stayed within their bounds.
pub struct ScanState {
    pub in_string: bool,
    pub escaped: bool,
    pub depth: int,
    pub exponent_digits: Option<int>,
    pub within_limits: bool,
}

pub open spec fn scan_start() -> ScanState {
    ScanState { in_string: false, escaped: false, depth: 0, exponent_digits: None, within_limits: true }
}

/// One character of the reading. Outside strings, `e` or `E` starts an
/// exponent, signs right after it are passed over, and each digit that
/// follows is counted.
pub open spec fn scan_step(s: ScanState, c: char) -> ScanState {
    if s.in_string {
        if s.escaped {
            ScanState { escaped: false, ..s }
        } else if c == '\\' {
            ScanState { escaped: true, ..s }
        } else if c == '"' {
            ScanState { in_string: false, ..s }
        } else {
            s
        }
    } else if c == '"' {
        ScanState { in_string: true, exponent_digits: None, ..s }
    } else if c == '[' || c == '{' {
        ScanState {
            depth: s.depth + 1,
            exponent_digits: None,
            within_limits: s.within_limits && s.depth + 1 <= MAX_NESTING,
            ..s
        }
    } else if c == ']' || c == '}' {
        ScanState { depth: if s.depth > 0 { s.depth - 1 } else { 0 }, exponent_digits: None, ..s }
    } else if c == 'e' || c == 'E' {
        ScanState { exponent_digits: Some(0), ..s }
    } else if (c == '+' || c == '-') && s.exponent_digits == Some(0int) {
        s
    } else if '0' <= c && c <= '9' && s.exponent_digits is Some {
        ScanState {
            exponent_digits: Some(s.exponent_digits->0 + 1),
            within_limits: s.within_limits && s.exponent_digits->0 + 1 <= MAX_EXPONENT_DIGITS,
            ..s
        }
    } else {
        ScanState { exponent_digits: None, ..s }
    }
}

pub open spec fn scan(text: Seq<char>) -> ScanState
    decreases text.len(),
{
    if text.len() == 0 {
        scan_start()
    } else {
        scan_step(scan(text.drop_last()), text.last())
    }
}

/// JSON text that the parser reads without overflowing its exponent or
/// nesting too deeply: arrays and objects at most `MAX_NESTING` deep, and no
/// exponent with more than `MAX_EXPONENT_DIGITS` digits.
pub open spec fn within_limits(text: Seq<char>) -> bool {
    scan(text).within_limits
}

proof fn lemma_limits_stay_broken(text: Seq<char>, i: int)
    requires
        0 <= i <= text.len(),
        !scan(text.subrange(0, i)).within_limits,
    ensures
        !scan(text).within_limits,
    decreases text.len() - i,
{
    if i < text.len() {
        assert(text.subrange(0, i + 1).drop_last() =~= text.subrange(0, i));
        lemma_limits_stay_broken(text, i + 1);
    } else {
        assert(text.subrange(0, i) =~= text);
    }
}

/// Whether `text` stays within the parser's limits.
pub fn within_parse_limits(text: &str) -> (r: bool)
    ensures
        r == within_limits(text@),
{
    broadcast use vstd::string::axiom_spec_iter, vstd::string::next_postcondition;

    let mut it = text.chars();
    let mut in_string = false;
    let mut escaped = false;
    let mut depth: usize = 0;
    let mut exponent: Option<usize> = None;
    let ghost mut i: int = 0;
    assert(text@.subrange(0, 0) =~= Seq::<char>::empty());
    assert(text@.subrange(0, text@.len() as int) =~= text@);
    loop
        invariant
            0 <= i <= text@.len(),
            it.remaining() == text@.subrange(i, text@.len() as int),
            depth <= MAX_NESTING,
            exponent matches Some(k) ==> k <= MAX_EXPONENT_DIGITS,
            scan(text@.subrange(0, i)) == (ScanState {
                in_string,
                escaped,
                depth: depth as int,
                exponent_digits: match exponent {
                    Some(k) => Some(k as int),
                    None => None,
                },
                within_limits: true,
            }),
        decreases text@.len() - i,
    {
        let c = match it.next() {
            Some(c) => c,
            None => {
                assert(text@.subrange(0, i) =~= text@);
                return true;
            },
        };
        assert(text@.subrange(0, i + 1).drop_last() =~= text@.subrange(0, i));
        assert(text@.subrange(0, i + 1).last() == c);
        proof {
            i = i + 1;
        }
        if in_string {
            if escaped {
                escaped = false;
            } else if c == '\\' {
                escaped = true;
            } else if c == '"' {
                in_string = false;
            }
        } else if c == '"' {
            in_string = true;
            exponent = None;
        } else if c == '[' || c == '{' {
            if depth >= MAX_NESTING {
                proof {
                    lemma_limits_stay_broken(text@, i);
                }
                return false;
            }
            depth = depth + 1;
            exponent = None;
        } else if c == ']' || c == '}' {
            if depth > 0 {
                depth = depth - 1;
            }
            exponent = None;
        } else if c == 'e' || c == 'E' {
            exponent = Some(0);
        } else if (c == '+' || c == '-') && exponent == Some(0usize) {
        } else if '0' <= c && c <= '9' && exponent.is_some() {
            let k = exponent.unwrap();
            if k >= MAX_EXPONENT_DIGITS {
                proof {
                    lemma_limits_stay_broken(text@, i);
                }
                return false;
            }
            exponent = Some(k + 1);
        } else {
            exponent = None;
        }
    }
}

/// What rustc-serialize's JSON parser makes of `text`: the value, or the
/// text of its error.
pub uninterp spec fn parse_outcome(text: Seq<char>) -> Result<JsonValue, Seq<char>>;

/// The value that `text` parses to; `None` where the parser rejects it.
pub open spec fn parsed_json(text: Seq<char>) -> Option<JsonValue> {
    match parse_outcome(text) {
        Ok(j) => Some(j),
        Err(_) => None,
    }
}

/// Relies on `rustc_serialize::json::Json::from_str`: it parses JSON text, and
/// the outcome depends on the text alone. The error is the parser's message.
/// Its exponent arithmetic overflows, and its recursion runs deep, on text
/// outside the limits.
#[verifier::external_body]
pub(crate) fn parse_json(text: &str) -> (r: Result<JsonValue, String>)
    requires
        within_limits(text@),
    ensures
        match r {
            Ok(j) => parse_outcome(text@) == Ok::<JsonValue, Seq<char>>(j),
            Err(m) => parse_outcome(text@) == Err::<JsonValue, Seq<char>>(m@),
        },
{
    match rustc_serialize::json::Json::from_str(text) {
        Ok(v) => Ok(json_from_parsed(v)),
        Err(e) => Err(e.to_string()),
    }
}

/// rustc-serialize's JSON tree, `rustc_serialize::json::Json`: handed from
/// the parser to the conversion below, never read by verified code.
#[verifier::external_type_specification]
#[verifier::external_body]
pub struct ExParsedJson(rustc_serialize::json::Json);

/// Relies on the variants of `rustc_serialize::json::Json`: moves each value
/// into the library's form; a number that is no integer becomes its text.
#[verifier::external_body]
fn json_from_parsed(v: Parsed) -> JsonValue {
    match v {
        Parsed::Null => JsonValue::Null,
        Parsed::Boolean(b) => JsonValue::Boolean(b),
        Parsed::I64(n) => JsonValue::I64(n),
        Parsed::U64(n) => JsonValue::U64(n),
        Parsed::String(s) => JsonValue::String(s),
        Parsed::Array(a) => JsonValue::Array(a.into_iter().map(json_from_parsed).collect()),
        Parsed::Object(o) => JsonValue::Object(o.into_iter().map(|(k, x)| (k, json_from_parsed(x))).collect()),
        other => JsonValue::Number(other.to_string()),
    }
}

/// The lower-case hexadecimal digit of `d`, below 16.
pub open spec fn hex_digit(d: u32) -> char {
    if d < 10 {
        ('0' as u32 + d) as char
    } else {
        ('a' as u32 + (d - 10)) as char
    }
}

/// How rustc-serialize's JSON encoder writes one character of a string:
/// a quote and a backslash escaped, five controls by letter, the other
/// controls and DEL as `\u00XX`, anything else as itself.
pub open spec fn escaped_char(c: char) -> Seq<char> {
    if c == '"' {
        seq!['\\', '"']
    } else if c == '\\' {
        seq!['\\', '\\']
    } else if c == '\x08' {
        seq!['\\', 'b']
    } else if c == '\t' {
        seq!['\\', 't']
    } else if c == '\n' {
        seq!['\\', 'n']
    } else if c == '\x0c' {
        seq!['\\', 'f']
    } else if c == '\r' {
        seq!['\\', 'r']
    } else if (c as u32) < 0x20 || c == '\x7f' {
        seq!['\\', 'u', '0', '0', hex_digit((c as u32) / 16), hex_digit((c as u32) % 16)]
    } else {
        seq![c]
    }
}

/// The characters of `s`, each escaped.
pub open spec fn escaped(s: Seq<char>) -> Seq<char>
    decreases s.len(),
{
    if s.len() == 0 {
        Seq::empty()
    } else {
        escaped(s.drop_last()) + escaped_char(s.last())
    }
}

/// The JSON text of the string `s`: quoted, with rustc-serialize's escapes.
pub open spec fn json_quoted(s: Seq<char>) -> Seq<char> {
    seq!['"'] + escaped(s) + seq!['"']
}

/// Relies on rustc-serialize's JSON encoder applied to a string value
/// (`escape_str`, reached through `Display`): it prints the string quoted and
/// escaped.
#[verifier::external_body]
pub(crate) fn quote_json(s: &str) -> (r: String)
    ensures
        r@ == json_quoted(s@),
{
    rustc_serialize::json::Json::String(s.to_string()).to_string()
}

} // verus!
