use vstd::prelude::*;
use crate::error::{ErrorStatus, WebDriverError, WebDriverResult};
use crate::json::{JsonValue, ToJson, member_value, find_member};

verus! {

/// The W3C key under which an element reference is sent.
pub const ELEMENT_KEY: &'static str = "element-6066-11e4-a52e-4f735466cecf";

/// `r` is the outcome that `d` describes: the same value, or an error with
/// the same status.
pub open spec fn decoded_as<T>(r: WebDriverResult<T>, d: Result<T, ErrorStatus>) -> bool {
    match d {
        Ok(v) => r == Ok::<T, WebDriverError>(v),
        Err(s) => r is Err && r->Err_0.status == s,
    }
}

/// A value that may be sent as an explicit JSON null.
#[derive(Debug, PartialEq)]
pub enum Nullable<T> {
    Value(T),
    Null,
}

/// A decoding outcome for an inner value, lifted to `Nullable`.
pub open spec fn wrap_value<T>(x: WebDriverResult<T>) -> WebDriverResult<Nullable<T>> {
    match x {
        Ok(v) => Ok(Nullable::Value(v)),
        Err(e) => Err(e),
    }
}

/// How a `Nullable` is decoded, given how its inner value is.
pub open spec fn nullable_decoded<T>(
    j: JsonValue,
    inner: spec_fn(JsonValue) -> Result<T, ErrorStatus>,
) -> Result<Nullable<T>, ErrorStatus> {
    if j is Null {
        Ok(Nullable::Null)
    } else {
        match inner(j) {
            Ok(v) => Ok(Nullable::Value(v)),
            Err(s) => Err(s),
        }
    }
}

impl<T: ToJson> Nullable<T> {
    pub fn is_null(&self) -> (r: bool)
        ensures
            r == (self is Null),
    {
        match self {
            Nullable::Value(_) => false,
            Nullable::Null => true,
        }
    }

    pub fn is_value(&self) -> (r: bool)
        ensures
            r == (self is Value),
    {
        match self {
            Nullable::Value(_) => true,
            Nullable::Null => false,
        }
    }

    /// JSON null gives `Null`; anything else is handed to `f`, whose result
    /// is wrapped, or whose error is passed on unchanged.
    pub fn from_json<F: FnOnce(&JsonValue) -> WebDriverResult<T>>(value: &JsonValue, f: F) -> (r:
        WebDriverResult<Nullable<T>>)
        requires
            !(*value is Null) ==> call_requires(f, (value,)),
        ensures
            *value is Null ==> r matches Ok(Nullable::Null),
            !(*value is Null) ==> exists|x: WebDriverResult<T>|
                call_ensures(f, (value,), x) && r == wrap_value(x),
    {
        match value {
            JsonValue::Null => Ok(Nullable::Null),
            _ => {
                let x = f(value);
                let ghost gx = x;
                let r = match x {
                    Ok(v) => Ok(Nullable::Value(v)),
                    Err(e) => Err(e),
                };
                assert(r == wrap_value(gx));
                r
            },
        }
    }
}

impl<T: ToJson> ToJson for Nullable<T> {
    open spec fn encodes_as(&self, j: JsonValue) -> bool {
        match self {
            Nullable::Value(x) => x.encodes_as(j),
            Nullable::Null => j is Null,
        }
    }

    fn to_json(&self) -> (r: JsonValue) {
        match self {
            Nullable::Value(x) => x.to_json(),
            Nullable::Null => JsonValue::Null,
        }
    }
}

/// Where the inner decoder's outcome `x` on a non-null value is the one that
/// `inner` describes, the outcome that `from_json` builds from it is the one
/// that `nullable_decoded` describes.
pub proof fn lemma_nullable_decoding<T>(
    value: JsonValue,
    x: WebDriverResult<T>,
    inner: spec_fn(JsonValue) -> Result<T, ErrorStatus>,
)
    requires
        !(value is Null),
        decoded_as(x, inner(value)),
    ensures
        decoded_as(wrap_value(x), nullable_decoded(value, inner)),
{
}

/// Decoding the encoding of a `Nullable` gives it back, where the inner
/// decoder gives back the inner value and that value is not itself encoded as
/// null (such a value reads back as `Null`).
pub proof fn lemma_nullable_round_trip<T: ToJson>(
    v: Nullable<T>,
    j: JsonValue,
    inner: spec_fn(JsonValue) -> Result<T, ErrorStatus>,
)
    requires
        v.encodes_as(j),
        v matches Nullable::Value(x) ==> inner(j) == Ok::<T, ErrorStatus>(x) && !(j is Null),
    ensures
        nullable_decoded(j, inner) == Ok::<Nullable<T>, ErrorStatus>(v),
{
}

/// An opaque reference to an element held by the browser.
#[derive(Debug, PartialEq)]
pub struct WebElement {
    pub id: String,
}

/// How a JSON value decodes as an element reference: an object whose one
/// member is a string under the element key.
pub open spec fn element_decoded(data: JsonValue) -> Result<WebElement, ErrorStatus> {
    match data {
        JsonValue::Object(members) => if members@.len() != 1 {
            Err(ErrorStatus::InvalidArgument)
        } else {
            match member_value(members@, ELEMENT_KEY@) {
                Some(JsonValue::String(id)) => Ok(WebElement { id }),
                _ => Err(ErrorStatus::InvalidArgument),
            }
        },
        _ => Err(ErrorStatus::InvalidArgument),
    }
}

impl WebElement {
    pub fn new(id: String) -> (r: WebElement)
        ensures
            r.id == id,
    {
        WebElement { id }
    }

    /// An object with one member, a string under the element key.
    pub fn from_json(data: &JsonValue) -> (r: WebDriverResult<WebElement>)
        ensures
            decoded_as(r, element_decoded(*data)),
    {
        match data {
            JsonValue::Object(members) if members.len() != 1 => Err(
                WebDriverError::new(
                    ErrorStatus::InvalidArgument,
                    "Web element must have exactly one key",
                ),
            ),
            JsonValue::Object(members) => match find_member(members, ELEMENT_KEY) {
                Some(i) => match &members[i].1 {
                    JsonValue::String(id) => Ok(WebElement::new(id.clone())),
                    _ => Err(
                        WebDriverError::new(
                            ErrorStatus::InvalidArgument,
                            "Could not convert web element to string",
                        ),
                    ),
                },
                None => Err(
                    WebDriverError::new(ErrorStatus::InvalidArgument, "Could not find webelement key"),
                ),
            },
            _ => Err(
                WebDriverError::new(
                    ErrorStatus::InvalidArgument,
                    "Could not convert webelement to object",
                ),
            ),
        }
    }
}

impl ToJson for WebElement {
    open spec fn encodes_as(&self, j: JsonValue) -> bool {
        &&& j matches JsonValue::Object(members)
        &&& members@.len() == 1
        &&& members@[0].0@ == ELEMENT_KEY@
        &&& members@[0].1 == JsonValue::String(self.id)
    }

    fn to_json(&self) -> (r: JsonValue) {
        JsonValue::Object(vec![(ELEMENT_KEY.to_string(), JsonValue::String(self.id.clone()))])
    }
}

/// An element decodes from its encoding, which holds exactly the element key.
pub proof fn lemma_element_round_trip(e: WebElement, j: JsonValue)
    requires
        e.encodes_as(j),
    ensures
        element_decoded(j) == Ok::<WebElement, ErrorStatus>(e),
        j matches JsonValue::Object(members) && members@.len() == 1 && members@[0].0@
            == ELEMENT_KEY@,
{
    let members = j->Object_0@;
    assert(member_value(members, ELEMENT_KEY@) == Some(members[0].1));
}

/// A `Nullable` element decodes from its encoding, where the element
/// decoder is the one above.
pub proof fn lemma_nullable_element_round_trip(v: Nullable<WebElement>, j: JsonValue)
    requires
        v.encodes_as(j),
    ensures
        nullable_decoded(j, |k: JsonValue| element_decoded(k)) == Ok::<
            Nullable<WebElement>,
            ErrorStatus,
        >(v),
{
    if let Nullable::Value(e) = v {
        lemma_element_round_trip(e, j);
    }
    lemma_nullable_round_trip(v, j, |k: JsonValue| element_decoded(k));
}

/// A browsing-context frame: by index, by element, or none.
#[derive(Debug, PartialEq)]
pub enum FrameId {
    Short(u16),
    Element(WebElement),
    Null,
}

/// How a JSON value decodes as a frame identifier.
pub open spec fn frame_decoded(data: JsonValue) -> Result<FrameId, ErrorStatus> {
    match data {
        JsonValue::U64(x) => if x <= 65535 {
            Ok(FrameId::Short(x as u16))
        } else {
            Err(ErrorStatus::NoSuchFrame)
        },
        JsonValue::Null => Ok(FrameId::Null),
        JsonValue::String(id) => Ok(FrameId::Element(WebElement { id })),
        _ => Err(ErrorStatus::NoSuchFrame),
    }
}

impl FrameId {
    /// An unsigned integer that fits in 16 bits, a string (an element id), or
    /// null; anything else is no frame.
    pub fn from_json(data: &JsonValue) -> (r: WebDriverResult<FrameId>)
        ensures
            decoded_as(r, frame_decoded(*data)),
    {
        match data {
            JsonValue::U64(x) => {
                if *x <= 65535 {
                    Ok(FrameId::Short(*x as u16))
                } else {
                    Err(WebDriverError::new(ErrorStatus::NoSuchFrame, "frame id out of range"))
                }
            },
            JsonValue::Null => Ok(FrameId::Null),
            JsonValue::String(x) => Ok(FrameId::Element(WebElement::new(x.clone()))),
            _ => Err(WebDriverError::new(ErrorStatus::NoSuchFrame, "frame id has unexpected type")),
        }
    }
}

impl ToJson for FrameId {
    open spec fn encodes_as(&self, j: JsonValue) -> bool {
        match self {
            FrameId::Short(x) => j == JsonValue::U64(*x as u64),
            FrameId::Element(e) => j == JsonValue::String(e.id),
            FrameId::Null => j is Null,
        }
    }

    fn to_json(&self) -> (r: JsonValue) {
        match self {
            FrameId::Short(x) => JsonValue::U64(*x as u64),
            FrameId::Element(e) => JsonValue::String(e.id.clone()),
            FrameId::Null => JsonValue::Null,
        }
    }
}

/// A frame identifier decodes from its encoding.
pub proof fn lemma_frame_round_trip(f: FrameId, j: JsonValue)
    requires
        f.encodes_as(j),
    ensures
        frame_decoded(j) == Ok::<FrameId, ErrorStatus>(f),
{
}

/// How elements are located on a page.
#[derive(Clone, Copy, Debug, PartialEq, Eq, Structural)]
pub enum LocatorStrategy {
    CSSSelector,
    LinkText,
    PartialLinkText,
    XPath,
}

/// The wire name of a strategy.
pub open spec fn strategy_name(s: LocatorStrategy) -> Seq<char> {
    match s {
        LocatorStrategy::CSSSelector => "css selector"@,
        LocatorStrategy::LinkText => "link text"@,
        LocatorStrategy::PartialLinkText => "partial link text"@,
        LocatorStrategy::XPath => "xpath"@,
    }
}

/// How a JSON value decodes as a strategy: one of the four exact names.
pub open spec fn strategy_decoded(data: JsonValue) -> Result<LocatorStrategy, ErrorStatus> {
    match data {
        JsonValue::String(s) => if s@ == "css selector"@ {
            Ok(LocatorStrategy::CSSSelector)
        } else if s@ == "link text"@ {
            Ok(LocatorStrategy::LinkText)
        } else if s@ == "partial link text"@ {
            Ok(LocatorStrategy::PartialLinkText)
        } else if s@ == "xpath"@ {
            Ok(LocatorStrategy::XPath)
        } else {
            Err(ErrorStatus::InvalidArgument)
        },
        _ => Err(ErrorStatus::InvalidArgument),
    }
}

impl LocatorStrategy {
    pub fn from_json(body: &JsonValue) -> (r: WebDriverResult<LocatorStrategy>)
        ensures
            decoded_as(r, strategy_decoded(*body)),
    {
        match body {
            JsonValue::String(s) => {
                if *s == "css selector".to_string() {
                    Ok(LocatorStrategy::CSSSelector)
                } else if *s == "link text".to_string() {
                    Ok(LocatorStrategy::LinkText)
                } else if *s == "partial link text".to_string() {
                    Ok(LocatorStrategy::PartialLinkText)
                } else if *s == "xpath".to_string() {
                    Ok(LocatorStrategy::XPath)
                } else {
                    Err(WebDriverError::new(ErrorStatus::InvalidArgument, "Unknown locator strategy"))
                }
            },
            _ => Err(
                WebDriverError::new(
                    ErrorStatus::InvalidArgument,
                    "Could not convert strategy to string",
                ),
            ),
        }
    }
}

impl ToJson for LocatorStrategy {
    open spec fn encodes_as(&self, j: JsonValue) -> bool {
        j matches JsonValue::String(s) && s@ == strategy_name(*self)
    }

    fn to_json(&self) -> (r: JsonValue) {
        JsonValue::String(
            match self {
                LocatorStrategy::CSSSelector => "css selector",
                LocatorStrategy::LinkText => "link text",
                LocatorStrategy::PartialLinkText => "partial link text",
                LocatorStrategy::XPath => "xpath",
            }.to_string(),
        )
    }
}

/// A strategy decodes from its encoding.
pub proof fn lemma_strategy_round_trip(s: LocatorStrategy, j: JsonValue)
    requires
        s.encodes_as(j),
    ensures
        strategy_decoded(j) == Ok::<LocatorStrategy, ErrorStatus>(s),
{
    reveal_strlit("css selector");
    reveal_strlit("link text");
    reveal_strlit("partial link text");
    reveal_strlit("xpath");
    let n = j->String_0@;
    assert(n == strategy_name(s));
    if n == "css selector"@ {
        assert(n.len() == 12);
    }
    if n == "link text"@ {
        assert(n.len() == 9);
    }
    if n == "partial link text"@ {
        assert(n.len() == 17);
    }
}

} // verus!
