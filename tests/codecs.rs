use wires::common::{FrameId, LocatorStrategy, Nullable, WebElement, ELEMENT_KEY};
use wires::error::{ErrorStatus, WebDriverError};
use wires::json::{JsonValue, ToJson};

fn element_json(id: &str) -> JsonValue {
    JsonValue::Object(vec![(ELEMENT_KEY.to_string(), JsonValue::String(id.to_string()))])
}

#[test]
fn element_key_is_the_w3c_constant() {
    assert_eq!(ELEMENT_KEY, "element-6066-11e4-a52e-4f735466cecf");
}

#[test]
fn element_round_trip() {
    let e = WebElement::new("abc".to_string());
    let j = e.to_json();
    assert_eq!(j, element_json("abc"));
    assert_eq!(WebElement::from_json(&j).unwrap(), e);
}

#[test]
fn element_from_other_shapes_is_invalid_argument() {
    let cases = vec![
        JsonValue::Null,
        JsonValue::String("abc".to_string()),
        JsonValue::Object(vec![("id".to_string(), JsonValue::String("abc".to_string()))]),
        JsonValue::Object(vec![(ELEMENT_KEY.to_string(), JsonValue::U64(3))]),
    ];
    for c in cases {
        assert_eq!(WebElement::from_json(&c).unwrap_err().status, ErrorStatus::InvalidArgument);
    }
}

#[test]
fn element_with_other_members_is_invalid_argument() {
    let j = JsonValue::Object(vec![
        ("a".to_string(), JsonValue::Null),
        (ELEMENT_KEY.to_string(), JsonValue::String("x1".to_string())),
    ]);
    assert_eq!(WebElement::from_json(&j).unwrap_err().status, ErrorStatus::InvalidArgument);
    let k = JsonValue::Object(vec![
        (ELEMENT_KEY.to_string(), JsonValue::String("x1".to_string())),
        ("other".to_string(), JsonValue::Null),
    ]);
    assert_eq!(WebElement::from_json(&k).unwrap_err().status, ErrorStatus::InvalidArgument);
    assert_eq!(WebElement::from_json(&JsonValue::Object(vec![])).unwrap_err().status, ErrorStatus::InvalidArgument);
}

#[test]
fn nullable_null_and_value() {
    let n: Nullable<WebElement> = Nullable::from_json(&JsonValue::Null, WebElement::from_json).unwrap();
    assert!(n.is_null());
    assert!(!n.is_value());
    let v = Nullable::from_json(&element_json("e"), WebElement::from_json).unwrap();
    assert!(v.is_value());
    assert_eq!(v, Nullable::Value(WebElement::new("e".to_string())));
}

#[test]
fn nullable_passes_the_inner_error_on() {
    let r = Nullable::<WebElement>::from_json(&JsonValue::U64(1), |_j: &JsonValue| {
        Err(WebDriverError::new(ErrorStatus::StaleElementReference, "gone"))
    });
    let e = r.unwrap_err();
    assert_eq!(e.status, ErrorStatus::StaleElementReference);
    assert_eq!(e.message, "gone");
}

#[test]
fn nullable_round_trip() {
    let v = Nullable::Value(WebElement::new("q".to_string()));
    assert_eq!(Nullable::from_json(&v.to_json(), WebElement::from_json).unwrap(), v);
    let n: Nullable<WebElement> = Nullable::Null;
    assert_eq!(n.to_json(), JsonValue::Null);
    assert_eq!(Nullable::from_json(&n.to_json(), WebElement::from_json).unwrap(), n);
}

#[test]
fn frame_id_boundaries() {
    assert_eq!(FrameId::from_json(&JsonValue::U64(65535)).unwrap(), FrameId::Short(65535));
    assert_eq!(FrameId::from_json(&JsonValue::U64(65536)).unwrap_err().status, ErrorStatus::NoSuchFrame);
    assert_eq!(FrameId::from_json(&JsonValue::Null).unwrap(), FrameId::Null);
    assert_eq!(
        FrameId::from_json(&JsonValue::String("w".to_string())).unwrap(),
        FrameId::Element(WebElement::new("w".to_string()))
    );
    assert_eq!(FrameId::from_json(&JsonValue::Array(vec![])).unwrap_err().status, ErrorStatus::NoSuchFrame);
    assert_eq!(FrameId::from_json(&JsonValue::Object(vec![])).unwrap_err().status, ErrorStatus::NoSuchFrame);
    assert_eq!(FrameId::from_json(&JsonValue::I64(-1)).unwrap_err().status, ErrorStatus::NoSuchFrame);
    assert_eq!(FrameId::from_json(&JsonValue::Boolean(true)).unwrap_err().status, ErrorStatus::NoSuchFrame);
}

#[test]
fn frame_id_round_trip() {
    for f in vec![FrameId::Short(0), FrameId::Short(7), FrameId::Element(WebElement::new("z".to_string())), FrameId::Null] {
        let j = f.to_json();
        assert_eq!(FrameId::from_json(&j).unwrap(), f);
    }
    assert_eq!(FrameId::Short(9).to_json(), JsonValue::U64(9));
}

#[test]
fn locator_strategy_decoding() {
    let s = |t: &str| JsonValue::String(t.to_string());
    assert_eq!(LocatorStrategy::from_json(&s("xpath")).unwrap(), LocatorStrategy::XPath);
    assert_eq!(LocatorStrategy::from_json(&s("css selector")).unwrap(), LocatorStrategy::CSSSelector);
    assert_eq!(LocatorStrategy::from_json(&s("link text")).unwrap(), LocatorStrategy::LinkText);
    assert_eq!(LocatorStrategy::from_json(&s("partial link text")).unwrap(), LocatorStrategy::PartialLinkText);
    assert_eq!(LocatorStrategy::from_json(&s("XPath")).unwrap_err().status, ErrorStatus::InvalidArgument);
    assert_eq!(LocatorStrategy::from_json(&JsonValue::U64(42)).unwrap_err().status, ErrorStatus::InvalidArgument);
}

#[test]
fn locator_strategy_round_trip() {
    for l in vec![LocatorStrategy::CSSSelector, LocatorStrategy::LinkText, LocatorStrategy::PartialLinkText, LocatorStrategy::XPath] {
        assert_eq!(LocatorStrategy::from_json(&l.to_json()).unwrap(), l);
    }
    assert_eq!(LocatorStrategy::PartialLinkText.to_json(), JsonValue::String("partial link text".to_string()));
}
