use notification_client::json::quote;
use notification_client::protocol::{actions_to_json, classify, Action, Audio, MessageKind, Request};
use notification_client::query::{encode_pairs, to_decimal};

#[test]
fn quote_escapes_like_json() {
    assert_eq!(quote("plain"), "\"plain\"");
    assert_eq!(quote("a\"b\\c\nd\te\u{1}é"), "\"a\\\"b\\\\c\\nd\\te\\u0001é\"");
    assert_eq!(quote(""), "\"\"");
}

#[test]
fn action_json_with_and_without_data() {
    let a = Action {
        command: "open".to_string(),
        label: "Open".to_string(),
        data: Some(vec![("url".to_string(), "http://x".to_string())]),
    };
    assert_eq!(a.to_json(), "{\"command\":\"open\",\"label\":\"Open\",\"data\":{\"url\":\"http://x\"}}");
    let b = Action { command: "c".to_string(), label: "L".to_string(), data: None };
    assert_eq!(b.to_json(), "{\"command\":\"c\",\"label\":\"L\",\"data\":null}");
    assert_eq!(
        actions_to_json(&vec![a, b]),
        "[{\"command\":\"open\",\"label\":\"Open\",\"data\":{\"url\":\"http://x\"}},{\"command\":\"c\",\"label\":\"L\",\"data\":null}]"
    );
    assert_eq!(actions_to_json(&Vec::new()), "[]");
}

#[test]
fn audio_json_with_and_without_volume() {
    let a = Audio { source: "a.mp3".to_string(), volume: Some("0.5".to_string()) };
    assert_eq!(a.to_json(), "{\"source\":\"a.mp3\",\"volume\":0.5}");
    let b = Audio { source: "b".to_string(), volume: None };
    assert_eq!(b.to_json(), "{\"source\":\"b\",\"volume\":null}");
}

#[test]
fn registration_request_json() {
    let r = Request::register("id1".to_string(), "tok".to_string());
    assert_eq!(r.event, "REGISTER_DATA_LISTENER");
    assert_eq!(r.data.modules, vec!["system".to_string()]);
    assert_eq!(
        r.to_json(),
        "{\"data\":{\"modules\":[\"system\"]},\"event\":\"REGISTER_DATA_LISTENER\",\"id\":\"id1\",\"token\":\"tok\"}"
    );
}

#[test]
fn fresh_registration_has_uuid_id() {
    let a = Request::new_registration("t".to_string());
    let b = Request::new_registration("t".to_string());
    assert_eq!(a.id.len(), 36);
    assert_eq!(a.id.as_bytes()[8], b'-');
    assert_eq!(a.id.as_bytes()[23], b'-');
    assert_ne!(a.id, b.id);
    assert_eq!(a.token, "t");
}

#[test]
fn classify_tags() {
    assert!(matches!(classify(&"NOTIFICATION".to_string()), MessageKind::Notification));
    assert!(matches!(classify(&"DATA_UPDATE".to_string()), MessageKind::DataUpdate));
    assert!(matches!(classify(&"notification".to_string()), MessageKind::Other));
    assert!(matches!(classify(&"".to_string()), MessageKind::Other));
}

#[test]
fn decimal_text() {
    assert_eq!(to_decimal(0), "0");
    assert_eq!(to_decimal(5), "5");
    assert_eq!(to_decimal(1234567890), "1234567890");
    assert_eq!(to_decimal(u64::MAX), "18446744073709551615");
}

#[test]
fn pairs_are_form_encoded() {
    let pairs = vec![
        ("a b".to_string(), "x&y=z".to_string()),
        ("é".to_string(), "*-._~".to_string()),
    ];
    assert_eq!(encode_pairs(&pairs), "a+b=x%26y%3Dz&%C3%A9=*-._%7E");
    assert_eq!(encode_pairs(&Vec::new()), "");
}
