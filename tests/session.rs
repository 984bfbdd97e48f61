use notification_client::protocol::{Action, Audio, Notification, Response};
use notification_client::session::{Inbound, Session, Step};

fn notification(title: &str, timeout: Option<u64>) -> Notification {
    Notification {
        title: title.to_string(),
        message: None,
        icon: None,
        image: None,
        actions: None,
        timeout,
        audio: None,
    }
}

fn response(kind: &str) -> Response {
    Response {
        id: "r1".to_string(),
        kind: kind.to_string(),
        data: serde_json::Value::Bool(true),
        subtype: None,
        message: None,
        module: None,
    }
}

#[test]
fn unknown_kind_is_skipped_and_session_stays_open() {
    let mut s = Session::new(100);
    assert!(matches!(s.on_inbound(Inbound::Received(response("SOMETHING_NEW"))), Step::Skip));
    assert!(s.open);
    assert!(matches!(s.on_inbound(Inbound::Received(response("DATA_UPDATE"))), Step::Skip));
    assert!(s.open);
}

#[test]
fn malformed_frame_is_reported_and_session_stays_open() {
    let mut s = Session::new(100);
    assert!(matches!(s.on_inbound(Inbound::Undecodable), Step::ReportMalformed));
    assert!(s.open);
    assert!(matches!(s.on_inbound(Inbound::NonText), Step::Skip));
    assert!(s.open);
    match s.on_inbound(Inbound::Received(response("NOTIFICATION"))) {
        Step::DecodeNotification(v) => assert_eq!(v, serde_json::Value::Bool(true)),
        _ => panic!("a notification is decoded"),
    }
    assert!(s.open);
}

#[test]
fn close_and_failure_end_the_session() {
    let mut s = Session::new(100);
    assert!(matches!(s.on_inbound(Inbound::Closed), Step::Finish));
    assert!(!s.open);
    let mut t = Session::new(100);
    assert!(matches!(t.on_inbound(Inbound::Failed), Step::Abort));
    assert!(!t.open);
}

#[test]
fn missing_timeout_closes_after_five_seconds() {
    let s = Session::new(100);
    let n = notification("hello", None);
    assert_eq!(n.timeout_secs(), 5);
    assert_eq!(s.present(&n).close_after_secs, 5);
}

#[test]
fn two_notifications_close_independently() {
    let mut s = Session::new(100);
    assert!(matches!(s.on_inbound(Inbound::Received(response("NOTIFICATION"))), Step::DecodeNotification(_)));
    let first = s.on_notification(Some(notification("one", Some(1)))).unwrap();
    assert!(matches!(s.on_inbound(Inbound::Received(response("NOTIFICATION"))), Step::DecodeNotification(_)));
    let second = s.on_notification(Some(notification("two", Some(10)))).unwrap();
    assert!(s.open);
    assert_eq!(first.close_after_secs, 1);
    assert_eq!(second.close_after_secs, 10);
    assert!(first.query.ends_with("&timeout=1&title=one"));
    assert!(second.query.ends_with("&timeout=10&title=two"));
}

#[test]
fn undecodable_notification_presents_nothing() {
    let s = Session::new(100);
    assert!(s.on_notification(None).is_none());
}

#[test]
fn presentation_carries_height_and_query() {
    let s = Session::new(100);
    let mut n = notification("Hi there", Some(0));
    n.message = Some("m".to_string());
    let p = s.present(&n);
    assert_eq!(p.height, 124);
    assert_eq!(p.close_after_secs, 0);
    assert_eq!(p.query, "&actions=&audio=&icon=&image=&message=m&timeout=0&title=Hi+there");
}

#[test]
fn query_round_trips_actions_and_audio() {
    let mut n = notification("T", Some(3));
    n.actions = Some(vec![Action {
        command: "run".to_string(),
        label: "Run & go".to_string(),
        data: Some(vec![("k".to_string(), "v=1".to_string())]),
    }]);
    n.audio = Some(Audio { source: "ding.wav".to_string(), volume: Some("0.25".to_string()) });
    let q = n.to_host_query();
    assert!(q.starts_with('&'));
    let pairs: Vec<(String, String)> = serde_urlencoded::from_str(&q[1..]).unwrap();
    assert_eq!(pairs.len(), 7);
    assert_eq!(pairs[0].0, "actions");
    let actions: serde_json::Value = serde_json::from_str(&pairs[0].1).unwrap();
    assert_eq!(actions[0]["command"], "run");
    assert_eq!(actions[0]["label"], "Run & go");
    assert_eq!(actions[0]["data"]["k"], "v=1");
    assert_eq!(pairs[1].0, "audio");
    let audio: serde_json::Value = serde_json::from_str(&pairs[1].1).unwrap();
    assert_eq!(audio["source"], "ding.wav");
    assert_eq!(audio["volume"].as_f64(), Some(0.25));
    assert_eq!(pairs[5], ("timeout".to_string(), "3".to_string()));
    assert_eq!(pairs[6], ("title".to_string(), "T".to_string()));
}
