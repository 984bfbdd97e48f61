use notification_client::endpoint::{websocket_uri, websocket_url};

#[test]
fn url_names_host_port_and_path() {
    assert_eq!(websocket_url("127.0.0.1", 9170), "ws://127.0.0.1:9170/api/websocket");
    assert_eq!(websocket_url("localhost", 0), "ws://localhost:0/api/websocket");
    assert_eq!(websocket_url("h", 65535), "ws://h:65535/api/websocket");
}

#[test]
fn uri_parses_the_url() {
    let uri = websocket_uri("127.0.0.1", 9170).unwrap();
    assert_eq!(uri.scheme_str(), Some("ws"));
    assert_eq!(uri.host(), Some("127.0.0.1"));
    assert_eq!(uri.port_u16(), Some(9170));
    assert_eq!(uri.path(), "/api/websocket");
    assert!(websocket_uri("bad host", 1).is_err());
}
