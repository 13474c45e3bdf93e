use xi_bench::codec::FrameCodec;
use xi_bench::router::{classify_line, is_response, route, Inbound, NotificationPolicy, RouterAction};

fn value(text: &str) -> serde_json::Value {
    serde_json::from_str(text).unwrap()
}

#[test]
fn response_line_is_delivered_whole() {
    match route(Some("{\"id\":3,\"result\":\"ok\"}"), NotificationPolicy::Drop) {
        RouterAction::Deliver(v) => assert_eq!(v, value("{\"id\":3,\"result\":\"ok\"}")),
        _ => panic!("a response must be delivered"),
    }
}

#[test]
fn error_response_is_delivered() {
    match route(Some("{\"id\":2,\"error\":{\"code\":1}}"), NotificationPolicy::Forward) {
        RouterAction::Deliver(v) => assert_eq!(v["error"]["code"], value("1")),
        _ => panic!("a response must be delivered"),
    }
}

#[test]
fn notification_is_dropped_or_reported() {
    let line = "{\"method\":\"update\",\"params\":{}}";
    assert!(matches!(route(Some(line), NotificationPolicy::Drop), RouterAction::Skip));
    match route(Some(line), NotificationPolicy::Forward) {
        RouterAction::Report(v) => assert_eq!(v, value(line)),
        _ => panic!("a forwarded notification must be reported"),
    }
}

#[test]
fn value_that_is_no_object_is_a_notification() {
    assert!(matches!(classify_line("[1,2]"), Inbound::Notification(_)));
}

#[test]
fn malformed_line_fails_the_router() {
    assert!(matches!(classify_line("{not json"), Inbound::Malformed));
    assert!(matches!(route(Some("{not json"), NotificationPolicy::Forward), RouterAction::Fail));
}

#[test]
fn end_of_stream_stops_the_router() {
    assert!(matches!(route(None, NotificationPolicy::Forward), RouterAction::Stop));
}

#[test]
fn echoed_response_matches_request_after_notifications() {
    let mut c = FrameCodec::new();
    let (_, first) = c.encode_request(value("{\"method\":\"a\"}")).unwrap();
    let (line, id) = c.encode_request(value("{\"method\":\"b\"}")).unwrap();
    assert_eq!((first, id), (1, 2));
    let sent: serde_json::Value = serde_json::from_slice(&line[..line.len() - 1]).unwrap();
    let echo = format!("{{\"id\":{},\"result\":\"ok\"}}", sent["id"]);
    match route(Some(&echo), NotificationPolicy::Drop) {
        RouterAction::Deliver(v) => {
            assert_eq!(v["id"], value("2"));
            assert_eq!(v["result"], value("\"ok\""));
        }
        _ => panic!("the echo must be delivered"),
    }
    assert!(matches!(route(Some("{\"method\":\"ignored\"}"), NotificationPolicy::Drop), RouterAction::Skip));
}

#[test]
fn responses_are_values_with_id() {
    assert!(is_response(&value("{\"id\":4,\"result\":\"ok\"}")));
    assert!(!is_response(&value("{\"method\":\"update\"}")));
    assert!(!is_response(&value("[1]")));
}
