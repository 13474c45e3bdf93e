use xi_bench::codec::{encode_notification, EncodeError, FrameCodec};

fn value(text: &str) -> serde_json::Value {
    serde_json::from_str(text).unwrap()
}

#[test]
fn new_codec_has_handed_out_no_id() {
    assert_eq!(FrameCodec::new().rpc_index(), 0);
}

#[test]
fn request_gets_id_merged_and_newline() {
    let mut c = FrameCodec::new();
    let (line, id) = c.encode_request(value("{\"method\":\"new_view\",\"params\":{}}")).unwrap();
    assert_eq!(id, 1);
    assert_eq!(line, b"{\"id\":1,\"method\":\"new_view\",\"params\":{}}\n".to_vec());
    assert_eq!(c.rpc_index(), 1);
}

#[test]
fn request_ids_count_up_from_one() {
    let mut c = FrameCodec::new();
    for expected in 1..=5u64 {
        let (_, id) = c.encode_request(value("{\"method\":\"m\"}")).unwrap();
        assert_eq!(id, expected);
    }
}

#[test]
fn existing_id_field_is_replaced() {
    let mut c = FrameCodec::new();
    let (line, id) = c.encode_request(value("{\"id\":99}")).unwrap();
    assert_eq!(id, 1);
    assert_eq!(line, b"{\"id\":1}\n".to_vec());
}

#[test]
fn null_request_becomes_object_with_id() {
    let mut c = FrameCodec::new();
    let (line, _) = c.encode_request(serde_json::Value::Null).unwrap();
    assert_eq!(line, b"{\"id\":1}\n".to_vec());
}

#[test]
fn request_that_is_no_object_is_refused_and_takes_no_id() {
    let mut c = FrameCodec::new();
    assert_eq!(c.encode_request(value("[1,2]")).unwrap_err(), EncodeError::NotAnObject);
    assert_eq!(c.encode_request(value("\"s\"")).unwrap_err(), EncodeError::NotAnObject);
    assert_eq!(c.rpc_index(), 0);
    let (_, id) = c.encode_request(value("{}")).unwrap();
    assert_eq!(id, 1);
}

#[test]
fn notification_is_value_and_newline() {
    let line = encode_notification(&value("{\"method\":\"client_started\",\"params\":{}}")).unwrap();
    assert_eq!(line, b"{\"method\":\"client_started\",\"params\":{}}\n".to_vec());
}

#[test]
fn notifications_spend_no_id() {
    let mut c = FrameCodec::new();
    for _ in 0..7 {
        encode_notification(&value("{\"method\":\"edit\"}")).unwrap();
    }
    assert_eq!(c.rpc_index(), 0);
    let (line, id) = c.encode_request(value("{\"method\":\"save\"}")).unwrap();
    assert_eq!(id, 1);
    assert_eq!(line, b"{\"id\":1,\"method\":\"save\"}\n".to_vec());
}
