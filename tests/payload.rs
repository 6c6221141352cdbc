use amqpiothub::payload::{blob_json_text, message_json_text, normalize_blob_data, StorageEntryFields};

#[test]
fn blob_line_breaks_become_separators() {
    let data = b"{\"a\":1}\r\n{\"a\":2}".to_vec();
    assert_eq!(normalize_blob_data(&data), b"{\"a\":1}, {\"a\":2}".to_vec());
    assert_eq!(blob_json_text(&data), b"[{\"a\":1}, {\"a\":2}]".to_vec());
    assert_eq!(normalize_blob_data(&b"a\r\rb".to_vec()), b"a,, ".to_vec());
    assert_eq!(normalize_blob_data(&b"a\r".to_vec()), b"a,".to_vec());
    assert_eq!(blob_json_text(&Vec::new()), b"[]".to_vec());
}

#[test]
fn message_json_is_found() {
    let body = b"\x00\x53\x77\xa1{\"action\":\"test\"}".to_vec();
    assert_eq!(message_json_text(&body), b"{\"action\":\"test\"}".to_vec());
    assert_eq!(message_json_text(&b"x{y{\"k\":1}".to_vec()), b"{\"k\":1}".to_vec());
    assert_eq!(message_json_text(&b"no object".to_vec()), Vec::<u8>::new());
    assert_eq!(message_json_text(&b"{".to_vec()), Vec::<u8>::new());
    assert_eq!(message_json_text(&vec![0x7b, 0xc3, 0x22, 0x7d]), b"{\"}".to_vec());
}

#[test]
fn record_field_paths() {
    assert_eq!(StorageEntryFields::ConnectionDeviceId.json_path(), vec!["SystemProperties", "connectionDeviceId"]);
    assert_eq!(StorageEntryFields::EnqueuedTime.json_path(), vec!["SystemProperties", "enqueuedTime"]);
    assert_eq!(StorageEntryFields::Body.json_path(), vec!["Body"]);
}
