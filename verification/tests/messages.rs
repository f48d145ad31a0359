use peer_relay::message::{
    classify, decode, receiver_connected, transfer_created, transfer_ready, Control, Envelope,
};

fn envelope(
    kind: Option<&str>,
    connection_id: Option<&str>,
    file_name: Option<&str>,
    file_size: Option<u64>,
    target_id: Option<&str>,
) -> Envelope {
    Envelope {
        kind: kind.map(String::from),
        connection_id: connection_id.map(String::from),
        file_name: file_name.map(String::from),
        file_size,
        target_id: target_id.map(String::from),
    }
}

#[test]
fn classify_register_with_connection_id() {
    let control = classify(envelope(Some("register"), Some("alice"), None, None, None));
    assert_eq!(control, Control::Register { connection_id: "alice".to_string() });
}

#[test]
fn classify_register_without_connection_id_is_ignored() {
    let control = classify(envelope(Some("register"), None, None, None, None));
    assert_eq!(control, Control::Ignored);
}

#[test]
fn classify_register_without_connection_id_ignores_target() {
    let control = classify(envelope(Some("register"), None, None, None, Some("bob")));
    assert_eq!(control, Control::Ignored);
}

#[test]
fn classify_register_wins_over_target() {
    let control = classify(envelope(Some("register"), Some("alice"), None, None, Some("bob")));
    assert_eq!(control, Control::Register { connection_id: "alice".to_string() });
}

#[test]
fn classify_init_transfer_with_both_fields() {
    let control = classify(envelope(Some("init_transfer"), None, Some("a.txt"), Some(100), None));
    assert_eq!(control, Control::InitTransfer { file_name: "a.txt".to_string(), file_size: 100 });
}

#[test]
fn classify_init_transfer_without_name_is_ignored() {
    let control = classify(envelope(Some("init_transfer"), None, None, Some(100), Some("bob")));
    assert_eq!(control, Control::Ignored);
}

#[test]
fn classify_init_transfer_without_size_is_ignored() {
    let control = classify(envelope(Some("init_transfer"), None, Some("a.txt"), None, None));
    assert_eq!(control, Control::Ignored);
}

#[test]
fn classify_target_without_type_is_direct() {
    let control = classify(envelope(None, None, None, None, Some("bob")));
    assert_eq!(control, Control::Direct { target_id: "bob".to_string() });
}

#[test]
fn classify_target_with_unknown_type_is_direct() {
    let control = classify(envelope(Some("offer"), Some("x"), Some("y"), Some(1), Some("bob")));
    assert_eq!(control, Control::Direct { target_id: "bob".to_string() });
}

#[test]
fn classify_type_is_case_sensitive() {
    let control = classify(envelope(Some("Register"), Some("alice"), None, None, None));
    assert_eq!(control, Control::Ignored);
}

#[test]
fn classify_empty_envelope_is_ignored() {
    let control = classify(envelope(None, None, None, None, None));
    assert_eq!(control, Control::Ignored);
}

#[test]
fn decode_register() {
    let control = decode(r#"{"type":"register","connectionId":"alice"}"#);
    assert_eq!(control, Control::Register { connection_id: "alice".to_string() });
}

#[test]
fn decode_register_with_numeric_id_is_ignored() {
    assert_eq!(decode(r#"{"type":"register","connectionId":7}"#), Control::Ignored);
}

#[test]
fn decode_init_transfer() {
    let control = decode(r#"{"type":"init_transfer","file_name":"a.txt","file_size":100}"#);
    assert_eq!(control, Control::InitTransfer { file_name: "a.txt".to_string(), file_size: 100 });
}

#[test]
fn decode_init_transfer_of_size_zero() {
    let control = decode(r#"{"type":"init_transfer","file_name":"","file_size":0}"#);
    assert_eq!(control, Control::InitTransfer { file_name: String::new(), file_size: 0 });
}

#[test]
fn decode_init_transfer_of_largest_size() {
    let control =
        decode(r#"{"type":"init_transfer","file_name":"big","file_size":18446744073709551615}"#);
    assert_eq!(
        control,
        Control::InitTransfer { file_name: "big".to_string(), file_size: u64::MAX }
    );
}

#[test]
fn decode_init_transfer_with_negative_size_is_ignored() {
    let control = decode(r#"{"type":"init_transfer","file_name":"a.txt","file_size":-1}"#);
    assert_eq!(control, Control::Ignored);
}

#[test]
fn decode_init_transfer_with_fractional_size_is_ignored() {
    let control = decode(r#"{"type":"init_transfer","file_name":"a.txt","file_size":100.0}"#);
    assert_eq!(control, Control::Ignored);
}

#[test]
fn decode_init_transfer_with_text_size_is_ignored() {
    let control = decode(r#"{"type":"init_transfer","file_name":"a.txt","file_size":"100"}"#);
    assert_eq!(control, Control::Ignored);
}

#[test]
fn decode_init_transfer_without_name_is_ignored_despite_target() {
    let control = decode(r#"{"type":"init_transfer","file_size":100,"target_id":"bob"}"#);
    assert_eq!(control, Control::Ignored);
}

#[test]
fn decode_direct_message() {
    let control = decode(r#"{"target_id":"bob","sdp":"v=0"}"#);
    assert_eq!(control, Control::Direct { target_id: "bob".to_string() });
}

#[test]
fn decode_direct_message_with_other_type() {
    let control = decode(r#"{"type":"offer","target_id":"bob"}"#);
    assert_eq!(control, Control::Direct { target_id: "bob".to_string() });
}

#[test]
fn decode_direct_message_with_escaped_target() {
    let control = decode(r#"{"target_id":"bob \"x\""}"#);
    assert_eq!(control, Control::Direct { target_id: "bob \"x\"".to_string() });
}

#[test]
fn decode_target_that_is_no_string_is_ignored() {
    assert_eq!(decode(r#"{"target_id":5}"#), Control::Ignored);
    assert_eq!(decode(r#"{"target_id":null}"#), Control::Ignored);
}

#[test]
fn decode_text_that_is_no_json_is_ignored() {
    assert_eq!(decode("hello"), Control::Ignored);
    assert_eq!(decode(""), Control::Ignored);
    assert_eq!(decode(r#"{"target_id":"bob""#), Control::Ignored);
    assert_eq!(decode(r#"{"target_id":"bob"} trailing"#), Control::Ignored);
}

#[test]
fn decode_json_that_is_no_object_is_ignored() {
    assert_eq!(decode("42"), Control::Ignored);
    assert_eq!(decode(r#""target_id""#), Control::Ignored);
    assert_eq!(decode(r#"["target_id","bob"]"#), Control::Ignored);
    assert_eq!(decode("null"), Control::Ignored);
}

#[test]
fn decode_object_without_known_members_is_ignored() {
    assert_eq!(decode("{}"), Control::Ignored);
    assert_eq!(decode(r#"{"type":"chat","body":"hi"}"#), Control::Ignored);
}

#[test]
fn transfer_created_text_is_exact() {
    assert_eq!(
        transfer_created("abc"),
        r#"{"share_url":"/receive/abc","transfer_id":"abc","type":"transfer_created"}"#
    );
}

#[test]
fn receiver_connected_text_is_exact() {
    assert_eq!(
        receiver_connected("abc", "r-1"),
        r#"{"receiver_id":"r-1","transfer_id":"abc","type":"receiver_connected"}"#
    );
}

#[test]
fn transfer_ready_text_is_exact() {
    assert_eq!(
        transfer_ready("a.txt", 100),
        r#"{"file_name":"a.txt","file_size":100,"type":"transfer_ready"}"#
    );
}

#[test]
fn transfer_ready_text_escapes_the_name() {
    let text = transfer_ready("a \"b\"\n.txt", u64::MAX);
    let parsed: serde_json::Value = serde_json::from_str(&text).unwrap();
    assert_eq!(parsed["type"].as_str(), Some("transfer_ready"));
    assert_eq!(parsed["file_name"].as_str(), Some("a \"b\"\n.txt"));
    assert_eq!(parsed["file_size"].as_u64(), Some(u64::MAX));
    assert_eq!(parsed.as_object().unwrap().len(), 3);
}

#[test]
fn transfer_created_text_reads_back() {
    let text = transfer_created("0d6c8a3e");
    let parsed: serde_json::Value = serde_json::from_str(&text).unwrap();
    assert_eq!(parsed["type"].as_str(), Some("transfer_created"));
    assert_eq!(parsed["transfer_id"].as_str(), Some("0d6c8a3e"));
    assert_eq!(parsed["share_url"].as_str(), Some("/receive/0d6c8a3e"));
    assert_eq!(parsed.as_object().unwrap().len(), 3);
}

#[test]
fn notifications_are_not_control_messages() {
    assert_eq!(decode(&transfer_created("abc")), Control::Ignored);
    assert_eq!(decode(&receiver_connected("abc", "r-1")), Control::Ignored);
    assert_eq!(decode(&transfer_ready("a.txt", 100)), Control::Ignored);
}

#[test]
fn decode_type_that_is_no_string_leaves_the_target_to_decide() {
    let control = decode(r#"{"type":5,"target_id":"bob"}"#);
    assert_eq!(control, Control::Direct { target_id: "bob".to_string() });
}

#[test]
fn decode_last_of_repeated_members_counts() {
    let control = decode(r#"{"target_id":"bob","target_id":"carol"}"#);
    assert_eq!(control, Control::Direct { target_id: "carol".to_string() });
}
