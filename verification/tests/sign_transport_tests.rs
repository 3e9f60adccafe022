use dfx::sign_transport::{CallKind, SignReplicaV1Transport, TransportOutcome};
use dfx::signed_message::SignedMessageV1;

fn template() -> SignedMessageV1 {
    SignedMessageV1::new(
        "2021-05-01 10:00:00 UTC".to_string(),
        "2021-05-01 10:05:00 UTC".to_string(),
        "http://localhost:8000".to_string(),
        "2vxsx-fae".to_string(),
        "rwlgt-iiaaa-aaaaa-aaaaa-cai".to_string(),
        "greet".to_string(),
        vec![68, 73, 68, 76],
    )
}

fn to_json(message: &SignedMessageV1) -> String {
    let mut fields = serde_json::Map::new();
    let text = |s: &String| serde_json::Value::String(s.clone());
    fields.insert("version".to_string(), serde_json::Value::from(message.version as u64));
    fields.insert("creation".to_string(), text(&message.creation));
    fields.insert("expiration".to_string(), text(&message.expiration));
    fields.insert("network".to_string(), text(&message.network));
    fields.insert("call_type".to_string(), text(&message.call_type));
    fields.insert("sender".to_string(), text(&message.sender));
    fields.insert("canister_id".to_string(), text(&message.canister_id));
    fields.insert("method_name".to_string(), text(&message.method_name));
    fields.insert("arg".to_string(), serde_json::Value::from(message.arg.clone()));
    fields.insert(
        "request_id".to_string(),
        match &message.request_id {
            Some(id) => text(id),
            None => serde_json::Value::Null,
        },
    );
    fields.insert("content".to_string(), text(&message.content));
    serde_json::to_string(&serde_json::Value::Object(fields)).unwrap()
}

#[test]
fn template_holds_the_metadata_and_nothing_of_a_call() {
    let message = template();
    assert_eq!(message.version, 1);
    assert_eq!(message.sender, "2vxsx-fae");
    assert_eq!(message.canister_id, "rwlgt-iiaaa-aaaaa-aaaaa-cai");
    assert_eq!(message.method_name, "greet");
    assert_eq!(message.arg, vec![68, 73, 68, 76]);
    assert_eq!(message.call_type, "");
    assert_eq!(message.request_id, None);
    assert_eq!(message.content, "");
    assert_eq!(message.duplicate(), message);
}

#[test]
fn message_builders_replace_one_field_each() {
    let message = template()
        .with_call_type("update".to_string())
        .with_request_id(&[0x00, 0x0f, 0xf0, 0xff])
        .with_content("c0ffee".to_string());
    let expected = SignedMessageV1 {
        call_type: "update".to_string(),
        request_id: Some("000ff0ff".to_string()),
        content: "c0ffee".to_string(),
        ..template()
    };
    assert_eq!(message, expected);
}

#[test]
fn query_is_written_as_json_and_ends_in_the_sentinel() {
    let transport = SignReplicaV1Transport::new("message.json".to_string(), template());
    assert_eq!(transport.file_name(), "message.json");
    let building = transport.read(b"\xDE\xAD\xBE\xEF");
    assert_eq!(building.message().call_type, "query");
    assert_eq!(building.message().content, "deadbeef");
    assert_eq!(building.message().request_id, None);
    let json = to_json(building.message());
    let serialized = building.serialized(Ok(json)).unwrap();
    assert_eq!(serialized.path(), "message.json");
    let document: serde_json::Value = serde_json::from_str(serialized.contents()).unwrap();
    assert_eq!(document["call_type"], "query");
    assert_eq!(document["content"], "deadbeef");
    assert_eq!(document["sender"], "2vxsx-fae");
    assert_eq!(document["canister_id"], "rwlgt-iiaaa-aaaaa-aaaaa-cai");
    assert!(document["request_id"].is_null());
    let outcome = serialized.written(Ok(()));
    assert_eq!(
        outcome,
        TransportOutcome::Written { kind: CallKind::Query, path: "message.json".to_string() }
    );
    assert!(outcome.is_written());
    assert_eq!(outcome.message(), "Query message generated at [message.json]");
}

#[test]
fn update_holds_the_request_identifier() {
    let transport = SignReplicaV1Transport::new("message.json".to_string(), template());
    let request_id: Vec<u8> = (0u8..32).collect();
    let building = transport.submit(&[1, 2, 3], &request_id);
    assert_eq!(building.message().call_type, "update");
    assert_eq!(building.message().content, "010203");
    assert_eq!(
        building.message().request_id,
        Some("000102030405060708090a0b0c0d0e0f101112131415161718191a1b1c1d1e1f".to_string())
    );
    let json = to_json(building.message());
    let serialized = building.serialized(Ok(json)).unwrap();
    let document: serde_json::Value = serde_json::from_str(serialized.contents()).unwrap();
    assert_eq!(document["call_type"], "update");
    assert_eq!(
        document["request_id"],
        "000102030405060708090a0b0c0d0e0f101112131415161718191a1b1c1d1e1f"
    );
    let outcome = serialized.written(Ok(()));
    assert_eq!(
        outcome,
        TransportOutcome::Written { kind: CallKind::Update, path: "message.json".to_string() }
    );
    assert_eq!(outcome.message(), "Update message generated at [message.json]");
}

#[test]
fn same_call_to_another_file_writes_the_same_content() {
    let first = SignReplicaV1Transport::new("one.json".to_string(), template());
    let second = SignReplicaV1Transport::new("two.json".to_string(), template());
    let request_id = [7u8; 32];
    let one = first.submit(&[9, 8, 7], &request_id);
    let two = second.submit(&[9, 8, 7], &request_id);
    assert_eq!(one.message(), two.message());
    let one = one.serialized(Ok(to_json(first.submit(&[9, 8, 7], &request_id).message()))).unwrap();
    let two =
        two.serialized(Ok(to_json(second.submit(&[9, 8, 7], &request_id).message()))).unwrap();
    assert_eq!(one.contents(), two.contents());
    assert_eq!(one.path(), "one.json");
    assert_eq!(two.path(), "two.json");
    assert_ne!(one.written(Ok(())), two.written(Ok(())));
}

#[test]
fn query_keeps_a_request_identifier_of_the_template() {
    let with_id = template().with_request_id(&[0xab]);
    let transport = SignReplicaV1Transport::new("m.json".to_string(), with_id);
    assert_eq!(transport.read(&[]).message().request_id, Some("ab".to_string()));
    assert_eq!(transport.read(&[]).message().content, "");
}

#[test]
fn failed_serialization_is_a_failure_and_not_the_sentinel() {
    let transport = SignReplicaV1Transport::new("m.json".to_string(), template());
    let outcome =
        transport.read(&[1]).serialized(Err("key must be a string".to_string())).unwrap_err();
    assert_eq!(
        outcome,
        TransportOutcome::TransportFailure { reason: "key must be a string".to_string() }
    );
    assert!(!outcome.is_written());
    assert_eq!(outcome.message(), "key must be a string");
}

#[test]
fn failed_write_is_a_failure_and_not_the_sentinel() {
    let transport = SignReplicaV1Transport::new("/nowhere/m.json".to_string(), template());
    let serialized = transport.read(&[1]).serialized(Ok("{}".to_string())).unwrap();
    let outcome = serialized.written(Err("No such file or directory".to_string()));
    assert_eq!(
        outcome,
        TransportOutcome::TransportFailure { reason: "No such file or directory".to_string() }
    );
    assert!(!outcome.is_written());
}

#[test]
fn unsupported_requests_fail_and_build_nothing() {
    let transport = SignReplicaV1Transport::new("m.json".to_string(), template());
    assert_eq!(
        transport.read_state(&[1, 2]),
        TransportOutcome::TransportFailure { reason: "read_state calls not supported".to_string() }
    );
    assert_eq!(
        transport.call(&[1, 2]),
        TransportOutcome::TransportFailure { reason: "call calls not supported".to_string() }
    );
    assert_eq!(
        transport.status(),
        TransportOutcome::TransportFailure { reason: "status calls not supported".to_string() }
    );
    assert!(!transport.status().is_written());
    assert_eq!(transport.status().message(), "status calls not supported");
}
