use process_lib::{
    await_message, await_next_message_body, can_message, get_capability, net_address, Address,
    Capability, LazyLoadBlob, Message, ProcessId, RawMessage, RawRequest, RawResponse,
    RawSendError, RawSendErrorKind, SendErrorKind,
};

fn addr(node: &str, process: &str, package: &str, publisher: &str) -> Address {
    Address::new(node, ProcessId::new(process, package, publisher))
}

fn raw_request(body: Vec<u8>) -> RawRequest {
    RawRequest {
        inherit: false,
        expects_response: Some(5),
        body,
        metadata: Some("meta".to_owned()),
        capabilities: Vec::new(),
    }
}

#[test]
fn await_message_delivers_request_fields() {
    let source = addr("alice.os", "app", "pkg", "pub.os");
    let raw = RawMessage::Request(raw_request(vec![1, 2, 3]));
    let msg = await_message(Ok((source, raw))).unwrap();
    assert!(msg.is_request());
    assert_eq!(msg.body(), &[1, 2, 3]);
    assert_eq!(msg.source().node, "alice.os");
    assert_eq!(msg.metadata().as_deref(), Some("meta"));
    assert_eq!(msg.expects_response(), Some(5));
    assert!(msg.context().is_none());
}

#[test]
fn await_message_delivers_response_context() {
    let source = addr("bob.os", "app", "pkg", "pub.os");
    let raw = RawMessage::Response(
        RawResponse {
            inherit: false,
            body: vec![9],
            metadata: None,
            capabilities: Vec::new(),
        },
        Some(vec![7, 7]),
    );
    let msg = await_message(Ok((source, raw))).unwrap();
    assert!(!msg.is_request());
    assert_eq!(msg.body(), &[9]);
    assert_eq!(msg.context().unwrap(), &vec![7, 7]);
}

#[test]
fn timeout_send_error_converts_field_by_field() {
    let echoed = RawMessage::Request(raw_request(vec![4, 5, 6]));
    let low = RawSendError {
        kind: RawSendErrorKind::Timeout,
        message: echoed,
        lazy_load_blob: Some(LazyLoadBlob::new(None, vec![0xAB])),
    };
    let err = await_message(Err((low, Some(vec![1])))).unwrap_err();
    assert_eq!(err.kind, SendErrorKind::Timeout);
    assert!(err.kind.is_timeout());
    // The echoed message keeps body and metadata unchanged.
    assert_eq!(err.message.body(), &[4, 5, 6]);
    assert_eq!(err.message.metadata().as_deref(), Some("meta"));
    // Its source is the reserved networking-process address.
    assert!(*err.message.source() == net_address());
    assert_eq!(err.message.source().to_string(), "our@net:distro:sys");
    // Attachment and context pass through unchanged.
    assert_eq!(err.lazy_load_blob.as_ref().unwrap().bytes, vec![0xAB]);
    assert_eq!(err.context, Some(vec![1]));
}

#[test]
fn offline_send_error_converts_kind() {
    let low = RawSendError {
        kind: RawSendErrorKind::Offline,
        message: RawMessage::Request(raw_request(Vec::new())),
        lazy_load_blob: None,
    };
    let err = await_message(Err((low, None))).unwrap_err();
    assert_eq!(err.kind, SendErrorKind::Offline);
    assert!(err.kind.is_offline());
    assert_eq!(err.context, None);
}

#[test]
fn await_next_message_body_returns_exact_body() {
    let source = addr("alice.os", "app", "pkg", "pub.os");
    let raw = RawMessage::Request(raw_request(vec![10, 20, 30]));
    let body = await_next_message_body(Ok((source, raw))).unwrap();
    assert_eq!(body, vec![10, 20, 30]);
}

#[test]
fn await_next_message_body_propagates_send_error() {
    let low = RawSendError {
        kind: RawSendErrorKind::Timeout,
        message: RawMessage::Request(raw_request(vec![8])),
        lazy_load_blob: None,
    };
    let err = await_next_message_body(Err((low, Some(vec![3])))).unwrap_err();
    assert_eq!(err.kind, SendErrorKind::Timeout);
    assert_eq!(err.message.body(), &[8]);
    assert_eq!(err.context, Some(vec![3]));
}

#[test]
fn can_message_finds_exact_marker() {
    let target = addr("alice.os", "app", "pkg", "pub.os");
    let held = vec![
        // Unrelated issuer, right marker.
        Capability::new(addr("carol.os", "app", "pkg", "pub.os"), "\"messaging\""),
        // Right issuer, unrelated params.
        Capability::new(target.clone(), "\"reading\""),
        // The exact match.
        Capability::new(target.clone(), "\"messaging\""),
    ];
    assert!(can_message(&target, &held));
}

#[test]
fn can_message_false_without_exact_match() {
    let target = addr("alice.os", "app", "pkg", "pub.os");
    let held = vec![
        Capability::new(addr("carol.os", "app", "pkg", "pub.os"), "\"messaging\""),
        Capability::new(target.clone(), "\"reading\""),
    ];
    assert!(!can_message(&target, &held));
    assert!(!can_message(&target, &Vec::new()));
}

#[test]
fn get_capability_compares_params_as_json() {
    let issuer = addr("alice.os", "app", "pkg", "pub.os");
    let held = vec![
        Capability::new(issuer.clone(), "{\"a\":1,\"b\":2}"),
    ];
    // Same JSON object with the keys in the other order still matches.
    let found = get_capability(&issuer, "{\"b\":2,\"a\":1}", &held).unwrap();
    assert!(found == held[0]);
    assert_eq!(found.params, "{\"a\":1,\"b\":2}");
    // A different value under the same keys does not.
    assert!(get_capability(&issuer, "{\"a\":1,\"b\":3}", &held).is_none());
    // A different issuer does not.
    let other = addr("bob.os", "app", "pkg", "pub.os");
    assert!(get_capability(&other, "{\"a\":1,\"b\":2}", &held).is_none());
}

#[test]
fn get_capability_returns_first_match() {
    let issuer = addr("alice.os", "app", "pkg", "pub.os");
    let held = vec![
        Capability::new(issuer.clone(), "\"other\""),
        Capability::new(issuer.clone(), "1"),
        Capability::new(issuer.clone(), " 1 "),
    ];
    // Both of the last two parse to the same JSON value; the scan stops at
    // the first.
    let found = get_capability(&issuer, "1", &held).unwrap();
    assert_eq!(found.params, "1");
}

#[test]
fn message_capabilities_pass_through() {
    let source = addr("alice.os", "app", "pkg", "pub.os");
    let cap = Capability::new(source.clone(), "\"messaging\"");
    let raw = RawMessage::Request(RawRequest {
        inherit: true,
        expects_response: None,
        body: Vec::new(),
        metadata: None,
        capabilities: vec![cap.clone()],
    });
    let msg = await_message(Ok((source, raw))).unwrap();
    match &msg {
        Message::Request { capabilities, .. } => {
            assert_eq!(capabilities.len(), 1);
            assert!(capabilities[0] == cap);
        }
        Message::Response { .. } => panic!("expected a request"),
    }
    assert_eq!(msg.capabilities().len(), 1);
}

#[test]
fn grant_messaging_plans_one_share_per_target() {
    let our = addr("alice.os", "app", "pkg", "pub.os");
    let own_cap = Capability::new(our.clone(), "\"messaging\"");
    let held = vec![
        Capability::new(addr("bob.os", "app", "pkg", "pub.os"), "\"messaging\""),
        own_cap.clone(),
    ];
    let targets = vec![
        ProcessId::new("child1", "pkg", "pub.os"),
        ProcessId::new("child2", "pkg", "pub.os"),
    ];
    let pairs = process_lib::grant_messaging(&our, &targets, &held).unwrap();
    assert_eq!(pairs.len(), 2);
    assert!(pairs[0].0 == targets[0]);
    assert!(pairs[1].0 == targets[1]);
    assert!(pairs[0].1 == own_cap);
    assert!(pairs[1].1 == own_cap);
}

#[test]
fn grant_messaging_fails_without_own_capability() {
    let our = addr("alice.os", "app", "pkg", "pub.os");
    let held = vec![
        // Issued by someone else, or held for another purpose: neither is
        // this process's own messaging capability.
        Capability::new(addr("bob.os", "app", "pkg", "pub.os"), "\"messaging\""),
        Capability::new(our.clone(), "\"reading\""),
    ];
    let targets = vec![ProcessId::new("child", "pkg", "pub.os")];
    assert!(process_lib::grant_messaging(&our, &targets, &held).is_none());
}
