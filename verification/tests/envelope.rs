use process_lib::{
    get_typed_blob, get_typed_state, make_blob, spawn, Address, BuildError, LazyLoadBlob, OnExit,
    ProcessId, RawOnExit, Request, Response, SpawnError,
};

fn addr(node: &str) -> Address {
    Address::new(node, ProcessId::new("app", "pkg", "pub.os"))
}

#[test]
fn request_builder_snapshots_all_fields() {
    let target = addr("alice.os");
    let req = Request::new()
        .target(target.clone())
        .body(vec![1, 2])
        .metadata("m")
        .expects_response(30)
        .inherit(true)
        .blob(LazyLoadBlob::new(Some("text/plain".to_owned()), vec![9]));
    let (to, raw, blob) = req.into_send().unwrap();
    assert!(to == target);
    assert!(raw.inherit);
    assert_eq!(raw.expects_response, Some(30));
    assert_eq!(raw.body, vec![1, 2]);
    assert_eq!(raw.metadata.as_deref(), Some("m"));
    assert_eq!(blob.unwrap().bytes, vec![9]);
}

#[test]
fn request_without_target_is_a_build_error() {
    let req = Request::new().body(vec![1]);
    assert_eq!(req.into_send().unwrap_err(), BuildError::NoTarget);
}

#[test]
fn request_unset_body_is_sent_empty() {
    let (_, raw, blob) = Request::new().target(addr("a.os")).into_send().unwrap();
    assert!(raw.body.is_empty());
    assert_eq!(raw.expects_response, None);
    assert!(raw.metadata.is_none());
    assert!(blob.is_none());
}

#[test]
fn response_builder_snapshots_fields() {
    let resp = Response::new().body(vec![3, 4]).metadata("n").inherit(true);
    let (raw, blob) = resp.into_send();
    assert!(raw.inherit);
    assert_eq!(raw.body, vec![3, 4]);
    assert_eq!(raw.metadata.as_deref(), Some("n"));
    assert!(blob.is_none());
    let (raw_default, _) = Response::new().into_send();
    assert!(raw_default.body.is_empty());
}

#[test]
fn make_blob_wraps_serializer_output() {
    let value: u32 = 258;
    let blob = make_blob(&value, |v: &u32| Ok(v.to_be_bytes().to_vec())).unwrap();
    assert!(blob.mime.is_none());
    assert_eq!(blob.bytes, vec![0, 0, 1, 2]);
}

#[test]
fn make_blob_propagates_serializer_error() {
    let value: u32 = 7;
    let r = make_blob(&value, |_: &u32| Err(anyhow::Error::msg("cannot encode")));
    assert!(r.is_err());
}

fn decode_u32(bytes: &[u8]) -> Result<u32, anyhow::Error> {
    if bytes.len() == 4 {
        Ok(u32::from_be_bytes([bytes[0], bytes[1], bytes[2], bytes[3]]))
    } else {
        Err(anyhow::Error::msg("wrong length"))
    }
}

#[test]
fn get_typed_blob_absent_and_rejected_both_none() {
    // No attachment at all.
    assert_eq!(get_typed_blob(None, decode_u32), None);
    // An attachment the decoder rejects.
    let short = LazyLoadBlob::new(None, vec![1, 2]);
    assert_eq!(get_typed_blob(Some(short), decode_u32), None);
    // An attachment the decoder accepts.
    let good = LazyLoadBlob::new(None, vec![0, 0, 1, 2]);
    assert_eq!(get_typed_blob(Some(good), decode_u32), Some(258));
}

#[test]
fn get_typed_state_absent_and_rejected_both_none() {
    assert_eq!(get_typed_state(None, decode_u32), None);
    assert_eq!(get_typed_state(Some(vec![1]), decode_u32), None);
    assert_eq!(get_typed_state(Some(vec![0, 0, 0, 9]), decode_u32), Some(9));
}

#[test]
fn spawn_passes_simple_policies_through() {
    let action = spawn(
        Some("child"),
        "pkg/child.wasm",
        OnExit::Restart,
        Vec::new(),
        Vec::new(),
        true,
    )
    .unwrap();
    assert_eq!(action.name.as_deref(), Some("child"));
    assert_eq!(action.wasm_path, "pkg/child.wasm");
    assert!(matches!(action.on_exit, RawOnExit::Restart));
    assert!(action.public);
}

#[test]
fn spawn_snapshots_parting_requests() {
    let target = addr("alice.os");
    let reqs = vec![Request::new().target(target.clone()).body(vec![1])];
    let action = spawn(None, "p.wasm", OnExit::Requests(reqs), Vec::new(), Vec::new(), false)
        .unwrap();
    match action.on_exit {
        RawOnExit::Requests(entries) => {
            assert_eq!(entries.len(), 1);
            assert!(entries[0].0 == target);
            assert_eq!(entries[0].1.body, vec![1]);
        }
        _ => panic!("expected a requests policy"),
    }
}

#[test]
fn spawn_rejects_a_targetless_parting_request() {
    let reqs = vec![Request::new().body(vec![1])];
    let r = spawn(None, "p.wasm", OnExit::Requests(reqs), Vec::new(), Vec::new(), false);
    assert_eq!(r.unwrap_err(), SpawnError::NameTaken);
}
