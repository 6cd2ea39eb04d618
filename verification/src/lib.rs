//! Addressing, message envelopes, and capability-checked messaging for
//! processes hosted by a microkernel-style runtime. Processes are named by
//! structured identifiers with strict string encodings; they exchange typed
//! request/response envelopes with an optional out-of-band attachment, and
//! prove permission to message one another with unforgeable capability
//! tokens. The runtime that routes and delivers messages sits behind plain
//! value types: every conversion and decision this crate makes is stated in
//! its contracts and machine-checked.

use vstd::prelude::*;

mod address;
mod capability;
mod lazy_load_blob;
mod message;
mod on_exit;
mod package_id;
mod process_id;
mod request;
mod response;

pub use address::{
    Address, AddressParseError, first_at_sign, is_node, lemma_address_text_injective,
    lemma_address_text_valid, no_at_sign, valid_address_text,
};
pub use capability::{Capability, json_eq};
pub use lazy_load_blob::LazyLoadBlob;
pub use message::{
    Message, RawMessage, RawRequest, RawResponse, RawSendError, RawSendErrorKind, SendError,
    SendErrorKind, is_net_address, kind_of, message_of, net_address, raw_message_to_message,
};
pub use on_exit::{OnExit, RawOnExit, entry_of_request};
pub use request::{BuildError, Request};
pub use response::Response;
pub use package_id::{
    PackageId, colon_only_at, lemma_package_id_text_injective, lemma_package_id_text_valid,
    two_or_more_colons, valid_package_text, zero_colons,
};
pub use process_id::{
    ProcessId, ProcessIdParseError, colon_at, colons_exactly_at, exactly_two_colons,
    fewer_than_two_colons, is_segment, lemma_process_id_text_injective,
    lemma_process_id_text_valid, more_than_two_colons, no_colon, valid_pid_text,
};

verus! {

broadcast use vstd::string::group_string_axioms;

/// The error type the serialize and deserialize callbacks report with.
/// Values of it only travel through: this layer never inspects one.
#[verifier::external_type_specification]
#[verifier::external_body]
pub struct ExAnyhowError(anyhow::Error);

/// A capability whose parameter blob is exactly the reserved messaging
/// marker, issued by `issuer`: holding one is permission to message the
/// issuer.
pub open spec fn is_messaging_cap(cap: Capability, issuer: Address) -> bool {
    cap.issuer.eq_spec_fields(issuer) && cap.params@ == "\"messaging\""@
}

/// A held capability matches a lookup for `issuer` and `params` when the
/// issuers are structurally equal and the parameter blobs are equal as
/// parsed JSON values.
pub open spec fn cap_matches(cap: Capability, issuer: Address, params: Seq<char>) -> bool {
    cap.issuer.eq_spec_fields(issuer) && json_eq(params, cap.params@)
}

/// Convert the outcome of the runtime's blocking receive into the typed
/// result the process consumes. A delivered message keeps its source and
/// fields; a failed prior send comes back as a typed `SendError` whose
/// echoed message is rebuilt under the reserved networking-process address,
/// since a network-level failure has no real remote sender.
pub fn await_message(received: Result<(Address, RawMessage), (RawSendError, Option<Vec<u8>>)>) -> (r:
    Result<Message, SendError>)
    ensures
        (received matches Ok((source, m)) ==> r == Ok::<Message, SendError>(
            message_of(source, m),
        )),
        (received matches Err((e, context)) ==> (r matches Err(se)
            && se.kind == kind_of(e.kind)
            && (exists|na: Address| is_net_address(na) && se.message == message_of(na, e.message))
            && se.lazy_load_blob == e.lazy_load_blob
            && se.context == context)),
        r is Ok <==> received is Ok,
    {
    match received {
        Ok((source, m)) => Ok(raw_message_to_message(source, m)),
        Err((e, context)) => {
            let na = net_address();
            let se = SendError {
                kind: match e.kind {
                    RawSendErrorKind::Offline => SendErrorKind::Offline,
                    RawSendErrorKind::Timeout => SendErrorKind::Timeout,
                },
                message: raw_message_to_message(na, e.message),
                lazy_load_blob: e.lazy_load_blob,
                context,
            };
            Err(se)
        },
    }
}

/// Why the runtime refused to spawn a child process.
#[derive(Debug, Clone, Copy, PartialEq, Eq, Structural)]
pub enum SpawnError {
    NameTaken,
    NoFileAtPath,
}

/// Everything the runtime needs to spawn a child process: validated here,
/// handed over for execution.
#[derive(Debug)]
pub struct SpawnAction {
    pub name: Option<String>,
    pub wasm_path: String,
    pub on_exit: RawOnExit,
    pub request_capabilities: Vec<Capability>,
    pub grant_capabilities: Vec<ProcessId>,
    pub public: bool,
}

/// Prepare a spawn call for the runtime: snapshot the exit policy and pass
/// the capability lists through. Fails exactly when a parting request of the
/// exit policy has no target; the runtime's own refusals come back through
/// its reply to the prepared action.
pub fn spawn(
    name: Option<&str>,
    wasm_path: &str,
    on_exit: OnExit,
    request_capabilities: Vec<Capability>,
    grant_capabilities: Vec<ProcessId>,
    public: bool,
) -> (r: Result<SpawnAction, SpawnError>)
    ensures
        r is Ok <==> on_exit.all_sendable(),
        (r matches Ok(a) ==> {
            &&& (name matches Some(n) ==> a.name matches Some(an) && an@ == n@)
            &&& (name is None ==> a.name is None)
            &&& a.wasm_path@ == wasm_path@
            &&& on_exit.corresponds(a.on_exit)
            &&& a.request_capabilities == request_capabilities
            &&& a.grant_capabilities == grant_capabilities
            &&& a.public == public
        }),
        r is Err ==> r == Err::<SpawnAction, SpawnError>(SpawnError::NameTaken),
{
    match on_exit.into_raw() {
        Ok(raw) => Ok(SpawnAction {
            name: match name {
                Some(n) => Some(n.to_owned()),
                None => None,
            },
            wasm_path: wasm_path.to_owned(),
            on_exit: raw,
            request_capabilities,
            grant_capabilities,
            public,
        }),
        Err(_) => Err(SpawnError::NameTaken),
    }
}

/// The body bytes a low-level message carries.
pub open spec fn raw_body_bytes(m: RawMessage) -> Seq<u8> {
    match m {
        RawMessage::Request(req) => req.body@,
        RawMessage::Response(resp, _) => resp.body@,
    }
}

/// Convert the outcome of a receive and keep only the body bytes of a
/// delivered message; a failed prior send propagates as the typed error.
pub fn await_next_message_body(
    received: Result<(Address, RawMessage), (RawSendError, Option<Vec<u8>>)>,
) -> (r: Result<Vec<u8>, SendError>)
    ensures
        (received matches Ok((source, m)) ==> (r matches Ok(b) && b@ == raw_body_bytes(m))),
        (received matches Err((e, context)) ==> (r matches Err(se)
            && se.kind == kind_of(e.kind)
            && (exists|na: Address| is_net_address(na) && se.message == message_of(na, e.message))
            && se.lazy_load_blob == e.lazy_load_blob
            && se.context == context)),
        r is Ok <==> received is Ok,
    {
    match await_message(received) {
        Ok(msg) => Ok(vstd::slice::slice_to_vec(msg.body())),
        Err(e) => Err(e),
    }
}

/// Whether the process may message `address`: true exactly when the held
/// capabilities contain one issued by `address` whose parameter blob is the
/// reserved messaging marker, byte for byte.
pub fn can_message(address: &Address, our_capabilities: &Vec<Capability>) -> (r: bool)
    ensures
        r == exists|i: int|
            0 <= i < our_capabilities@.len() && is_messaging_cap(our_capabilities@[i], *address),
{
    proof {
        reveal_strlit("\"messaging\"");
    }
    let marker: String = "\"messaging\"".to_owned();
    proof {
        assert(marker@ =~= "\"messaging\""@);
    }
    let mut idx: usize = 0;
    while idx < our_capabilities.len()
        invariant
            idx <= our_capabilities@.len(),
            marker@ == "\"messaging\""@,
            forall|i: int| 0 <= i < idx ==> !is_messaging_cap(our_capabilities@[i], *address),
        decreases our_capabilities@.len() - idx,
    {
        let cap = &our_capabilities[idx];
        if cap.params == marker && cap.issuer == *address {
            assert(is_messaging_cap(our_capabilities@[idx as int], *address));
            return true;
        }
        idx += 1;
    }
    false
}

/// Look a capability up in the held set: the first one issued by `issuer`
/// whose parameter blob equals `params` as a parsed JSON value, or none.
pub fn get_capability(issuer: &Address, params: &str, our_capabilities: &Vec<Capability>) -> (r:
    Option<Capability>)
    ensures
        (r matches Some(c) ==> exists|i: int|
            0 <= i < our_capabilities@.len() && c == our_capabilities@[i] && cap_matches(
                our_capabilities@[i],
                *issuer,
                params@,
            ) && (forall|j: int| 0 <= j < i ==> !cap_matches(our_capabilities@[j], *issuer, params@))),
        r is None <==> forall|i: int|
            0 <= i < our_capabilities@.len() ==> !cap_matches(our_capabilities@[i], *issuer, params@),
{
    let mut idx: usize = 0;
    while idx < our_capabilities.len()
        invariant
            idx <= our_capabilities@.len(),
            forall|i: int| 0 <= i < idx ==> !cap_matches(our_capabilities@[i], *issuer, params@),
        decreases our_capabilities@.len() - idx,
    {
        let cap = &our_capabilities[idx];
        if cap.issuer == *issuer && capability::params_json_eq(params, cap.params.as_str()) {
            assert(cap_matches(our_capabilities@[idx as int], *issuer, params@));
            return Some(copy_capability(cap));
        }
        idx += 1;
    }
    None
}

/// Exact copies of a capability: the fields of the copy equal the fields of
/// the original, character for character.
fn copy_capability(cap: &Capability) -> (r: Capability)
    ensures
        r == *cap,
{
    Capability {
        issuer: Address {
            node: cap.issuer.node.clone(),
            process: ProcessId {
                process_name: cap.issuer.process.process_name.clone(),
                package_name: cap.issuer.process.package_name.clone(),
                publisher_node: cap.issuer.process.publisher_node.clone(),
            },
        },
        params: cap.params.clone(),
    }
}

/// Plan the grant of this process's own messaging capability to each target:
/// the share operations handed to the runtime, one per target. The runtime
/// guarantees the capability is held when `our` really is this process's own
/// address, so none comes back only on a broken capability invariant, which
/// the caller must treat as fatal rather than skip in silence.
pub fn grant_messaging(
    our: &Address,
    targets: &Vec<ProcessId>,
    our_capabilities: &Vec<Capability>,
) -> (r: Option<Vec<(ProcessId, Capability)>>)
    ensures
        r is Some <==> exists|i: int|
            0 <= i < our_capabilities@.len() && is_messaging_cap(our_capabilities@[i], *our),
        (r matches Some(pairs) ==> pairs@.len() == targets@.len() && forall|i: int|
            0 <= i < targets@.len() ==> (#[trigger] pairs@[i]).0 == targets@[i]
                && is_messaging_cap(pairs@[i].1, *our)),
{
    proof {
        reveal_strlit("\"messaging\"");
    }
    let marker: String = "\"messaging\"".to_owned();
    proof {
        assert(marker@ =~= "\"messaging\""@);
    }
    let n = our_capabilities.len();
    // Sentinel value n means "not found yet".
    let mut found: usize = n;
    let mut idx: usize = 0;
    while idx < n
        invariant
            n == our_capabilities@.len(),
            idx <= n,
            found <= n,
            marker@ == "\"messaging\""@,
            found == n ==> forall|i: int|
                0 <= i < idx ==> !is_messaging_cap(our_capabilities@[i], *our),
            found < n ==> is_messaging_cap(our_capabilities@[found as int], *our),
        decreases n - idx,
    {
        let cap = &our_capabilities[idx];
        if found == n && cap.params == marker && cap.issuer == *our {
            found = idx;
        }
        idx += 1;
    }
    if found == n {
        return None;
    }
    let cap = &our_capabilities[found];
    let mut pairs: Vec<(ProcessId, Capability)> = Vec::new();
    let mut j: usize = 0;
    while j < targets.len()
        invariant
            found < our_capabilities@.len(),
            is_messaging_cap(our_capabilities@[found as int], *our),
            cap == &our_capabilities@[found as int],
            j <= targets@.len(),
            pairs@.len() == j,
            forall|i: int|
                0 <= i < j ==> (#[trigger] pairs@[i]).0 == targets@[i] && is_messaging_cap(
                    pairs@[i].1,
                    *our,
                ),
        decreases targets@.len() - j,
    {
        let target = &targets[j];
        let target_copy = ProcessId {
            process_name: target.process_name.clone(),
            package_name: target.package_name.clone(),
            publisher_node: target.publisher_node.clone(),
        };
        pairs.push((target_copy, copy_capability(cap)));
        j += 1;
    }
    Some(pairs)
}

/// Create a blob with no MIME type from a value and a caller-supplied
/// serializer; a serializer failure is handed back unchanged.
pub fn make_blob<T, F: Fn(&T) -> Result<Vec<u8>, anyhow::Error>>(blob: &T, serializer: F) -> (r:
    Result<LazyLoadBlob, anyhow::Error>)
    requires
        call_requires(serializer, (blob,)),
    ensures
        (r matches Ok(b) ==> b.mime is None && call_ensures(serializer, (blob,), Ok(b.bytes))),
        (r matches Err(e) ==> call_ensures(serializer, (blob,), Err(e))),
{
    match serializer(blob) {
        Ok(bytes) => Ok(LazyLoadBlob { mime: None, bytes }),
        Err(e) => Err(e),
    }
}

/// Decode the attachment of the most recently received message, as the
/// runtime's accessor handed it over, with a caller-supplied decoder.
/// "No attachment" and "the decoder rejected the bytes" both come back as
/// none: the two cases are indistinguishable by design.
pub fn get_typed_blob<T, F: Fn(&[u8]) -> Result<T, anyhow::Error>>(
    blob: Option<LazyLoadBlob>,
    deserializer: F,
) -> (r: Option<T>)
    requires
        forall|bytes: &[u8]| call_requires(deserializer, (bytes,)),
    ensures
        blob is None ==> r is None,
        r is Some ==> blob is Some,
        (blob matches Some(b) ==> (r matches Some(t) ==> exists|
            bytes: &[u8],
            res: Result<T, anyhow::Error>,
        |
            bytes@ == b.bytes@ && call_ensures(deserializer, (bytes,), res) && res == Ok::<
                T,
                anyhow::Error,
            >(t))),
        (blob matches Some(b) ==> (r is None ==> exists|
            bytes: &[u8],
            res: Result<T, anyhow::Error>,
        |
            bytes@ == b.bytes@ && call_ensures(deserializer, (bytes,), res) && res is Err)),
{
    match &blob {
        Some(b) => {
            let bytes = b.bytes.as_slice();
            let res = deserializer(bytes);
            match res {
                Ok(thing) => Some(thing),
                Err(_) => None,
            }
        },
        None => None,
    }
}

/// Decode the persisted state blob of this process, as the runtime's
/// accessor handed it over, with a caller-supplied decoder. As with the
/// attachment, absence and a rejected decode both come back as none.
pub fn get_typed_state<T, F: Fn(&[u8]) -> Result<T, anyhow::Error>>(
    state: Option<Vec<u8>>,
    deserializer: F,
) -> (r: Option<T>)
    requires
        forall|bytes: &[u8]| call_requires(deserializer, (bytes,)),
    ensures
        state is None ==> r is None,
        r is Some ==> state is Some,
        (state matches Some(b) ==> (r matches Some(t) ==> exists|
            bytes: &[u8],
            res: Result<T, anyhow::Error>,
        |
            bytes@ == b@ && call_ensures(deserializer, (bytes,), res) && res == Ok::<
                T,
                anyhow::Error,
            >(t))),
        (state matches Some(b) ==> (r is None ==> exists|
            bytes: &[u8],
            res: Result<T, anyhow::Error>,
        |
            bytes@ == b@ && call_ensures(deserializer, (bytes,), res) && res is Err)),
{
    match state {
        Some(b) => {
            let bytes = b.as_slice();
            let res = deserializer(bytes);
            match res {
                Ok(thing) => Some(thing),
                Err(_) => None,
            }
        },
        None => None,
    }
}

} // verus!
