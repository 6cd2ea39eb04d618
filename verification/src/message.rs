use vstd::prelude::*;
use crate::address::Address;
use crate::capability::Capability;
use crate::lazy_load_blob::LazyLoadBlob;

verus! {

/// The runtime's low-level request representation, as handed over or taken
/// in at the kernel boundary.
#[derive(Debug)]
pub struct RawRequest {
    pub inherit: bool,
    pub expects_response: Option<u64>,
    pub body: Vec<u8>,
    pub metadata: Option<String>,
    pub capabilities: Vec<Capability>,
}

/// The runtime's low-level response representation.
#[derive(Debug)]
pub struct RawResponse {
    pub inherit: bool,
    pub body: Vec<u8>,
    pub metadata: Option<String>,
    pub capabilities: Vec<Capability>,
}

/// The runtime's low-level message union. A response travels together with
/// the opaque context bytes the original requester attached, if any.
#[derive(Debug)]
pub enum RawMessage {
    Request(RawRequest),
    Response(RawResponse, Option<Vec<u8>>),
}

/// Why a prior send could not be delivered.
#[derive(Debug, Clone, Copy, PartialEq, Eq, Structural)]
pub enum RawSendErrorKind {
    Offline,
    Timeout,
}

/// The runtime's low-level record of a failed send: the kind of failure and
/// the echoed outbound message with its attachment.
#[derive(Debug)]
pub struct RawSendError {
    pub kind: RawSendErrorKind,
    pub message: RawMessage,
    pub lazy_load_blob: Option<LazyLoadBlob>,
}

/// Why a prior send could not be delivered, in this library's terms.
#[derive(Debug, Clone, Copy, PartialEq, Eq, Structural)]
pub enum SendErrorKind {
    Offline,
    Timeout,
}

impl SendErrorKind {
    pub fn is_offline(&self) -> (r: bool)
        ensures
            r == (*self == SendErrorKind::Offline),
    {
        match self {
            SendErrorKind::Offline => true,
            SendErrorKind::Timeout => false,
        }
    }

    pub fn is_timeout(&self) -> (r: bool)
        ensures
            r == (*self == SendErrorKind::Timeout),
    {
        match self {
            SendErrorKind::Offline => false,
            SendErrorKind::Timeout => true,
        }
    }
}

/// An inbound message as the receiving process consumes it: the low-level
/// union with its source address resolved.
#[derive(Debug)]
pub enum Message {
    Request {
        source: Address,
        expects_response: Option<u64>,
        body: Vec<u8>,
        metadata: Option<String>,
        capabilities: Vec<Capability>,
    },
    Response {
        source: Address,
        body: Vec<u8>,
        metadata: Option<String>,
        context: Option<Vec<u8>>,
        capabilities: Vec<Capability>,
    },
}

/// A send that could not be delivered: the kind of failure, the original
/// outbound message rebuilt under a synthetic source, its attachment, and
/// the context of the originating request.
#[derive(Debug)]
pub struct SendError {
    pub kind: SendErrorKind,
    pub message: Message,
    pub lazy_load_blob: Option<LazyLoadBlob>,
    pub context: Option<Vec<u8>>,
}

/// The message that a low-level message from `source` converts to.
pub open spec fn message_of(source: Address, m: RawMessage) -> Message {
    match m {
        RawMessage::Request(req) => Message::Request {
            source,
            expects_response: req.expects_response,
            body: req.body,
            metadata: req.metadata,
            capabilities: req.capabilities,
        },
        RawMessage::Response(resp, context) => Message::Response {
            source,
            body: resp.body,
            metadata: resp.metadata,
            context,
            capabilities: resp.capabilities,
        },
    }
}

/// The send-error kind that a low-level kind converts to: a one-to-one map.
pub open spec fn kind_of(k: RawSendErrorKind) -> SendErrorKind {
    match k {
        RawSendErrorKind::Offline => SendErrorKind::Offline,
        RawSendErrorKind::Timeout => SendErrorKind::Timeout,
    }
}

/// The reserved address a network-level failure is reported under: the
/// system networking process on the local node. A failed send has no real
/// remote sender, so the echoed message is rebuilt under this source.
pub open spec fn is_net_address(a: Address) -> bool {
    &&& a.node@ == "our"@
    &&& a.process.process_name@ == "net"@
    &&& a.process.package_name@ == "distro"@
    &&& a.process.publisher_node@ == "sys"@
}

/// The address of the system networking process on the local node.
pub fn net_address() -> (r: Address)
    ensures
        is_net_address(r),
{
    Address::new("our", crate::process_id::ProcessId::new("net", "distro", "sys"))
}

/// Convert a low-level message from `source` into the public union.
pub fn raw_message_to_message(source: Address, m: RawMessage) -> (r: Message)
    ensures
        r == message_of(source, m),
{
    match m {
        RawMessage::Request(req) => Message::Request {
            source,
            expects_response: req.expects_response,
            body: req.body,
            metadata: req.metadata,
            capabilities: req.capabilities,
        },
        RawMessage::Response(resp, context) => Message::Response {
            source,
            body: resp.body,
            metadata: resp.metadata,
            context,
            capabilities: resp.capabilities,
        },
    }
}

impl Message {
    /// The inline body bytes the message carries.
    pub open spec fn body_bytes(self) -> Seq<u8> {
        match self {
            Message::Request { body, .. } => body@,
            Message::Response { body, .. } => body@,
        }
    }

    /// The address the message came from.
    pub open spec fn source_spec(self) -> Address {
        match self {
            Message::Request { source, .. } => source,
            Message::Response { source, .. } => source,
        }
    }

    /// The metadata the message carries.
    pub open spec fn metadata_spec(self) -> Option<String> {
        match self {
            Message::Request { metadata, .. } => metadata,
            Message::Response { metadata, .. } => metadata,
        }
    }

    /// The capabilities the message carries.
    pub open spec fn capabilities_spec(self) -> Seq<Capability> {
        match self {
            Message::Request { capabilities, .. } => capabilities@,
            Message::Response { capabilities, .. } => capabilities@,
        }
    }

    /// The correlation context: set only on a response.
    pub open spec fn context_spec(self) -> Option<Vec<u8>> {
        match self {
            Message::Request { .. } => None,
            Message::Response { context, .. } => context,
        }
    }

    /// The response timeout: set only on a request that expects a reply.
    pub open spec fn expects_response_spec(self) -> Option<u64> {
        match self {
            Message::Request { expects_response, .. } => expects_response,
            Message::Response { .. } => None,
        }
    }

    pub fn is_request(&self) -> (r: bool)
        ensures
            r == (self is Request),
    {
        match self {
            Message::Request { .. } => true,
            Message::Response { .. } => false,
        }
    }

    pub fn body(&self) -> (r: &[u8])
        ensures
            r@ == self.body_bytes(),
    {
        match self {
            Message::Request { body, .. } => body.as_slice(),
            Message::Response { body, .. } => body.as_slice(),
        }
    }

    pub fn source(&self) -> (r: &Address)
        ensures
            *r == self.source_spec(),
    {
        match self {
            Message::Request { source, .. } => source,
            Message::Response { source, .. } => source,
        }
    }

    pub fn metadata(&self) -> (r: &Option<String>)
        ensures
            *r == self.metadata_spec(),
    {
        match self {
            Message::Request { metadata, .. } => metadata,
            Message::Response { metadata, .. } => metadata,
        }
    }

    pub fn capabilities(&self) -> (r: &Vec<Capability>)
        ensures
            r@ == self.capabilities_spec(),
    {
        match self {
            Message::Request { capabilities, .. } => capabilities,
            Message::Response { capabilities, .. } => capabilities,
        }
    }

    pub fn context(&self) -> (r: Option<&Vec<u8>>)
        ensures
            r is Some <==> self.context_spec() is Some,
            (r matches Some(c) ==> self.context_spec() == Some(*c)),
    {
        match self {
            Message::Request { .. } => None,
            Message::Response { context, .. } => match context {
                Some(c) => Some(c),
                None => None,
            },
        }
    }

    pub fn expects_response(&self) -> (r: Option<u64>)
        ensures
            r == self.expects_response_spec(),
    {
        match self {
            Message::Request { expects_response, .. } => *expects_response,
            Message::Response { .. } => None,
        }
    }
}

} // verus!
