use vstd::prelude::*;
use crate::address::Address;
use crate::capability::Capability;
use crate::lazy_load_blob::LazyLoadBlob;
use crate::message::RawRequest;

verus! {

/// A snapshot was asked of a builder that is not ready to send.
#[derive(Debug, Clone, Copy, PartialEq, Eq, Structural)]
pub enum BuildError {
    NoTarget,
}

/// Fluent, order-independent builder for an outbound request. A target must
/// be set before the terminal call; everything else is optional. The
/// terminal call consumes the builder: a request is sent at most once.
#[derive(Debug)]
pub struct Request {
    pub target: Option<Address>,
    pub inherit: bool,
    pub timeout: Option<u64>,
    pub body: Option<Vec<u8>>,
    pub metadata: Option<String>,
    pub blob: Option<LazyLoadBlob>,
    pub capabilities: Vec<Capability>,
}

impl Request {
    pub fn new() -> (r: Self)
        ensures
            r.target is None,
            r.inherit == false,
            r.timeout is None,
            r.body is None,
            r.metadata is None,
            r.blob is None,
            r.capabilities@ == Seq::<Capability>::empty(),
    {
        Request {
            target: None,
            inherit: false,
            timeout: None,
            body: None,
            metadata: None,
            blob: None,
            capabilities: Vec::new(),
        }
    }

    /// Set the address the request is delivered to. Required before send.
    pub fn target(self, target: Address) -> (r: Self)
        ensures
            r == (Request { target: Some(target), ..self }),
    {
        Request { target: Some(target), ..self }
    }

    /// Let the target inherit this request's own pending context.
    pub fn inherit(self, inherit: bool) -> (r: Self)
        ensures
            r == (Request { inherit, ..self }),
    {
        Request { inherit, ..self }
    }

    /// Set the inline payload. Optional: an unset body is sent empty.
    pub fn body(self, body: Vec<u8>) -> (r: Self)
        ensures
            r == (Request { body: Some(body), ..self }),
    {
        Request { body: Some(body), ..self }
    }

    /// Attach the optional large payload.
    pub fn blob(self, blob: LazyLoadBlob) -> (r: Self)
        ensures
            r == (Request { blob: Some(blob), ..self }),
    {
        Request { blob: Some(blob), ..self }
    }

    /// Set the free-form metadata side channel; it is never interpreted.
    pub fn metadata(self, metadata: &str) -> (r: Self)
        ensures
            r.metadata matches Some(m) && m@ == metadata@,
            r.target == self.target,
            r.inherit == self.inherit,
            r.timeout == self.timeout,
            r.body == self.body,
            r.blob == self.blob,
            r.capabilities == self.capabilities,
    {
        Request { metadata: Some(metadata.to_owned()), ..self }
    }

    /// Mark the request as wanting a reply within the bound, in seconds.
    /// Absent means fire-and-forget.
    pub fn expects_response(self, timeout_seconds: u64) -> (r: Self)
        ensures
            r == (Request { timeout: Some(timeout_seconds), ..self }),
    {
        Request { timeout: Some(timeout_seconds), ..self }
    }

    /// Attach capabilities to forward to the target with this call.
    pub fn capabilities(self, capabilities: Vec<Capability>) -> (r: Self)
        ensures
            r == (Request { capabilities, ..self }),
    {
        Request { capabilities, ..self }
    }

    /// Whether a snapshot can be taken: a target has been set.
    pub open spec fn sendable(self) -> bool {
        self.target is Some
    }

    /// The immutable snapshot handed to the runtime for delivery: the target
    /// address, the low-level request, and the attachment. Fails exactly
    /// when no target was set; an unset body is sent empty.
    pub fn into_send(self) -> (r: Result<(Address, RawRequest, Option<LazyLoadBlob>), BuildError>)
        ensures
            r is Ok <==> self.sendable(),
            (r matches Ok((target, raw, blob)) ==> {
                &&& self.target == Some(target)
                &&& raw.inherit == self.inherit
                &&& raw.expects_response == self.timeout
                &&& (self.body matches Some(b) ==> raw.body == b)
                &&& (self.body is None ==> raw.body@ == Seq::<u8>::empty())
                &&& raw.metadata == self.metadata
                &&& raw.capabilities == self.capabilities
                &&& blob == self.blob
            }),
            r is Err ==> r == Err::<(Address, RawRequest, Option<LazyLoadBlob>), BuildError>(
                BuildError::NoTarget,
            ),
    {
        match self.target {
            Some(target) => {
                let body = match self.body {
                    Some(b) => b,
                    None => Vec::new(),
                };
                let raw = RawRequest {
                    inherit: self.inherit,
                    expects_response: self.timeout,
                    body,
                    metadata: self.metadata,
                    capabilities: self.capabilities,
                };
                Ok((target, raw, self.blob))
            },
            None => Err(BuildError::NoTarget),
        }
    }
}

} // verus!
