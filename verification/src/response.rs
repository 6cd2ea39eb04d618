use vstd::prelude::*;
use crate::capability::Capability;
use crate::lazy_load_blob::LazyLoadBlob;
use crate::message::RawResponse;

verus! {

/// Fluent, order-independent builder for an outbound response. A response
/// needs no target: the runtime routes it back to the requester, and echoes
/// the requester's own context bytes for correlation.
#[derive(Debug)]
pub struct Response {
    pub inherit: bool,
    pub body: Option<Vec<u8>>,
    pub metadata: Option<String>,
    pub blob: Option<LazyLoadBlob>,
    pub capabilities: Vec<Capability>,
}

impl Response {
    pub fn new() -> (r: Self)
        ensures
            r.inherit == false,
            r.body is None,
            r.metadata is None,
            r.blob is None,
            r.capabilities@ == Seq::<Capability>::empty(),
    {
        Response {
            inherit: false,
            body: None,
            metadata: None,
            blob: None,
            capabilities: Vec::new(),
        }
    }

    /// Pass the attachment of the request being answered through unchanged.
    pub fn inherit(self, inherit: bool) -> (r: Self)
        ensures
            r == (Response { inherit, ..self }),
    {
        Response { inherit, ..self }
    }

    /// Set the inline payload. Optional: an unset body is sent empty.
    pub fn body(self, body: Vec<u8>) -> (r: Self)
        ensures
            r == (Response { body: Some(body), ..self }),
    {
        Response { body: Some(body), ..self }
    }

    /// Attach the optional large payload.
    pub fn blob(self, blob: LazyLoadBlob) -> (r: Self)
        ensures
            r == (Response { blob: Some(blob), ..self }),
    {
        Response { blob: Some(blob), ..self }
    }

    /// Set the free-form metadata side channel; it is never interpreted.
    pub fn metadata(self, metadata: &str) -> (r: Self)
        ensures
            r.metadata matches Some(m) && m@ == metadata@,
            r.inherit == self.inherit,
            r.body == self.body,
            r.blob == self.blob,
            r.capabilities == self.capabilities,
    {
        Response { metadata: Some(metadata.to_owned()), ..self }
    }

    /// Attach capabilities to forward to the requester.
    pub fn capabilities(self, capabilities: Vec<Capability>) -> (r: Self)
        ensures
            r == (Response { capabilities, ..self }),
    {
        Response { capabilities, ..self }
    }

    /// The immutable snapshot handed to the runtime for delivery: the
    /// low-level response and the attachment. An unset body is sent empty.
    pub fn into_send(self) -> (r: (RawResponse, Option<LazyLoadBlob>))
        ensures
            r.0.inherit == self.inherit,
            (self.body matches Some(b) ==> r.0.body == b),
            (self.body is None ==> r.0.body@ == Seq::<u8>::empty()),
            r.0.metadata == self.metadata,
            r.0.capabilities == self.capabilities,
            r.1 == self.blob,
    {
        let body = match self.body {
            Some(b) => b,
            None => Vec::new(),
        };
        let raw = RawResponse {
            inherit: self.inherit,
            body,
            metadata: self.metadata,
            capabilities: self.capabilities,
        };
        (raw, self.blob)
    }
}

} // verus!
