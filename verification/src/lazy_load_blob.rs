use vstd::prelude::*;

verus! {

/// An optional large binary payload associated with a message, fetched with
/// a separate accessor after the message is matched, so that a process that
/// does not need it avoids the cost. Distinct from the inline body.
#[derive(Debug, Clone)]
pub struct LazyLoadBlob {
    pub mime: Option<String>,
    pub bytes: Vec<u8>,
}

impl LazyLoadBlob {
    pub fn new(mime: Option<String>, bytes: Vec<u8>) -> (r: Self)
        ensures
            r.mime == mime,
            r.bytes == bytes,
    {
        LazyLoadBlob { mime, bytes }
    }
}

} // verus!
