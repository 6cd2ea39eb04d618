use vstd::prelude::*;
use crate::address::Address;
use crate::lazy_load_blob::LazyLoadBlob;
use crate::message::RawRequest;
use crate::request::{BuildError, Request};

verus! {

/// What the runtime does when the process exits: nothing beyond the exit,
/// a restart, or a parting volley of requests.
#[derive(Debug)]
pub enum OnExit {
    Quit,
    Restart,
    Requests(Vec<Request>),
}

/// The exit policy in the runtime's low-level form: every parting request
/// snapshotted with its target and attachment.
#[derive(Debug)]
pub enum RawOnExit {
    Quit,
    Restart,
    Requests(Vec<(Address, RawRequest, Option<LazyLoadBlob>)>),
}

/// A snapshot entry is what `Request::into_send` yields for the builder:
/// same target, same fields, an unset body sent empty.
pub open spec fn entry_of_request(req: Request, entry: (Address, RawRequest, Option<LazyLoadBlob>)) -> bool {
    &&& req.target == Some(entry.0)
    &&& entry.1.inherit == req.inherit
    &&& entry.1.expects_response == req.timeout
    &&& (req.body matches Some(b) ==> entry.1.body == b)
    &&& (req.body is None ==> entry.1.body@ == Seq::<u8>::empty())
    &&& entry.1.metadata == req.metadata
    &&& entry.1.capabilities == req.capabilities
    &&& entry.2 == req.blob
}

impl OnExit {
    /// Every parting request has a target, so the policy can be snapshotted.
    pub open spec fn all_sendable(self) -> bool {
        match self {
            OnExit::Requests(reqs) => forall|i: int|
                0 <= i < reqs@.len() ==> (#[trigger] reqs@[i]).sendable(),
            _ => true,
        }
    }

    /// The low-level policy `raw` is this policy's faithful snapshot.
    pub open spec fn corresponds(self, raw: RawOnExit) -> bool {
        match self {
            OnExit::Quit => raw is Quit,
            OnExit::Restart => raw is Restart,
            OnExit::Requests(reqs) => raw matches RawOnExit::Requests(entries)
                && entries@.len() == reqs@.len() && forall|i: int|
                0 <= i < reqs@.len() ==> entry_of_request(reqs@[i], #[trigger] entries@[i]),
        }
    }

    /// Snapshot the policy for the runtime. Fails exactly when a parting
    /// request has no target.
    pub fn into_raw(self) -> (r: Result<RawOnExit, BuildError>)
        ensures
            r is Ok <==> self.all_sendable(),
            (r matches Ok(raw) ==> self.corresponds(raw)),
            r is Err ==> r == Err::<RawOnExit, BuildError>(BuildError::NoTarget),
    {
        match self {
            OnExit::Quit => Ok(RawOnExit::Quit),
            OnExit::Restart => Ok(RawOnExit::Restart),
            OnExit::Requests(reqs) => {
                let ghost orig = reqs@;
                let mut reqs = reqs;
                let mut entries: Vec<(Address, RawRequest, Option<LazyLoadBlob>)> = Vec::new();
                while reqs.len() > 0
                    invariant
                        self matches OnExit::Requests(v) && v@ == orig,
                        entries@.len() + reqs@.len() == orig.len(),
                        reqs@ == orig.subrange(entries@.len() as int, orig.len() as int),
                        forall|i: int|
                            0 <= i < entries@.len() ==> entry_of_request(
                                orig[i],
                                #[trigger] entries@[i],
                            ),
                        forall|i: int| 0 <= i < entries@.len() ==> (#[trigger] orig[i]).sendable(),
                    decreases reqs@.len(),
                {
                    let ghost done = entries@.len() as int;
                    let req = reqs.remove(0);
                    proof {
                        assert(req == orig[done]);
                        assert(reqs@ =~= orig.subrange(done + 1, orig.len() as int));
                    }
                    match req.into_send() {
                        Ok(entry) => entries.push(entry),
                        Err(_) => {
                            proof {
                                assert(!orig[done].sendable());
                            }
                            return Err(BuildError::NoTarget);
                        },
                    }
                }
                Ok(RawOnExit::Requests(entries))
            },
        }
    }
}

} // verus!
