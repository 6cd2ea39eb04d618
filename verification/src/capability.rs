use vstd::prelude::*;
use crate::address::Address;

verus! {

/// What the outside JSON comparison returns: whether two strings, each read
/// as a JSON document (one that does not parse counting as the JSON null
/// value), denote the same JSON value. Key order in an object does not
/// matter, so this is coarser than equality of the strings themselves.
pub uninterp spec fn json_eq(a: Seq<char>, b: Seq<char>) -> bool;

/// Relies on serde_json::from_str and the PartialEq impl of
/// serde_json::Value: each string is parsed (falling back to
/// serde_json::Value::default, the JSON null, when it does not parse) and the
/// two parsed values are compared. Parsing and the comparison depend on the
/// two strings alone.
#[verifier::external_body]
pub(crate) fn params_json_eq(a: &str, b: &str) -> (r: bool)
    ensures
        r == json_eq(a@, b@),
{
    let a_value = serde_json::from_str::<serde_json::Value>(a).unwrap_or_default();
    let b_value = serde_json::from_str::<serde_json::Value>(b).unwrap_or_default();
    a_value == b_value
}

/// An unforgeable token asserting that its holder may message `issuer` for
/// the purpose described by `params`. The parameter blob is an opaque,
/// caller-defined serialized value: this layer never interprets it, it only
/// compares it, and the comparison is by parsed JSON value, not by bytes.
#[derive(Debug, Clone)]
pub struct Capability {
    pub issuer: Address,
    pub params: String,
}

impl Capability {
    /// What `==` means on this type: issuers structurally equal, parameter
    /// blobs equal as parsed JSON values.
    pub open spec fn eq_spec_caps(self, other: Self) -> bool {
        self.issuer.eq_spec_fields(other.issuer) && json_eq(self.params@, other.params@)
    }

    pub fn new(issuer: Address, params: &str) -> (r: Self)
        ensures
            r.issuer == issuer,
            r.params@ == params@,
    {
        Capability { issuer, params: params.to_owned() }
    }
}

impl PartialEq for Capability {
    fn eq(&self, other: &Self) -> (r: bool) {
        self.issuer == other.issuer && params_json_eq(self.params.as_str(), other.params.as_str())
    }
}

impl vstd::std_specs::cmp::PartialEqSpecImpl for Capability {
    open spec fn obeys_eq_spec() -> bool {
        true
    }

    open spec fn eq_spec(&self, other: &Self) -> bool {
        self.eq_spec_caps(*other)
    }
}

} // verus!
