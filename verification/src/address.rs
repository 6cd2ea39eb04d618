use vstd::prelude::*;
use crate::process_id::{
    ProcessId, ProcessIdParseError, fewer_than_two_colons, more_than_two_colons,
    exactly_two_colons, valid_pid_text,
};

verus! {

/// Why a string failed to parse as an address.
#[derive(Debug, Clone, Copy, PartialEq, Eq, Structural)]
pub enum AddressParseError {
    TooManySegments,
    TooFewSegments,
    EmptySegment,
}

/// No `@` occurs in `s` at an index in `[lo, hi)`.
pub open spec fn no_at_sign(s: Seq<char>, lo: int, hi: int) -> bool {
    forall|k: int| lo <= k < hi ==> s[k] != '@'
}

/// The first `@` of `s` stands at index `a`.
pub open spec fn first_at_sign(s: Seq<char>, a: int) -> bool {
    0 <= a < s.len() && s[a] == '@' && no_at_sign(s, 0, a)
}

/// A non-empty node name, free of the `@` separator.
pub open spec fn is_node(s: Seq<char>) -> bool {
    s.len() > 0 && forall|i: int| 0 <= i < s.len() ==> s[i] != '@'
}

/// Text in the canonical address form: a non-empty node name, `@`, then a
/// process identifier in canonical form.
pub open spec fn valid_address_text(s: Seq<char>) -> bool {
    exists|a: int| first_at_sign(s, a) && 0 < a && valid_pid_text(s.subrange(a + 1, s.len() as int))
}

/// A process on a node. The node name `"our"` is a reserved sentinel for the
/// local node, resolved by the runtime at send time. Canonical text form
/// `node@process:package:publisher`.
#[derive(Debug, Clone, Hash)]
pub struct Address {
    pub node: String,
    pub process: ProcessId,
}

impl Address {
    /// The node name is non-empty and free of `@`, and the process
    /// identifier itself is well-formed, so the address has a canonical text
    /// form that parses back.
    pub open spec fn well_formed(self) -> bool {
        is_node(self.node@) && self.process.well_formed()
    }

    /// The canonical text of this address.
    pub open spec fn text(self) -> Seq<char> {
        self.node@ + seq!['@'] + self.process.text()
    }

    /// Field views are pairwise equal: what `==` means on this type.
    pub open spec fn eq_spec_fields(self, other: Self) -> bool {
        self.node@ == other.node@ && self.process.eq_spec_fields(other.process)
    }

    pub fn new(node: &str, process: ProcessId) -> (r: Self)
        ensures
            r.node@ == node@,
            r.process == process,
    {
        Address { node: node.to_owned(), process }
    }

    /// The canonical `node@process:package:publisher` encoding.
    pub fn to_string(&self) -> (r: String)
        ensures
            r@ == self.text(),
    {
        proof {
            reveal_strlit("@");
        }
        let mut out = String::new();
        out.append(self.node.as_str());
        out.append("@");
        let process_text = self.process.to_string();
        out.append(process_text.as_str());
        proof {
            assert(out@ =~= self.text());
        }
        out
    }

    /// Strict parser for the canonical form: the node name runs to the first
    /// `@`, the rest must be a canonical process identifier. Never panics.
    pub fn parse(s: &str) -> (r: Result<Address, AddressParseError>)
        ensures
            r is Ok <==> valid_address_text(s@),
            (r matches Ok(ad) ==> ad.well_formed() && ad.text() == s@),
            no_at_sign(s@, 0, s@.len() as int) ==> r == Err::<Address, _>(
                AddressParseError::TooFewSegments,
            ),
            first_at_sign(s@, 0) ==> r == Err::<Address, _>(AddressParseError::EmptySegment),
            forall|a: int|
                first_at_sign(s@, a) && 0 < a ==> {
                    let rest = s@.subrange(a + 1, s@.len() as int);
                    &&& ((r matches Err(e) && e == AddressParseError::TooFewSegments)
                        <==> fewer_than_two_colons(rest))
                    &&& ((r matches Err(e) && e == AddressParseError::TooManySegments)
                        <==> more_than_two_colons(rest))
                    &&& ((r matches Err(e) && e == AddressParseError::EmptySegment)
                        <==> (exactly_two_colons(rest) && !valid_pid_text(rest)))
                },
    {
        let n = s.unicode_len();
        // Sentinel value n means "not found yet".
        let mut a: usize = n;
        let mut idx: usize = 0;
        while idx < n
            invariant
                n == s@.len(),
                idx <= n,
                a <= n,
                a == n ==> no_at_sign(s@, 0, idx as int),
                a < n ==> a < idx && s@[a as int] == '@' && no_at_sign(s@, 0, a as int),
            decreases n - idx,
        {
            if s.get_char(idx) == '@' {
                if a == n {
                    a = idx;
                }
            }
            idx += 1;
        }
        if a == n {
            // No separator: the node name cannot be told from the process.
            assert(!valid_address_text(s@)) by {
                if valid_address_text(s@) {
                    let w = choose|w: int|
                        first_at_sign(s@, w) && 0 < w && valid_pid_text(
                            s@.subrange(w + 1, s@.len() as int),
                        );
                }
            }
            return Err(AddressParseError::TooFewSegments);
        }
        assert(first_at_sign(s@, a as int));
        assert forall|w: int| first_at_sign(s@, w) implies w == a as int by {
            if w < a as int {
                assert(s@[w] != '@');
            }
            if (a as int) < w {
                assert(s@[a as int] != '@');
            }
        }
        if a == 0 {
            // The node name is empty.
            assert(!valid_address_text(s@)) by {
                if valid_address_text(s@) {
                    let w = choose|w: int|
                        first_at_sign(s@, w) && 0 < w && valid_pid_text(
                            s@.subrange(w + 1, s@.len() as int),
                        );
                }
            }
            return Err(AddressParseError::EmptySegment);
        }
        let node = s.substring_char(0, a).to_owned();
        let rest = s.substring_char(a + 1, n);
        let ghost rest_view = s@.subrange(a as int + 1, s@.len() as int);
        match ProcessId::parse(rest) {
            Ok(process) => {
                let ad = Address { node, process };
                proof {
                    assert(ad.text() =~= s@);
                    assert(valid_address_text(s@)) by {
                        assert(first_at_sign(s@, a as int) && 0 < a as int && valid_pid_text(
                            rest_view,
                        ));
                    }
                }
                Ok(ad)
            },
            Err(e) => {
                proof {
                    assert(!valid_address_text(s@)) by {
                        if valid_address_text(s@) {
                            let w = choose|w: int|
                                first_at_sign(s@, w) && 0 < w && valid_pid_text(
                                    s@.subrange(w + 1, s@.len() as int),
                                );
                            assert(w == a as int);
                        }
                    }
                }
                match e {
                    ProcessIdParseError::TooFewSegments => Err(AddressParseError::TooFewSegments),
                    ProcessIdParseError::TooManySegments => Err(AddressParseError::TooManySegments),
                    ProcessIdParseError::EmptySegment => Err(AddressParseError::EmptySegment),
                }
            },
        }
    }
}

impl PartialEq for Address {
    fn eq(&self, other: &Self) -> (r: bool) {
        self.node == other.node && self.process == other.process
    }
}

impl vstd::std_specs::cmp::PartialEqSpecImpl for Address {
    open spec fn obeys_eq_spec() -> bool {
        true
    }

    open spec fn eq_spec(&self, other: &Self) -> bool {
        self.eq_spec_fields(*other)
    }
}

/// The canonical text of a well-formed address parses.
pub proof fn lemma_address_text_valid(ad: Address)
    requires
        ad.well_formed(),
    ensures
        valid_address_text(ad.text()),
{
    let t = ad.text();
    let a = ad.node@.len() as int;
    assert(t[a] == '@');
    assert(first_at_sign(t, a));
    crate::process_id::lemma_process_id_text_valid(ad.process);
    assert(t.subrange(a + 1, t.len() as int) =~= ad.process.text());
}

/// Canonical texts tell well-formed addresses apart: the round trip
/// `parse(to_string(ad)) == Ok(ad)` follows with the parser's contract.
pub proof fn lemma_address_text_injective(ad: Address, other: Address)
    requires
        ad.well_formed(),
        other.well_formed(),
        ad.text() == other.text(),
    ensures
        ad.eq_spec_fields(other),
{
    let t = ad.text();
    let ap = ad.node@.len() as int;
    let aq = other.node@.len() as int;
    assert(t[ap] == '@');
    assert(other.text()[aq] == '@');
    if ap < aq {
        assert(other.text()[ap] == other.node@[ap]);
        assert(false);
    }
    if aq < ap {
        assert(t[aq] == ad.node@[aq]);
        assert(false);
    }
    assert forall|k: int| 0 <= k < ap implies ad.node@[k] == other.node@[k] by {
        assert(ad.text()[k] == ad.node@[k]);
        assert(other.text()[k] == other.node@[k]);
    }
    assert(ad.node@ =~= other.node@);
    assert(t.subrange(ap + 1, t.len() as int) =~= ad.process.text());
    assert(t.subrange(aq + 1, t.len() as int) =~= other.process.text());
    crate::process_id::lemma_process_id_text_injective(ad.process, other.process);
}

} // verus!
