use vstd::prelude::*;
use crate::process_id::{
    ProcessIdParseError, is_segment, no_colon, colon_at, fewer_than_two_colons,
};

verus! {

/// `s` holds exactly one colon, at `i`.
pub open spec fn colon_only_at(s: Seq<char>, i: int) -> bool {
    &&& 0 <= i < s.len()
    &&& s[i] == ':'
    &&& no_colon(s, 0, i)
    &&& no_colon(s, i + 1, s.len() as int)
}

/// `s` holds no colon at all.
pub open spec fn zero_colons(s: Seq<char>) -> bool {
    no_colon(s, 0, s.len() as int)
}

/// `s` holds at least two colons.
pub open spec fn two_or_more_colons(s: Seq<char>) -> bool {
    exists|i: int, j: int| i < j && colon_at(s, i) && colon_at(s, j)
}

/// Text in the canonical package-identifier form: one colon between two
/// non-empty segments.
pub open spec fn valid_package_text(s: Seq<char>) -> bool {
    exists|i: int| colon_only_at(s, i) && 0 < i && i + 1 < s.len()
}

/// Identifies one package: its name and the node that published it.
/// Canonical text form `package:publisher`.
#[derive(Debug, Clone, Hash)]
pub struct PackageId {
    pub package_name: String,
    pub publisher_node: String,
}

impl PackageId {
    /// Both segments are non-empty and free of the separator.
    pub open spec fn well_formed(self) -> bool {
        is_segment(self.package_name@) && is_segment(self.publisher_node@)
    }

    /// The canonical text of this identifier.
    pub open spec fn text(self) -> Seq<char> {
        self.package_name@ + seq![':'] + self.publisher_node@
    }

    /// Field views are pairwise equal: what `==` means on this type.
    pub open spec fn eq_spec_fields(self, other: Self) -> bool {
        self.package_name@ == other.package_name@
            && self.publisher_node@ == other.publisher_node@
    }

    pub fn new(package_name: &str, publisher_node: &str) -> (r: Self)
        ensures
            r.package_name@ == package_name@,
            r.publisher_node@ == publisher_node@,
    {
        PackageId {
            package_name: package_name.to_owned(),
            publisher_node: publisher_node.to_owned(),
        }
    }

    /// The canonical `package:publisher` encoding.
    pub fn to_string(&self) -> (r: String)
        ensures
            r@ == self.text(),
    {
        proof {
            reveal_strlit(":");
        }
        let mut out = String::new();
        out.append(self.package_name.as_str());
        out.append(":");
        out.append(self.publisher_node.as_str());
        proof {
            assert(out@ =~= self.text());
        }
        out
    }

    /// Strict parser for the canonical form. Never panics: malformed input
    /// comes back as a segment-count or empty-segment error.
    pub fn parse(s: &str) -> (r: Result<PackageId, ProcessIdParseError>)
        ensures
            r is Ok <==> valid_package_text(s@),
            (r matches Ok(p) ==> p.well_formed() && p.text() == s@),
            (r matches Err(e) && e == ProcessIdParseError::TooFewSegments) <==> zero_colons(s@),
            (r matches Err(e) && e == ProcessIdParseError::TooManySegments) <==> two_or_more_colons(s@),
            (r matches Err(e) && e == ProcessIdParseError::EmptySegment) <==> (
                exists|i: int| colon_only_at(s@, i) && !valid_package_text(s@)),
    {
        let n = s.unicode_len();
        // Sentinel value n means "not found yet".
        let mut c1: usize = n;
        let mut c2: usize = n;
        let mut idx: usize = 0;
        while idx < n
            invariant
                n == s@.len(),
                idx <= n,
                c1 <= n,
                c2 <= n,
                c1 == n ==> c2 == n,
                c1 == n ==> no_colon(s@, 0, idx as int),
                c1 < n ==> c1 < idx && s@[c1 as int] == ':' && no_colon(s@, 0, c1 as int),
                c1 < n && c2 == n ==> no_colon(s@, c1 + 1, idx as int),
                c2 < n ==> c1 < c2 && c2 < idx && s@[c2 as int] == ':',
            decreases n - idx,
        {
            if s.get_char(idx) == ':' {
                if c1 == n {
                    c1 = idx;
                } else if c2 == n {
                    c2 = idx;
                }
            }
            idx += 1;
        }
        if c1 == n {
            // No colon at all.
            assert(!valid_package_text(s@)) by {
                if valid_package_text(s@) {
                    let i = choose|i: int| colon_only_at(s@, i) && 0 < i && i + 1 < s@.len();
                    assert(colon_at(s@, i));
                }
            }
            assert(!two_or_more_colons(s@)) by {
                if two_or_more_colons(s@) {
                    let (i, j) = choose|i: int, j: int| i < j && colon_at(s@, i) && colon_at(s@, j);
                }
            }
            assert(forall|i: int| !colon_only_at(s@, i));
            return Err(ProcessIdParseError::TooFewSegments);
        }
        if c2 < n {
            // A second colon stands after the first.
            assert(two_or_more_colons(s@)) by {
                assert(colon_at(s@, c1 as int) && colon_at(s@, c2 as int));
            }
            assert(forall|i: int| !colon_only_at(s@, i)) by {
                assert forall|i: int| !colon_only_at(s@, i) by {
                    if colon_only_at(s@, i) {
                        assert(colon_at(s@, c1 as int) && colon_at(s@, c2 as int));
                    }
                }
            }
            assert(!valid_package_text(s@));
            return Err(ProcessIdParseError::TooManySegments);
        }
        // Exactly one colon, at c1.
        assert(colon_only_at(s@, c1 as int));
        assert(!zero_colons(s@)) by {
            assert(colon_at(s@, c1 as int));
        }
        assert(!two_or_more_colons(s@)) by {
            if two_or_more_colons(s@) {
                let (i, j) = choose|i: int, j: int| i < j && colon_at(s@, i) && colon_at(s@, j);
            }
        }
        if c1 == 0 || c1 + 1 == n {
            // A segment is empty.
            assert(!valid_package_text(s@)) by {
                if valid_package_text(s@) {
                    let i = choose|i: int| colon_only_at(s@, i) && 0 < i && i + 1 < s@.len();
                    assert(colon_at(s@, i));
                    assert(i == c1 as int);
                }
            }
            return Err(ProcessIdParseError::EmptySegment);
        }
        let package_name = s.substring_char(0, c1).to_owned();
        let publisher_node = s.substring_char(c1 + 1, n).to_owned();
        let p = PackageId { package_name, publisher_node };
        proof {
            assert(p.text() =~= s@);
            assert(valid_package_text(s@)) by {
                assert(colon_only_at(s@, c1 as int) && 0 < c1 as int && c1 as int + 1 < s@.len());
            }
        }
        Ok(p)
    }
}

impl PartialEq for PackageId {
    fn eq(&self, other: &Self) -> (r: bool) {
        self.package_name == other.package_name && self.publisher_node == other.publisher_node
    }
}

impl vstd::std_specs::cmp::PartialEqSpecImpl for PackageId {
    open spec fn obeys_eq_spec() -> bool {
        true
    }

    open spec fn eq_spec(&self, other: &Self) -> bool {
        self.eq_spec_fields(*other)
    }
}

/// The canonical text of a well-formed package identifier parses.
pub proof fn lemma_package_id_text_valid(p: PackageId)
    requires
        p.well_formed(),
    ensures
        valid_package_text(p.text()),
{
    let t = p.text();
    let i = p.package_name@.len() as int;
    assert(t[i] == ':');
    assert(colon_only_at(t, i) && 0 < i && i + 1 < t.len());
}

/// Canonical texts tell well-formed package identifiers apart: the round
/// trip `parse(to_string(p)) == Ok(p)` follows with the parser's contract.
pub proof fn lemma_package_id_text_injective(p: PackageId, q: PackageId)
    requires
        p.well_formed(),
        q.well_formed(),
        p.text() == q.text(),
    ensures
        p.eq_spec_fields(q),
{
    let t = p.text();
    let ip = p.package_name@.len() as int;
    let iq = q.package_name@.len() as int;
    assert(t[ip] == ':');
    assert(q.text()[iq] == ':');
    if ip < iq {
        assert(q.text()[ip] == q.package_name@[ip]);
        assert(false);
    }
    if iq < ip {
        assert(t[iq] == p.package_name@[iq]);
        assert(false);
    }
    assert forall|k: int| 0 <= k < ip implies p.package_name@[k] == q.package_name@[k] by {
        assert(p.text()[k] == p.package_name@[k]);
        assert(q.text()[k] == q.package_name@[k]);
    }
    assert(p.package_name@ =~= q.package_name@);
    assert(p.text().len() == ip + 1 + p.publisher_node@.len());
    assert(q.text().len() == iq + 1 + q.publisher_node@.len());
    assert forall|k: int| 0 <= k < p.publisher_node@.len() implies p.publisher_node@[k]
        == q.publisher_node@[k] by {
        assert(p.text()[ip + 1 + k] == p.publisher_node@[k]);
        assert(q.text()[iq + 1 + k] == q.publisher_node@[k]);
    }
    assert(p.publisher_node@ =~= q.publisher_node@);
}

} // verus!
