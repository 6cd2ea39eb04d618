use vstd::prelude::*;

verus! {

/// Why a string failed to parse as a process or package identifier.
#[derive(Debug, Clone, Copy, PartialEq, Eq, Structural)]
pub enum ProcessIdParseError {
    TooManySegments,
    TooFewSegments,
    EmptySegment,
}

/// A non-empty run of characters free of the `:` separator: the form every
/// segment of an identifier must have.
pub open spec fn is_segment(s: Seq<char>) -> bool {
    s.len() > 0 && forall|i: int| 0 <= i < s.len() ==> s[i] != ':'
}

/// No `:` occurs in `s` at an index in `[lo, hi)`.
pub open spec fn no_colon(s: Seq<char>, lo: int, hi: int) -> bool {
    forall|k: int| lo <= k < hi ==> s[k] != ':'
}

/// A `:` stands at index `i` of `s`.
pub open spec fn colon_at(s: Seq<char>, i: int) -> bool {
    0 <= i < s.len() && s[i] == ':'
}

/// The colons of `s` are exactly the ones at `i` and `j`.
pub open spec fn colons_exactly_at(s: Seq<char>, i: int, j: int) -> bool {
    &&& 0 <= i < j < s.len()
    &&& s[i] == ':'
    &&& s[j] == ':'
    &&& no_colon(s, 0, i)
    &&& no_colon(s, i + 1, j)
    &&& no_colon(s, j + 1, s.len() as int)
}

/// `s` holds zero colons or one.
pub open spec fn fewer_than_two_colons(s: Seq<char>) -> bool {
    forall|i: int, j: int| colon_at(s, i) && colon_at(s, j) ==> i == j
}

/// `s` holds at least three colons.
pub open spec fn more_than_two_colons(s: Seq<char>) -> bool {
    exists|i: int, j: int, k: int| i < j && j < k && colon_at(s, i) && colon_at(s, j) && colon_at(s, k)
}

/// `s` holds exactly two colons.
pub open spec fn exactly_two_colons(s: Seq<char>) -> bool {
    exists|i: int, j: int| colons_exactly_at(s, i, j)
}

/// Text in the canonical process-identifier form: exactly two colons, and
/// all three segments between them non-empty.
pub open spec fn valid_pid_text(s: Seq<char>) -> bool {
    exists|i: int, j: int|
        colons_exactly_at(s, i, j) && 0 < i && i + 1 < j && j + 1 < s.len()
}

/// Identifies one process: a process name within a package, a package name,
/// and the node that published the package. Canonical text form
/// `process:package:publisher`.
#[derive(Debug, Clone, Hash)]
pub struct ProcessId {
    pub process_name: String,
    pub package_name: String,
    pub publisher_node: String,
}

impl ProcessId {
    /// All three segments are non-empty and free of the separator, so the
    /// identifier has a canonical text form that parses back.
    pub open spec fn well_formed(self) -> bool {
        is_segment(self.process_name@)
            && is_segment(self.package_name@)
            && is_segment(self.publisher_node@)
    }

    /// The canonical text of this identifier.
    pub open spec fn text(self) -> Seq<char> {
        self.process_name@ + seq![':'] + self.package_name@ + seq![':'] + self.publisher_node@
    }

    /// Field views are pairwise equal: what `==` means on this type.
    pub open spec fn eq_spec_fields(self, other: Self) -> bool {
        self.process_name@ == other.process_name@
            && self.package_name@ == other.package_name@
            && self.publisher_node@ == other.publisher_node@
    }

    pub fn new(process_name: &str, package_name: &str, publisher_node: &str) -> (r: Self)
        ensures
            r.process_name@ == process_name@,
            r.package_name@ == package_name@,
            r.publisher_node@ == publisher_node@,
    {
        ProcessId {
            process_name: process_name.to_owned(),
            package_name: package_name.to_owned(),
            publisher_node: publisher_node.to_owned(),
        }
    }

    /// The canonical `process:package:publisher` encoding.
    pub fn to_string(&self) -> (r: String)
        ensures
            r@ == self.text(),
    {
        proof {
            reveal_strlit(":");
        }
        let mut out = String::new();
        out.append(self.process_name.as_str());
        out.append(":");
        out.append(self.package_name.as_str());
        out.append(":");
        out.append(self.publisher_node.as_str());
        proof {
            assert(out@ =~= self.text());
        }
        out
    }

    /// Strict parser for the canonical form. Never panics: malformed input
    /// comes back as a segment-count or empty-segment error.
    pub fn parse(s: &str) -> (r: Result<ProcessId, ProcessIdParseError>)
        ensures
            r is Ok <==> valid_pid_text(s@),
            (r matches Ok(p) ==> p.well_formed() && p.text() == s@),
            (r matches Err(e) && e == ProcessIdParseError::TooFewSegments) <==> fewer_than_two_colons(s@),
            (r matches Err(e) && e == ProcessIdParseError::TooManySegments) <==> more_than_two_colons(s@),
            (r matches Err(e) && e == ProcessIdParseError::EmptySegment) <==> (exactly_two_colons(s@)
                && !valid_pid_text(s@)),
    {
        let n = s.unicode_len();
        // Sentinel value n means "not found yet".
        let mut c1: usize = n;
        let mut c2: usize = n;
        let mut c3: usize = n;
        let mut idx: usize = 0;
        while idx < n
            invariant
                n == s@.len(),
                idx <= n,
                c1 <= n,
                c2 <= n,
                c3 <= n,
                c1 == n ==> c2 == n,
                c2 == n ==> c3 == n,
                c1 == n ==> no_colon(s@, 0, idx as int),
                c1 < n ==> c1 < idx && s@[c1 as int] == ':' && no_colon(s@, 0, c1 as int),
                c1 < n && c2 == n ==> no_colon(s@, c1 + 1, idx as int),
                c2 < n ==> c1 < c2 && c2 < idx && s@[c2 as int] == ':' && no_colon(s@, c1 + 1, c2 as int),
                c2 < n && c3 == n ==> no_colon(s@, c2 + 1, idx as int),
                c3 < n ==> c2 < c3 && c3 < idx && s@[c3 as int] == ':',
            decreases n - idx,
        {
            if s.get_char(idx) == ':' {
                if c1 == n {
                    c1 = idx;
                } else if c2 == n {
                    c2 = idx;
                } else if c3 == n {
                    c3 = idx;
                }
            }
            idx += 1;
        }
        if c2 == n {
            // Zero colons or one.
            assert(fewer_than_two_colons(s@));
            assert(!valid_pid_text(s@)) by {
                if valid_pid_text(s@) {
                    let (i, j) = choose|i: int, j: int|
                        colons_exactly_at(s@, i, j) && 0 < i && i + 1 < j && j + 1 < s@.len();
                    assert(colon_at(s@, i) && colon_at(s@, j));
                }
            }
            assert(!more_than_two_colons(s@)) by {
                if more_than_two_colons(s@) {
                    let (i, j, k) = choose|i: int, j: int, k: int|
                        i < j && j < k && colon_at(s@, i) && colon_at(s@, j) && colon_at(s@, k);
                }
            }
            assert(!exactly_two_colons(s@)) by {
                if exactly_two_colons(s@) {
                    let (i, j) = choose|i: int, j: int| colons_exactly_at(s@, i, j);
                    assert(colon_at(s@, i) && colon_at(s@, j));
                }
            }
            return Err(ProcessIdParseError::TooFewSegments);
        }
        if c3 < n {
            // A third colon stands after the first two.
            assert(more_than_two_colons(s@)) by {
                assert(colon_at(s@, c1 as int) && colon_at(s@, c2 as int) && colon_at(s@, c3 as int));
            }
            assert(!fewer_than_two_colons(s@)) by {
                assert(colon_at(s@, c1 as int) && colon_at(s@, c2 as int));
            }
            assert(!exactly_two_colons(s@)) by {
                if exactly_two_colons(s@) {
                    let (i, j) = choose|i: int, j: int| colons_exactly_at(s@, i, j);
                    assert(colon_at(s@, c1 as int) && colon_at(s@, c2 as int) && colon_at(s@, c3 as int));
                }
            }
            assert(!valid_pid_text(s@)) by {
                if valid_pid_text(s@) {
                    let (i, j) = choose|i: int, j: int|
                        colons_exactly_at(s@, i, j) && 0 < i && i + 1 < j && j + 1 < s@.len();
                    assert(colon_at(s@, c1 as int) && colon_at(s@, c2 as int) && colon_at(s@, c3 as int));
                }
            }
            return Err(ProcessIdParseError::TooManySegments);
        }
        // Exactly two colons, at c1 and c2.
        assert(colons_exactly_at(s@, c1 as int, c2 as int));
        assert(!fewer_than_two_colons(s@)) by {
            assert(colon_at(s@, c1 as int) && colon_at(s@, c2 as int));
        }
        assert(!more_than_two_colons(s@)) by {
            if more_than_two_colons(s@) {
                let (i, j, k) = choose|i: int, j: int, k: int|
                    i < j && j < k && colon_at(s@, i) && colon_at(s@, j) && colon_at(s@, k);
            }
        }
        if c1 == 0 || c2 == c1 + 1 || c2 + 1 == n {
            // A segment is empty.
            assert(!valid_pid_text(s@)) by {
                if valid_pid_text(s@) {
                    let (i, j) = choose|i: int, j: int|
                        colons_exactly_at(s@, i, j) && 0 < i && i + 1 < j && j + 1 < s@.len();
                    assert(colon_at(s@, i) && colon_at(s@, j));
                    assert(i == c1 as int && j == c2 as int);
                }
            }
            return Err(ProcessIdParseError::EmptySegment);
        }
        let process_name = s.substring_char(0, c1).to_owned();
        let package_name = s.substring_char(c1 + 1, c2).to_owned();
        let publisher_node = s.substring_char(c2 + 1, n).to_owned();
        let p = ProcessId { process_name, package_name, publisher_node };
        proof {
            assert(p.text() =~= s@);
            assert(valid_pid_text(s@)) by {
                assert(colons_exactly_at(s@, c1 as int, c2 as int) && 0 < c1 as int
                    && c1 as int + 1 < c2 as int && c2 as int + 1 < s@.len());
            }
        }
        Ok(p)
    }
}

impl PartialEq for ProcessId {
    fn eq(&self, other: &Self) -> (r: bool) {
        self.process_name == other.process_name && self.package_name == other.package_name
            && self.publisher_node == other.publisher_node
    }
}

impl vstd::std_specs::cmp::PartialEqSpecImpl for ProcessId {
    open spec fn obeys_eq_spec() -> bool {
        true
    }

    open spec fn eq_spec(&self, other: &Self) -> bool {
        self.eq_spec_fields(*other)
    }
}

/// The canonical text of a well-formed identifier parses: it has exactly two
/// colons, standing between three non-empty segments.
pub proof fn lemma_process_id_text_valid(p: ProcessId)
    requires
        p.well_formed(),
    ensures
        valid_pid_text(p.text()),
{
    let t = p.text();
    let i = p.process_name@.len() as int;
    let j = i + 1 + p.package_name@.len() as int;
    assert(t[i] == ':');
    assert(t[j] == ':');
    assert(colons_exactly_at(t, i, j) && 0 < i && i + 1 < j && j + 1 < t.len());
}

/// Canonical texts tell well-formed identifiers apart: equal text means the
/// three fields agree. Together with the parser's contract this gives the
/// round trip `parse(to_string(p)) == Ok(p)` for every well-formed `p`.
pub proof fn lemma_process_id_text_injective(p: ProcessId, q: ProcessId)
    requires
        p.well_formed(),
        q.well_formed(),
        p.text() == q.text(),
    ensures
        p.eq_spec_fields(q),
{
    let t = p.text();
    let ip = p.process_name@.len() as int;
    let iq = q.process_name@.len() as int;
    assert(t[ip] == ':');
    assert(q.text()[iq] == ':');
    if ip < iq {
        assert(q.text()[ip] == q.process_name@[ip]);
        assert(false);
    }
    if iq < ip {
        assert(t[iq] == p.process_name@[iq]);
        assert(false);
    }
    assert forall|k: int| 0 <= k < ip implies p.process_name@[k] == q.process_name@[k] by {
        assert(p.text()[k] == p.process_name@[k]);
        assert(q.text()[k] == q.process_name@[k]);
    }
    assert(p.process_name@ =~= q.process_name@);
    let jp = ip + 1 + p.package_name@.len() as int;
    let jq = iq + 1 + q.package_name@.len() as int;
    assert(t[jp] == ':');
    assert(q.text()[jq] == ':');
    if jp < jq {
        assert(q.text()[jp] == q.package_name@[jp - iq - 1]);
        assert(false);
    }
    if jq < jp {
        assert(t[jq] == p.package_name@[jq - ip - 1]);
        assert(false);
    }
    assert forall|k: int| 0 <= k < p.package_name@.len() implies p.package_name@[k]
        == q.package_name@[k] by {
        assert(p.text()[ip + 1 + k] == p.package_name@[k]);
        assert(q.text()[iq + 1 + k] == q.package_name@[k]);
    }
    assert(p.package_name@ =~= q.package_name@);
    assert(p.text().len() == ip + 1 + p.package_name@.len() + 1 + p.publisher_node@.len());
    assert(q.text().len() == iq + 1 + q.package_name@.len() + 1 + q.publisher_node@.len());
    assert(p.publisher_node@.len() == q.publisher_node@.len());
    assert forall|k: int| 0 <= k < p.publisher_node@.len() implies p.publisher_node@[k]
        == q.publisher_node@[k] by {
        assert(p.text()[jp + 1 + k] == p.publisher_node@[k]);
        assert(q.text()[jq + 1 + k] == q.publisher_node@[k]);
    }
    assert(p.publisher_node@ =~= q.publisher_node@);
}

} // verus!
