//! Port ranges: one fixed port, or an inclusive contiguous interval.

use vstd::prelude::*;
use crate::error::ProvisionError;
use crate::numerals::{digits_val, is_u16_numeral, parse_u16};

verus! {

/// Either one fixed port or an inclusive port interval. A `Range` is
/// well-formed only when its end lies strictly above its start; `parse` never
/// produces anything else.
#[derive(Clone, Debug, PartialEq, Eq, Structural)]
pub enum PortRange {
    Single(u16),
    Range(u16, u16),
}

/// Splitting range text `s` at position `k`: a dash stands at `k` and nowhere
/// else, each side is a port numeral, and the left value lies strictly below
/// the right one.
pub open spec fn range_split_ok(s: Seq<char>, k: int) -> bool {
    &&& 0 <= k < s.len()
    &&& s[k] == '-'
    &&& (forall|i: int| 0 <= i < s.len() && i != k ==> s[i] != '-')
    &&& is_u16_numeral(s.take(k))
    &&& is_u16_numeral(s.skip(k + 1))
    &&& digits_val(s.take(k)) < digits_val(s.skip(k + 1))
}

/// Is `s` the text of a two-port interval, `start-end` with start below end?
pub open spec fn is_range_text(s: Seq<char>) -> bool {
    exists|k: int| range_split_ok(s, k)
}

impl PortRange {
    /// How many ports the range holds: one, or both ends of the interval and
    /// everything between them.
    pub open spec fn spec_cardinality(self) -> int {
        match self {
            PortRange::Single(_) => 1,
            PortRange::Range(start, end) => end - start + 1,
        }
    }

    /// A `Range` must put its end strictly above its start.
    pub open spec fn wf(self) -> bool {
        match self {
            PortRange::Single(_) => true,
            PortRange::Range(start, end) => start < end,
        }
    }

    /// Reads either a bare port numeral or `start-end` with start strictly
    /// below end; every other shape is a malformed range.
    pub fn parse(s: &str) -> (r: Result<PortRange, ProvisionError>)
        ensures
            is_u16_numeral(s@) ==> r == Ok::<PortRange, ProvisionError>(
                PortRange::Single(digits_val(s@) as u16),
            ),
            !is_u16_numeral(s@) && is_range_text(s@) ==> (r matches Ok(p)
                && forall|k: int|
                    range_split_ok(s@, k) ==> p == (PortRange::Range(
                        digits_val(s@.take(k)) as u16,
                        digits_val(s@.skip(k + 1)) as u16,
                    ))),
            r is Err <==> !is_u16_numeral(s@) && !is_range_text(s@),
            r matches Err(e) ==> e == ProvisionError::MalformedRange,
            r matches Ok(p) ==> p.wf(),
    {
        match parse_u16(s) {
            Some(p) => {
                return Ok(PortRange::Single(p));
            },
            None => {},
        }
        let len = s.unicode_len();
        let mut i: usize = 0;
        let mut first: Option<usize> = None;
        let mut second: Option<usize> = None;
        while i < len
            invariant
                0 <= i <= len,
                len == s@.len(),
                first is None ==> second is None && (forall|j: int|
                    0 <= j < i ==> s@[j] != '-'),
                first matches Some(k) ==> (0 <= k < i && s@[k as int] == '-' && (second is None
                    ==> forall|j: int| 0 <= j < i && j != k ==> s@[j] != '-')),
                second matches Some(k2) ==> (first matches Some(k) && k != k2 && 0 <= k2 < i
                    && s@[k2 as int] == '-'),
            decreases len - i,
        {
            let c = s.get_char(i);
            if c == '-' {
                if first.is_none() {
                    first = Some(i);
                } else if second.is_none() {
                    second = Some(i);
                }
            }
            i += 1;
        }
        let k = match first {
            None => {
                proof {
                    assert forall|k2: int| !range_split_ok(s@, k2) by {
                        if 0 <= k2 < s@.len() {
                            assert(s@[k2] != '-');
                        }
                    }
                }
                return Err(ProvisionError::MalformedRange);
            },
            Some(k) => k,
        };
        if second.is_some() {
            proof {
                let ghost k2 = second->0;
                assert forall|j: int| !range_split_ok(s@, j) by {
                    if range_split_ok(s@, j) {
                        if j != k {
                            assert(s@[k as int] != '-');
                        } else {
                            assert(s@[k2 as int] != '-');
                        }
                    }
                }
            }
            return Err(ProvisionError::MalformedRange);
        }
        let left = s.substring_char(0, k);
        let right = s.substring_char(k + 1, len);
        proof {
            assert(left@ =~= s@.take(k as int));
            assert(right@ =~= s@.skip(k as int + 1));
        }
        let a = match parse_u16(left) {
            Some(a) => a,
            None => {
                proof {
                    assert forall|j: int| !range_split_ok(s@, j) by {
                        if range_split_ok(s@, j) && j != k {
                            assert(s@[k as int] != '-');
                        }
                    }
                }
                return Err(ProvisionError::MalformedRange);
            },
        };
        let b = match parse_u16(right) {
            Some(b) => b,
            None => {
                proof {
                    assert forall|j: int| !range_split_ok(s@, j) by {
                        if range_split_ok(s@, j) && j != k {
                            assert(s@[k as int] != '-');
                        }
                    }
                }
                return Err(ProvisionError::MalformedRange);
            },
        };
        if a >= b {
            proof {
                assert forall|j: int| !range_split_ok(s@, j) by {
                    if range_split_ok(s@, j) && j != k {
                        assert(s@[k as int] != '-');
                    }
                }
            }
            return Err(ProvisionError::MalformedRange);
        }
        proof {
            assert(range_split_ok(s@, k as int));
            assert forall|j: int| range_split_ok(s@, j) implies j == k as int by {
                if j != k {
                    assert(s@[k as int] != '-');
                }
            }
        }
        Ok(PortRange::Range(a, b))
    }

    /// Succeeds exactly when `count` equals the number of ports the range
    /// holds; fails otherwise with that number against the count that was
    /// asked for.
    pub fn validate(&self, count: u16) -> (r: Result<(), ProvisionError>)
        requires
            self.wf(),
        ensures
            r is Ok <==> count == self.spec_cardinality(),
            r matches Err(e) ==> e == (ProvisionError::CardinalityMismatch {
                required: self.spec_cardinality() as u32,
                declared: count as u32,
            }),
    {
        let required: u32 = match self {
            PortRange::Single(_) => 1,
            PortRange::Range(start, end) => (*end as u32) - (*start as u32) + 1,
        };
        if (count as u32) == required {
            Ok(())
        } else {
            Err(ProvisionError::CardinalityMismatch { required, declared: count as u32 })
        }
    }
}

} // verus!
