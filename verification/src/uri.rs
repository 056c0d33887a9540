//! uProtocol URIs, held as plain values.
//!
//! A URI of the form `//authority/AB12/1/0` names an entity on an authority,
//! with a major version and a resource id; the three trailing segments are
//! hexadecimal. The provider only needs the four parts, so the library keeps
//! them as plain fields and parses the textual form itself.

use vstd::prelude::*;

verus! {

/// A uProtocol URI: authority, entity id, entity major version, resource id.
#[derive(Debug)]
pub struct UUri {
    pub authority: String,
    pub entity_id: u32,
    pub version: u8,
    pub resource_id: u16,
}

impl Clone for UUri {
    /// Copies the URI; the copy equals the original.
    fn clone(&self) -> (r: Self)
        ensures
            r == *self,
    {
        UUri {
            authority: self.authority.clone(),
            entity_id: self.entity_id,
            version: self.version,
            resource_id: self.resource_id,
        }
    }
}

impl UUri {
    /// Whether this URI can only answer calls: its resource id is zero.
    pub fn is_rpc_response(&self) -> (r: bool)
        ensures
            r == (self.resource_id == 0),
    {
        self.resource_id == 0
    }

    /// The same entity with another resource id: authority, entity id and
    /// version are kept.
    pub fn with_resource_id(&self, resource_id: u16) -> (r: UUri)
        ensures
            r.authority@ == self.authority@,
            r.entity_id == self.entity_id,
            r.version == self.version,
            r.resource_id == resource_id,
    {
        UUri {
            authority: self.authority.clone(),
            entity_id: self.entity_id,
            version: self.version,
            resource_id,
        }
    }
}

/// Whether `c` is a hexadecimal digit.
pub open spec fn is_hex_digit(c: char) -> bool {
    ('0' <= c && c <= '9') || ('a' <= c && c <= 'f') || ('A' <= c && c <= 'F')
}

/// The value of one hexadecimal digit.
pub open spec fn hex_digit_value(c: char) -> nat {
    if '0' <= c && c <= '9' {
        ((c as int) - ('0' as int)) as nat
    } else if 'a' <= c && c <= 'f' {
        ((c as int) - ('a' as int) + 10) as nat
    } else if 'A' <= c && c <= 'F' {
        ((c as int) - ('A' as int) + 10) as nat
    } else {
        0
    }
}

/// All characters are hexadecimal digits.
pub open spec fn all_hex(s: Seq<char>) -> bool {
    forall|i: int| 0 <= i < s.len() ==> is_hex_digit(#[trigger] s[i])
}

/// The number a sequence of hexadecimal digits denotes, most significant
/// digit first.
pub open spec fn hex_value(s: Seq<char>) -> nat
    decreases s.len(),
{
    if s.len() == 0 {
        0
    } else {
        hex_value(s.drop_last()) * 16 + hex_digit_value(s.last())
    }
}

/// A digit prefix never denotes more than the whole sequence.
pub proof fn lemma_hex_value_prefix(s: Seq<char>, m: int)
    requires
        0 <= m <= s.len(),
    ensures
        hex_value(s.take(m)) <= hex_value(s),
    decreases s.len() - m,
{
    if m == s.len() {
        assert(s.take(m) =~= s);
    } else {
        lemma_hex_value_prefix(s, m + 1);
        assert(s.take(m + 1).drop_last() =~= s.take(m));
        assert(hex_value(s.take(m + 1)) == hex_value(s.take(m)) * 16 + hex_digit_value(
            s.take(m + 1).last(),
        ));
    }
}

/// The position of the first `/` at or after `from`, if any.
pub open spec fn spec_first_slash(s: Seq<char>, from: int) -> Option<int>
    decreases s.len() - from,
{
    if !(0 <= from < s.len()) {
        None
    } else if s[from] == '/' {
        Some(from)
    } else {
        spec_first_slash(s, from + 1)
    }
}

/// The four parts a well-formed URI string denotes: authority characters,
/// entity id, version and resource id. `None` when the string is not of the
/// form `//authority/HEX/HEX/HEX` with a nonempty authority, nonempty
/// hexadecimal segments, and values within `u32`, `u8` and `u16`.
pub open spec fn spec_parse_uuri(s: Seq<char>) -> Option<(Seq<char>, nat, nat, nat)> {
    if s.len() < 2 || s[0] != '/' || s[1] != '/' {
        None
    } else {
        match spec_first_slash(s, 2) {
            None => None,
            Some(i) => if i == 2 {
                None
            } else {
                match spec_first_slash(s, i + 1) {
                    None => None,
                    Some(j) => match spec_first_slash(s, j + 1) {
                        None => None,
                        Some(k) => {
                            let auth = s.take(i).skip(2);
                            let e = s.take(j).skip(i + 1);
                            let v = s.take(k).skip(j + 1);
                            let r = s.skip(k + 1);
                            if e.len() > 0 && all_hex(e) && hex_value(e) <= 0xFFFF_FFFF && v.len()
                                > 0 && all_hex(v) && hex_value(v) <= 0xFF && r.len() > 0 && all_hex(
                                r,
                            ) && hex_value(r) <= 0xFFFF {
                                Some((auth, hex_value(e), hex_value(v), hex_value(r)))
                            } else {
                                None
                            }
                        },
                    },
                }
            },
        }
    }
}

/// Finds the first `/` at or after `from`.
fn find_slash(s: &str, from: usize) -> (r: Option<usize>)
    requires
        from <= s@.len(),
    ensures
        match r {
            Some(i) => spec_first_slash(s@, from as int) == Some(i as int) && from <= i
                < s@.len(),
            None => spec_first_slash(s@, from as int) is None,
        },
{
    let n = s.unicode_len();
    let mut i: usize = from;
    while i < n
        invariant
            n == s@.len(),
            from <= i <= n,
            spec_first_slash(s@, from as int) == spec_first_slash(s@, i as int),
        decreases n - i,
    {
        if s.get_char(i) == '/' {
            return Some(i);
        }
        i += 1;
    }
    None
}

/// Reads the hexadecimal segment `s[from..to]` as a number of at most
/// `bound`. `None` exactly when the segment is empty, holds a character
/// that is no hexadecimal digit, or denotes a number above `bound`.
fn parse_hex_segment(s: &str, from: usize, to: usize, bound: u64) -> (r: Option<u64>)
    requires
        from <= to <= s@.len(),
        bound <= 0xFFFF_FFFF,
    ensures
        match r {
            Some(v) => {
                let seg = s@.take(to as int).skip(from as int);
                &&& seg.len() > 0
                &&& all_hex(seg)
                &&& hex_value(seg) <= bound
                &&& v == hex_value(seg)
            },
            None => {
                let seg = s@.take(to as int).skip(from as int);
                !(seg.len() > 0 && all_hex(seg) && hex_value(seg) <= bound)
            },
        },
{
    let ghost seg = s@.take(to as int).skip(from as int);
    if from == to {
        return None;
    }
    let mut acc: u64 = 0;
    let mut m: usize = from;
    while m < to
        invariant
            from < to <= s@.len(),
            from <= m <= to,
            bound <= 0xFFFF_FFFF,
            acc <= bound,
            seg == s@.take(to as int).skip(from as int),
            all_hex(seg.take(m - from)),
            acc == hex_value(seg.take(m - from)),
        decreases to - m,
    {
        let c = s.get_char(m);
        proof {
            assert(seg[m - from] == s@[m as int]);
            assert(seg.take(m + 1 - from).drop_last() =~= seg.take(m - from));
        }
        let d: u64 = if '0' <= c && c <= '9' {
            (c as u64) - ('0' as u64)
        } else if 'a' <= c && c <= 'f' {
            (c as u64) - ('a' as u64) + 10
        } else if 'A' <= c && c <= 'F' {
            (c as u64) - ('A' as u64) + 10
        } else {
            proof {
                assert(!is_hex_digit(seg[m - from]));
            }
            return None;
        };
        acc = acc * 16 + d;
        if acc > bound {
            proof {
                lemma_hex_value_prefix(seg, m + 1 - from);
            }
            return None;
        }
        m += 1;
    }
    proof {
        assert(seg.take(to - from) =~= seg);
    }
    Some(acc)
}

impl UUri {
    /// Reads a URI of the form `//authority/HEX/HEX/HEX`, the segments
    /// being entity id, major version and resource id. Returns `None`
    /// exactly when the string does not denote a URI.
    pub fn parse(s: &str) -> (r: Option<UUri>)
        ensures
            match r {
                Some(u) => spec_parse_uuri(s@) == Some(
                    (u.authority@, u.entity_id as nat, u.version as nat, u.resource_id as nat),
                ),
                None => spec_parse_uuri(s@) is None,
            },
    {
        let n = s.unicode_len();
        if n < 2 || s.get_char(0) != '/' || s.get_char(1) != '/' {
            return None;
        }
        let i = match find_slash(s, 2) {
            Some(i) => i,
            None => {
                return None;
            },
        };
        if i == 2 {
            return None;
        }
        let j = match find_slash(s, i + 1) {
            Some(j) => j,
            None => {
                return None;
            },
        };
        let k = match find_slash(s, j + 1) {
            Some(k) => k,
            None => {
                return None;
            },
        };
        let entity = match parse_hex_segment(s, i + 1, j, 0xFFFF_FFFF) {
            Some(v) => v,
            None => {
                return None;
            },
        };
        let version = match parse_hex_segment(s, j + 1, k, 0xFF) {
            Some(v) => v,
            None => {
                return None;
            },
        };
        proof {
            assert(s@.skip(k + 1) =~= s@.take(n as int).skip(k + 1));
        }
        let resource = match parse_hex_segment(s, k + 1, n, 0xFFFF) {
            Some(v) => v,
            None => {
                return None;
            },
        };
        let authority = s.substring_char(2, i).to_owned();
        proof {
            assert(authority@ =~= s@.take(i as int).skip(2));
        }
        Some(
            UUri {
                authority,
                entity_id: entity as u32,
                version: version as u8,
                resource_id: resource as u16,
            },
        )
    }
}

} // verus!
