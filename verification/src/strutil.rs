//! Small verified helpers for working with strings character by character.

use vstd::prelude::*;

verus! {

/// Compares two string slices by their character sequences.
pub fn str_eq(a: &str, b: &str) -> (r: bool)
    ensures
        r == (a@ == b@),
{
    let na = a.unicode_len();
    let nb = b.unicode_len();
    if na != nb {
        return false;
    }
    let mut i: usize = 0;
    while i < na
        invariant
            na == a@.len(),
            na == b@.len(),
            0 <= i <= na,
            forall|j: int| 0 <= j < i ==> a@[j] == b@[j],
        decreases na - i,
    {
        let ca = a.get_char(i);
        let cb = b.get_char(i);
        if ca != cb {
            return false;
        }
        i += 1;
    }
    proof {
        assert(a@ =~= b@);
    }
    true
}

/// Whether `c` is a decimal digit.
pub open spec fn is_dec_digit(c: char) -> bool {
    '0' <= c && c <= '9'
}

/// All characters are decimal digits.
pub open spec fn all_dec(s: Seq<char>) -> bool {
    forall|i: int| 0 <= i < s.len() ==> is_dec_digit(#[trigger] s[i])
}

/// The number a sequence of decimal digits denotes, most significant digit
/// first.
pub open spec fn dec_value(s: Seq<char>) -> nat
    decreases s.len(),
{
    if s.len() == 0 {
        0
    } else {
        dec_value(s.drop_last()) * 10 + (if is_dec_digit(s.last()) {
            ((s.last() as int) - ('0' as int)) as nat
        } else {
            0
        })
    }
}

/// A digit prefix never denotes more than the whole sequence.
pub proof fn lemma_dec_value_prefix(s: Seq<char>, m: int)
    requires
        0 <= m <= s.len(),
    ensures
        dec_value(s.take(m)) <= dec_value(s),
    decreases s.len() - m,
{
    if m == s.len() {
        assert(s.take(m) =~= s);
    } else {
        lemma_dec_value_prefix(s, m + 1);
        assert(s.take(m + 1).drop_last() =~= s.take(m));
    }
}

/// Reads a nonempty string of decimal digits as a number of at most
/// `bound`. `None` exactly when the string is empty, holds a character that
/// is no decimal digit, or denotes a number above `bound`.
pub fn parse_decimal(s: &str, bound: u64) -> (r: Option<u64>)
    requires
        bound <= 0xFFFF_FFFF,
    ensures
        match r {
            Some(v) => s@.len() > 0 && all_dec(s@) && dec_value(s@) <= bound && v == dec_value(s@),
            None => !(s@.len() > 0 && all_dec(s@) && dec_value(s@) <= bound),
        },
{
    let n = s.unicode_len();
    if n == 0 {
        return None;
    }
    let mut acc: u64 = 0;
    let mut m: usize = 0;
    while m < n
        invariant
            n == s@.len(),
            0 <= m <= n,
            bound <= 0xFFFF_FFFF,
            acc <= bound,
            all_dec(s@.take(m as int)),
            acc == dec_value(s@.take(m as int)),
        decreases n - m,
    {
        let c = s.get_char(m);
        proof {
            assert(s@.take(m + 1).drop_last() =~= s@.take(m as int));
            assert(s@.take(m + 1).last() == s@[m as int]);
        }
        if !('0' <= c && c <= '9') {
            return None;
        }
        let d: u64 = (c as u64) - ('0' as u64);
        acc = acc * 10 + d;
        if acc > bound {
            proof {
                lemma_dec_value_prefix(s@, m + 1);
                assert(s@.take(s@.len() as int) =~= s@);
            }
            return None;
        }
        m += 1;
    }
    proof {
        assert(s@.take(n as int) =~= s@);
    }
    Some(acc)
}

} // verus!
