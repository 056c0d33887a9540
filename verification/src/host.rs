//! The plugin host's checks: library integrity and boundary text.
//!
//! Before a provider shared library is loaded, the host hashes the file
//! with SHA-256 and compares the lowercase hex form against the expected
//! value; the literal `"any"` disables the check. Strings crossing the C
//! boundary must be UTF-8; anything else becomes a null return. The file
//! and symbol handling itself stays outside the library — what is verified
//! here is the decision on the bytes.

use vstd::prelude::*;

use sha2::Digest;

use crate::strutil::str_eq;

verus! {

/// The SHA-256 digest of a byte string.
pub uninterp spec fn sha256_of(bytes: Seq<u8>) -> Seq<u8>;

/// Relies on sha2's `Sha256` through `Digest::digest`: the digest depends
/// on the input bytes alone and is 32 bytes long.
#[verifier::external_body]
fn sha256_digest(bytes: &Vec<u8>) -> (r: Vec<u8>)
    ensures
        r@ == sha256_of(bytes@),
        r@.len() == 32,
{
    sha2::Sha256::digest(bytes.as_slice()).to_vec()
}

/// The sixteen lowercase hexadecimal digit characters.
pub open spec fn spec_hex_digits() -> Seq<char> {
    "0123456789abcdef"@
}

/// The lowercase hexadecimal form of a byte string: two digits per byte,
/// most significant first.
pub open spec fn hex_of(bytes: Seq<u8>) -> Seq<char>
    decreases bytes.len(),
{
    if bytes.len() == 0 {
        Seq::empty()
    } else {
        hex_of(bytes.drop_last()) + seq![
            spec_hex_digits()[bytes.last() as int / 16],
            spec_hex_digits()[bytes.last() as int % 16],
        ]
    }
}

/// Where each byte's digits stand in the hexadecimal form.
pub proof fn lemma_hex_of_index(bytes: Seq<u8>, k: int)
    requires
        0 <= k < bytes.len(),
    ensures
        hex_of(bytes).len() == 2 * bytes.len(),
        hex_of(bytes)[2 * k] == spec_hex_digits()[bytes[k] as int / 16],
        hex_of(bytes)[2 * k + 1] == spec_hex_digits()[bytes[k] as int % 16],
    decreases bytes.len(),
{
    lemma_hex_of_len(bytes);
    if k == bytes.len() - 1 {
        lemma_hex_of_len(bytes.drop_last());
    } else {
        lemma_hex_of_index(bytes.drop_last(), k);
        assert(bytes.drop_last()[k] == bytes[k]);
    }
}

/// The hexadecimal form has two digits per byte.
pub proof fn lemma_hex_of_len(bytes: Seq<u8>)
    ensures
        hex_of(bytes).len() == 2 * bytes.len(),
    decreases bytes.len(),
{
    if bytes.len() > 0 {
        lemma_hex_of_len(bytes.drop_last());
    }
}

/// Whether `expected` reads as the lowercase hexadecimal form of `digest`.
fn hash_matches(digest: &Vec<u8>, expected: &str) -> (r: bool)
    requires
        digest@.len() <= 0x1000,
    ensures
        r == (expected@ == hex_of(digest@)),
{
    let hex = "0123456789abcdef";
    proof {
        reveal_strlit("0123456789abcdef");
        lemma_hex_of_len(digest@);
    }
    let n = expected.unicode_len();
    if n != 2 * digest.len() {
        return false;
    }
    let len = digest.len();
    let mut k: usize = 0;
    while k < len
        invariant
            len == digest@.len(),
            len <= 0x1000,
            n == expected@.len(),
            n == 2 * len,
            hex@ == spec_hex_digits(),
            hex@.len() == 16,
            hex.is_ascii(),
            0 <= k <= len,
            hex_of(digest@).len() == n,
            forall|j: int| 0 <= j < 2 * k ==> expected@[j] == hex_of(digest@)[j],
        decreases len - k,
    {
        proof {
            lemma_hex_of_index(digest@, k as int);
        }
        let b = digest[k];
        let hi = (b / 16) as usize;
        let lo = (b % 16) as usize;
        let c_hi = hex.get_char(hi);
        let c_lo = hex.get_char(lo);
        if expected.get_char(2 * k) != c_hi || expected.get_char(2 * k + 1) != c_lo {
            return false;
        }
        k += 1;
    }
    proof {
        assert(expected@ =~= hex_of(digest@));
    }
    true
}

/// Checks a provider library's bytes against the expected SHA-256 hash.
///
/// Succeeds exactly when `expected_hash` is the literal `"any"` — the
/// check is then disabled — or reads as the lowercase hexadecimal SHA-256
/// digest of the bytes; any other value fails with a hash mismatch, and
/// the host then refuses to load the library.
pub fn validate_hash(library_bytes: &Vec<u8>, expected_hash: &str) -> (r: Result<(), String>)
    ensures
        r is Ok <==> (expected_hash@ == "any"@ || expected_hash@ == hex_of(
            sha256_of(library_bytes@),
        )),
        r is Err ==> r->Err_0@ == "Hash mismatch"@,
{
    if str_eq(expected_hash, "any") {
        return Ok(());
    }
    let digest = sha256_digest(library_bytes);
    if hash_matches(&digest, expected_hash) {
        Ok(())
    } else {
        Err(String::from_str("Hash mismatch"))
    }
}

/// Relies on std's `str::from_utf8`: it succeeds exactly on valid UTF-8
/// and yields the characters those bytes encode.
#[verifier::external_body]
fn from_utf8_owned(bytes: &Vec<u8>) -> (r: Option<String>)
    ensures
        match r {
            Some(s) => vstd::utf8::valid_utf8(bytes@) && vstd::utf8::encode_utf8(s@) == bytes@,
            None => !vstd::utf8::valid_utf8(bytes@),
        },
{
    match std::str::from_utf8(bytes.as_slice()) {
        Ok(s) => Some(s.to_string()),
        Err(_) => None,
    }
}

/// Decodes one string handed across the C boundary. Returns `None`
/// exactly when the bytes are not valid UTF-8; the host answers such a
/// call with a null pointer.
pub fn decode_host_input(bytes: &Vec<u8>) -> (r: Option<String>)
    ensures
        match r {
            Some(s) => vstd::utf8::valid_utf8(bytes@) && vstd::utf8::encode_utf8(s@) == bytes@,
            None => !vstd::utf8::valid_utf8(bytes@),
        },
{
    from_utf8_owned(bytes)
}

/// How the host treats the dry-run flag of the C `apply` entry point: any
/// nonzero value asks for a dry run.
pub fn dry_run_requested(flag: i32) -> (r: bool)
    ensures
        r == (flag != 0),
{
    flag != 0
}

} // verus!
