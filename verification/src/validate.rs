//! Validation of keys and values before any engine call.
//!
//! Every key crossing the boundary must be non-empty. Keys and values
//! are also capped so their byte encoding stays within the engine's
//! hard size limit (a 32-bit length): a character encodes to at most
//! four bytes, so the caps below keep any encoding under that limit.

use vstd::prelude::*;

use crate::errors::{DbError, ErrorKind, invalid_argument_error};

verus! {

/// Most characters a key may hold: four bytes per character stays
/// within the engine's 32-bit size limit.
pub const MAX_KEY_CHARS: usize = 0x3fffffff;

/// Most characters a value may hold, by the same encoding bound.
pub const MAX_VALUE_CHARS: usize = 0x3fffffff;

/// A key acceptable to the engine: non-empty and within the size cap.
pub open spec fn spec_valid_key(key: Seq<char>) -> bool {
    0 < key.len() <= MAX_KEY_CHARS
}

/// A value acceptable to the engine: within the size cap.
pub open spec fn spec_valid_value(value: Seq<char>) -> bool {
    value.len() <= MAX_VALUE_CHARS
}

/// Reject an empty or oversized key with an invalid-argument error,
/// before any engine call.
pub fn check_key(key: &str) -> (r: Result<(), DbError>)
    ensures
        r is Ok <==> spec_valid_key(key@),
        r matches Err(e) ==> e.kind == ErrorKind::Invalid,
{
    let n = key.unicode_len();
    if n == 0 {
        Err(invalid_argument_error("key cannot be empty"))
    } else if n > MAX_KEY_CHARS {
        Err(invalid_argument_error("key is too large"))
    } else {
        Ok(())
    }
}

/// Reject an oversized value with an invalid-argument error, before
/// any engine call.
pub fn check_value(value: &str) -> (r: Result<(), DbError>)
    ensures
        r is Ok <==> spec_valid_value(value@),
        r matches Err(e) ==> e.kind == ErrorKind::Invalid,
{
    if value.unicode_len() > MAX_VALUE_CHARS {
        Err(invalid_argument_error("value is too large"))
    } else {
        Ok(())
    }
}

/// Strict lexicographic order on text, character by character.
pub open spec fn spec_text_lt(a: Seq<char>, b: Seq<char>) -> bool
    decreases a.len(),
{
    if b.len() == 0 {
        false
    } else if a.len() == 0 {
        true
    } else if a[0] != b[0] {
        a[0] < b[0]
    } else {
        spec_text_lt(a.drop_first(), b.drop_first())
    }
}

/// Whether `a` strictly precedes `b` in lexicographic order.
pub fn text_lt(a: &str, b: &str) -> (r: bool)
    ensures
        r == spec_text_lt(a@, b@),
{
    let an = a.unicode_len();
    let bn = b.unicode_len();
    let mut i: usize = 0;
    proof {
        assert(a@.skip(0) =~= a@);
        assert(b@.skip(0) =~= b@);
    }
    while i < an && i < bn
        invariant
            an == a@.len(),
            bn == b@.len(),
            0 <= i <= an,
            i <= bn,
            spec_text_lt(a@, b@) == spec_text_lt(a@.skip(i as int), b@.skip(i as int)),
        decreases an - i,
    {
        let ca = a.get_char(i);
        let cb = b.get_char(i);
        proof {
            assert(a@.skip(i as int)[0] == a@[i as int]);
            assert(b@.skip(i as int)[0] == b@[i as int]);
        }
        if ca != cb {
            return ca < cb;
        }
        proof {
            assert(a@.skip(i as int).drop_first() =~= a@.skip(i + 1));
            assert(b@.skip(i as int).drop_first() =~= b@.skip(i + 1));
        }
        i = i + 1;
    }
    proof {
        assert(a@.skip(i as int).len() == an - i);
        assert(b@.skip(i as int).len() == bn - i);
    }
    an < bn
}

/// Reject a scan range that holds no key: with an end bound given, the
/// start key must strictly precede it, else the whole call fails as an
/// invalid argument before any engine work. The engine compares keys
/// by their byte encoding, which orders text the same way as the
/// character-wise comparison here.
pub fn check_range(start: &str, end: &Option<String>) -> (r: Result<(), DbError>)
    ensures
        r is Ok <==> (end matches Some(e) ==> spec_text_lt(start@, e@)),
        r matches Err(er) ==> er.kind == ErrorKind::Invalid,
{
    match end {
        None => Ok(()),
        Some(e) => {
            if text_lt(start, e.as_str()) {
                Ok(())
            } else {
                Err(invalid_argument_error("start key must precede the end key"))
            }
        },
    }
}

} // verus!
