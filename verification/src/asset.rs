//! Asset identifiers and their validity format.
//!
//! An asset identifier is a byte string of the form `TICKER-rrrrrr`: a
//! ticker of 3 to 10 uppercase alphanumeric bytes, a dash, and a random
//! suffix of exactly 6 lowercase alphanumeric bytes.

use vstd::prelude::*;

verus! {

/// ASCII 'A'.
pub const UPPER_A: u8 = 65;

/// ASCII 'Z'.
pub const UPPER_Z: u8 = 90;

/// ASCII 'a'.
pub const LOWER_A: u8 = 97;

/// ASCII 'z'.
pub const LOWER_Z: u8 = 122;

/// ASCII '0'.
pub const DIGIT_0: u8 = 48;

/// ASCII '9'.
pub const DIGIT_9: u8 = 57;

/// ASCII '-'.
pub const DASH: u8 = 45;

/// A byte allowed in the ticker part: an uppercase letter or a digit.
pub open spec fn is_ticker_byte(b: u8) -> bool {
    (UPPER_A <= b && b <= UPPER_Z) || (DIGIT_0 <= b && b <= DIGIT_9)
}

/// A byte allowed in the random suffix: a lowercase letter or a digit.
pub open spec fn is_suffix_byte(b: u8) -> bool {
    (LOWER_A <= b && b <= LOWER_Z) || (DIGIT_0 <= b && b <= DIGIT_9)
}

/// A well-formed asset identifier: 3 to 10 ticker bytes, a dash, then
/// exactly 6 suffix bytes, so 10 to 17 bytes in all.
pub open spec fn valid_asset_id(id: Seq<u8>) -> bool {
    &&& 10 <= id.len() <= 17
    &&& (forall|i: int| 0 <= i < id.len() - 7 ==> is_ticker_byte(#[trigger] id[i]))
    &&& id[id.len() - 7] == DASH
    &&& (forall|i: int| id.len() - 6 <= i < id.len() ==> is_suffix_byte(#[trigger] id[i]))
}

/// Decides whether `id` is a well-formed asset identifier.
pub fn is_valid_asset_id(id: &Vec<u8>) -> (r: bool)
    ensures
        r == valid_asset_id(id@),
{
    let n: usize = id.len();
    if n < 10 || n > 17 {
        return false;
    }
    let ticker_len: usize = n - 7;
    let mut i: usize = 0;
    while i < ticker_len
        invariant
            i <= ticker_len,
            ticker_len == n - 7,
            10 <= n <= 17,
            n == id@.len(),
            forall|k: int| 0 <= k < i ==> is_ticker_byte(#[trigger] id@[k]),
        decreases ticker_len - i,
    {
        let b: u8 = id[i];
        if !((UPPER_A <= b && b <= UPPER_Z) || (DIGIT_0 <= b && b <= DIGIT_9)) {
            return false;
        }
        i += 1;
    }
    if id[ticker_len] != DASH {
        return false;
    }
    let mut j: usize = n - 6;
    while j < n
        invariant
            n - 6 <= j <= n,
            10 <= n <= 17,
            n == id@.len(),
            id@[n - 7] == DASH,
            forall|k: int| 0 <= k < n - 7 ==> is_ticker_byte(#[trigger] id@[k]),
            forall|k: int| n - 6 <= k < j ==> is_suffix_byte(#[trigger] id@[k]),
        decreases n - j,
    {
        let b: u8 = id[j];
        if !((LOWER_A <= b && b <= LOWER_Z) || (DIGIT_0 <= b && b <= DIGIT_9)) {
            return false;
        }
        j += 1;
    }
    true
}

/// Byte-for-byte equality of two byte strings, stated over their views.
pub fn bytes_eq(a: &Vec<u8>, b: &Vec<u8>) -> (r: bool)
    ensures
        r == (a@ == b@),
{
    if a.len() != b.len() {
        return false;
    }
    let mut i: usize = 0;
    while i < a.len()
        invariant
            i <= a.len(),
            a@.len() == b@.len(),
            forall|k: int| 0 <= k < i ==> a@[k] == b@[k],
        decreases a.len() - i,
    {
        if a[i] != b[i] {
            return false;
        }
        i += 1;
    }
    proof {
        assert(a@ =~= b@);
    }
    true
}

} // verus!
