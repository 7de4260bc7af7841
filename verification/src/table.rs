//! A small association table: entries keyed by an ordered pair of byte
//! strings, each holding one `u128` value. Both the rate table (keyed by
//! source and destination asset) and the share table (keyed by provider
//! and asset) are tables of this shape. Absent keys read as 0.

use crate::asset::bytes_eq;
use vstd::prelude::*;

verus! {

/// One entry: an ordered pair of byte-string keys and its value.
pub struct Entry {
    pub key1: Vec<u8>,
    pub key2: Vec<u8>,
    pub value: u128,
}

/// The entry carries exactly the given key pair.
pub open spec fn entry_matches(e: Entry, k1: Seq<u8>, k2: Seq<u8>) -> bool {
    e.key1@ == k1 && e.key2@ == k2
}

/// Some entry of the table carries the given key pair.
pub open spec fn table_found(t: Seq<Entry>, k1: Seq<u8>, k2: Seq<u8>) -> bool {
    exists|i: int| 0 <= i < t.len() && #[trigger] entry_matches(t[i], k1, k2)
}

/// The value stored under the given key pair, 0 when the pair is absent.
pub open spec fn table_lookup(t: Seq<Entry>, k1: Seq<u8>, k2: Seq<u8>) -> u128 {
    if table_found(t, k1, k2) {
        t[choose|i: int| 0 <= i < t.len() && #[trigger] entry_matches(t[i], k1, k2)].value
    } else {
        0u128
    }
}

/// Each key pair occurs in at most one entry.
pub open spec fn table_keys_unique(t: Seq<Entry>) -> bool {
    forall|i: int, j: int|
        0 <= i < t.len() && 0 <= j < t.len() && i != j ==> !(#[trigger] t[i].key1@
            == #[trigger] t[j].key1@ && t[i].key2@ == t[j].key2@)
}

/// In a table with unique keys, the value under a pair is the value of
/// any entry that carries it.
proof fn lemma_lookup_at(t: Seq<Entry>, k1: Seq<u8>, k2: Seq<u8>, i: int)
    requires
        table_keys_unique(t),
        0 <= i < t.len(),
        entry_matches(t[i], k1, k2),
    ensures
        table_found(t, k1, k2),
        table_lookup(t, k1, k2) == t[i].value,
{
    assert(table_found(t, k1, k2));
    let j = choose|j: int| 0 <= j < t.len() && #[trigger] entry_matches(t[j], k1, k2);
    if i != j {
        assert(t[i].key1@ == t[j].key1@ && t[i].key2@ == t[j].key2@);
        assert(false);
    }
}

/// A pair that no entry carries reads as 0.
proof fn lemma_lookup_absent(t: Seq<Entry>, k1: Seq<u8>, k2: Seq<u8>)
    requires
        forall|j: int| 0 <= j < t.len() ==> !(#[trigger] entry_matches(t[j], k1, k2)),
    ensures
        !table_found(t, k1, k2),
        table_lookup(t, k1, k2) == 0,
{
    if table_found(t, k1, k2) {
        let j = choose|j: int| 0 <= j < t.len() && #[trigger] entry_matches(t[j], k1, k2);
        assert(false);
    }
}

/// Overwriting the value of the entry at `i` keeps the keys unique,
/// stores the new value under that entry's pair, and leaves every other
/// pair's value as it was.
proof fn lemma_store_update(t: Seq<Entry>, i: int, e: Entry)
    requires
        table_keys_unique(t),
        0 <= i < t.len(),
        e.key1@ == t[i].key1@,
        e.key2@ == t[i].key2@,
    ensures
        table_keys_unique(t.update(i, e)),
        table_lookup(t.update(i, e), e.key1@, e.key2@) == e.value,
        forall|a: Seq<u8>, b: Seq<u8>|
            !(a == e.key1@ && b == e.key2@) ==> #[trigger] table_lookup(t.update(i, e), a, b)
                == table_lookup(t, a, b),
{
    let t2 = t.update(i, e);
    assert forall|k: int| 0 <= k < t.len() implies t2[k].key1@ == t[k].key1@ && t2[k].key2@
        == t[k].key2@ by {
        if k != i {
            assert(t2[k] == t[k]);
        }
    }
    assert(table_keys_unique(t2));
    lemma_lookup_at(t2, e.key1@, e.key2@, i);
    assert forall|a: Seq<u8>, b: Seq<u8>| !(a == e.key1@ && b == e.key2@) implies table_lookup(
        t2,
        a,
        b,
    ) == table_lookup(t, a, b) by {
        if table_found(t, a, b) {
            let j = choose|j: int| 0 <= j < t.len() && #[trigger] entry_matches(t[j], a, b);
            assert(j != i);
            assert(entry_matches(t2[j], a, b));
            lemma_lookup_at(t, a, b, j);
            lemma_lookup_at(t2, a, b, j);
        } else {
            assert forall|j: int| 0 <= j < t2.len() implies !(#[trigger] entry_matches(
                t2[j],
                a,
                b,
            )) by {
                if entry_matches(t2[j], a, b) {
                    assert(entry_matches(t[j], a, b));
                }
            }
            lemma_lookup_absent(t, a, b);
            lemma_lookup_absent(t2, a, b);
        }
    }
}

/// Appending an entry whose pair is absent keeps the keys unique, stores
/// its value under its pair, and leaves every other pair's value as it
/// was.
proof fn lemma_store_push(t: Seq<Entry>, e: Entry)
    requires
        table_keys_unique(t),
        forall|j: int| 0 <= j < t.len() ==> !(#[trigger] entry_matches(t[j], e.key1@, e.key2@)),
    ensures
        table_keys_unique(t.push(e)),
        table_lookup(t.push(e), e.key1@, e.key2@) == e.value,
        forall|a: Seq<u8>, b: Seq<u8>|
            !(a == e.key1@ && b == e.key2@) ==> #[trigger] table_lookup(t.push(e), a, b)
                == table_lookup(t, a, b),
{
    let t2 = t.push(e);
    assert forall|i: int, j: int|
        0 <= i < t2.len() && 0 <= j < t2.len() && i != j implies !(t2[i].key1@ == t2[j].key1@
        && t2[i].key2@ == t2[j].key2@) by {
        if i < t.len() && j < t.len() {
            assert(t2[i] == t[i] && t2[j] == t[j]);
        } else if i < t.len() && j == t.len() {
            assert(t2[j] == e && t2[i] == t[i]);
            assert(!entry_matches(t[i], e.key1@, e.key2@));
        } else if j < t.len() && i == t.len() {
            assert(t2[i] == e && t2[j] == t[j]);
            assert(!entry_matches(t[j], e.key1@, e.key2@));
        }
    }
    assert(entry_matches(t2[t.len() as int], e.key1@, e.key2@));
    lemma_lookup_at(t2, e.key1@, e.key2@, t.len() as int);
    assert forall|a: Seq<u8>, b: Seq<u8>| !(a == e.key1@ && b == e.key2@) implies table_lookup(
        t2,
        a,
        b,
    ) == table_lookup(t, a, b) by {
        if table_found(t, a, b) {
            let j = choose|j: int| 0 <= j < t.len() && #[trigger] entry_matches(t[j], a, b);
            assert(entry_matches(t2[j], a, b));
            lemma_lookup_at(t, a, b, j);
            lemma_lookup_at(t2, a, b, j);
        } else {
            assert forall|j: int| 0 <= j < t2.len() implies !(#[trigger] entry_matches(
                t2[j],
                a,
                b,
            )) by {
                if entry_matches(t2[j], a, b) {
                    if j == t.len() {
                        assert(a == e.key1@ && b == e.key2@);
                    } else {
                        assert(entry_matches(t[j], a, b));
                    }
                }
            }
            lemma_lookup_absent(t, a, b);
            lemma_lookup_absent(t2, a, b);
        }
    }
}

/// The index of the entry that carries the given pair, if any.
pub fn find_index(t: &Vec<Entry>, k1: &Vec<u8>, k2: &Vec<u8>) -> (r: Option<usize>)
    ensures
        match r {
            Some(i) => i < t@.len() && entry_matches(t@[i as int], k1@, k2@),
            None => forall|j: int| 0 <= j < t@.len() ==> !(#[trigger] entry_matches(t@[j], k1@, k2@)),
        },
{
    let mut i: usize = 0;
    while i < t.len()
        invariant
            i <= t@.len(),
            forall|j: int| 0 <= j < i ==> !(#[trigger] entry_matches(t@[j], k1@, k2@)),
        decreases t@.len() - i,
    {
        let hit1: bool = bytes_eq(&t[i].key1, k1);
        let hit2: bool = bytes_eq(&t[i].key2, k2);
        if hit1 && hit2 {
            return Some(i);
        }
        i += 1;
    }
    None
}

/// The value stored under the given pair, 0 when the pair is absent.
pub fn lookup(t: &Vec<Entry>, k1: &Vec<u8>, k2: &Vec<u8>) -> (r: u128)
    requires
        table_keys_unique(t@),
    ensures
        r == table_lookup(t@, k1@, k2@),
{
    match find_index(t, k1, k2) {
        Some(i) => {
            let r: u128 = t[i].value;
            proof {
                lemma_lookup_at(t@, k1@, k2@, i as int);
            }
            r
        },
        None => {
            proof {
                lemma_lookup_absent(t@, k1@, k2@);
            }
            0
        },
    }
}

/// A byte-for-byte copy of a byte string.
fn clone_bytes(v: &Vec<u8>) -> (r: Vec<u8>)
    ensures
        r@ == v@,
{
    let r = v.clone();
    proof {
        assert(r@ =~= v@);
    }
    r
}

/// Stores `value` under the given pair, overwriting the entry that
/// carries it or appending a fresh one.
pub fn store(t: &mut Vec<Entry>, k1: &Vec<u8>, k2: &Vec<u8>, value: u128)
    requires
        table_keys_unique(old(t)@),
    ensures
        table_keys_unique(final(t)@),
        table_lookup(final(t)@, k1@, k2@) == value,
        forall|a: Seq<u8>, b: Seq<u8>|
            !(a == k1@ && b == k2@) ==> #[trigger] table_lookup(final(t)@, a, b) == table_lookup(
                old(t)@,
                a,
                b,
            ),
{
    match find_index(t, k1, k2) {
        Some(i) => {
            let e = Entry { key1: clone_bytes(k1), key2: clone_bytes(k2), value };
            proof {
                lemma_store_update(t@, i as int, e);
            }
            t[i] = e;
        },
        None => {
            let e = Entry { key1: clone_bytes(k1), key2: clone_bytes(k2), value };
            proof {
                lemma_store_push(t@, e);
            }
            t.push(e);
        },
    }
}

} // verus!
