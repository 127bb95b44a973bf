//! Association lists with first-match lookup.
//!
//! The wire formats deliver keyed collections (bookmark tags per bookmark
//! id, image and file maps per block id); the library carries them as
//! vectors of pairs and looks entries up, or takes them out, by their key.

use vstd::prelude::*;
use crate::text::str_eq;

verus! {

/// First value stored under an integer key.
pub open spec fn assoc_first_u64<T>(m: Seq<(u64, T)>, key: u64) -> Option<T>
    decreases m.len(),
{
    if m.len() == 0 {
        None
    } else if m[0].0 == key {
        Some(m[0].1)
    } else {
        assoc_first_u64(m.drop_first(), key)
    }
}

/// First value stored under a string key (keys compared by contents).
pub open spec fn assoc_first_str<T>(m: Seq<(String, T)>, key: Seq<char>) -> Option<T>
    decreases m.len(),
{
    if m.len() == 0 {
        None
    } else if m[0].0@ == key {
        Some(m[0].1)
    } else {
        assoc_first_str(m.drop_first(), key)
    }
}

proof fn lemma_assoc_first_u64_at<T>(m: Seq<(u64, T)>, key: u64, i: int)
    requires
        0 <= i < m.len(),
        m[i].0 == key,
        forall|j: int| 0 <= j < i ==> (#[trigger] m[j]).0 != key,
    ensures
        assoc_first_u64(m, key) == Some(m[i].1),
    decreases i,
{
    if i > 0 {
        lemma_assoc_first_u64_at(m.drop_first(), key, i - 1);
    }
}

proof fn lemma_assoc_first_u64_none<T>(m: Seq<(u64, T)>, key: u64)
    requires
        forall|j: int| 0 <= j < m.len() ==> (#[trigger] m[j]).0 != key,
    ensures
        assoc_first_u64(m, key) is None,
    decreases m.len(),
{
    if m.len() > 0 {
        lemma_assoc_first_u64_none(m.drop_first(), key);
    }
}

proof fn lemma_assoc_remove_u64<T>(m: Seq<(u64, T)>, i: int, k: u64)
    requires
        0 <= i < m.len(),
        m[i].0 != k,
    ensures
        assoc_first_u64(m.remove(i), k) == assoc_first_u64(m, k),
    decreases i,
{
    if i == 0 {
        assert(m.remove(0) =~= m.drop_first());
    } else {
        assert(m.remove(i).drop_first() =~= m.drop_first().remove(i - 1));
        lemma_assoc_remove_u64(m.drop_first(), i - 1, k);
        assert(m.remove(i)[0] == m[0]);
    }
}

/// Take the first entry stored under `key` out of the list, if any.
/// Lookups under every other key are unaffected.
pub fn assoc_take_u64<T>(m: &mut Vec<(u64, T)>, key: u64) -> (r: Option<T>)
    ensures
        r == assoc_first_u64(old(m)@, key),
        r is None ==> final(m)@ == old(m)@,
        r is Some ==> final(m)@.len() == old(m)@.len() - 1,
        forall|k: u64| k != key ==> assoc_first_u64(final(m)@, k) == assoc_first_u64(old(m)@, k),
{
    let mut i: usize = 0;
    while i < m.len()
        invariant
            0 <= i <= m@.len(),
            m@ == old(m)@,
            forall|j: int| 0 <= j < i ==> (#[trigger] m@[j]).0 != key,
        decreases m@.len() - i,
    {
        if m[i].0 == key {
            proof {
                lemma_assoc_first_u64_at(m@, key, i as int);
            }
            let entry = m.remove(i);
            proof {
                assert forall|k: u64| k != key implies assoc_first_u64(m@, k) == assoc_first_u64(
                    old(m)@,
                    k,
                ) by {
                    lemma_assoc_remove_u64(old(m)@, i as int, k);
                }
            }
            return Some(entry.1);
        }
        i = i + 1;
    }
    proof {
        lemma_assoc_first_u64_none(m@, key);
    }
    None
}

proof fn lemma_assoc_first_str_at<T>(m: Seq<(String, T)>, key: Seq<char>, i: int)
    requires
        0 <= i < m.len(),
        m[i].0@ == key,
        forall|j: int| 0 <= j < i ==> (#[trigger] m[j]).0@ != key,
    ensures
        assoc_first_str(m, key) == Some(m[i].1),
    decreases i,
{
    if i > 0 {
        lemma_assoc_first_str_at(m.drop_first(), key, i - 1);
    }
}

/// A key none of the entries hold is not found.
pub proof fn lemma_assoc_first_str_none<T>(m: Seq<(String, T)>, key: Seq<char>)
    requires
        forall|j: int| 0 <= j < m.len() ==> (#[trigger] m[j]).0@ != key,
    ensures
        assoc_first_str(m, key) is None,
    decreases m.len(),
{
    if m.len() > 0 {
        lemma_assoc_first_str_none(m.drop_first(), key);
    }
}

proof fn lemma_assoc_remove_str<T>(m: Seq<(String, T)>, i: int, k: Seq<char>)
    requires
        0 <= i < m.len(),
        m[i].0@ != k,
    ensures
        assoc_first_str(m.remove(i), k) == assoc_first_str(m, k),
    decreases i,
{
    if i == 0 {
        assert(m.remove(0) =~= m.drop_first());
    } else {
        assert(m.remove(i).drop_first() =~= m.drop_first().remove(i - 1));
        lemma_assoc_remove_str(m.drop_first(), i - 1, k);
        assert(m.remove(i)[0] == m[0]);
    }
}

/// String keys pairwise distinct by contents.
pub open spec fn distinct_keys<T>(m: Seq<(String, T)>) -> bool {
    forall|i: int, j: int| 0 <= i < j < m.len() ==> (#[trigger] m[i]).0@ != (#[trigger] m[j]).0@
}

/// Take the first entry stored under `key` out of the list, if any.
/// Lookups under every other key are unaffected; with distinct keys, the
/// taken key is gone afterwards.
pub fn assoc_take_str<T>(m: &mut Vec<(String, T)>, key: &str) -> (r: Option<T>)
    ensures
        r == assoc_first_str(old(m)@, key@),
        r is None ==> final(m)@ == old(m)@,
        r matches Some(v) ==> exists|i: int|
            0 <= i < old(m)@.len() && (#[trigger] old(m)@[i]).0@ == key@ && v == old(m)@[i].1
                && final(m)@ == old(m)@.remove(i) && (forall|j: int|
                0 <= j < i ==> (#[trigger] old(m)@[j]).0@ != key@),
        forall|k: Seq<char>| k != key@ ==> assoc_first_str(final(m)@, k) == assoc_first_str(
            old(m)@,
            k,
        ),
        distinct_keys(old(m)@) ==> distinct_keys(final(m)@) && assoc_first_str(
            final(m)@,
            key@,
        ) is None,
{
    let mut i: usize = 0;
    while i < m.len()
        invariant
            0 <= i <= m@.len(),
            m@ == old(m)@,
            forall|j: int| 0 <= j < i ==> (#[trigger] m@[j]).0@ != key@,
        decreases m@.len() - i,
    {
        if str_eq(m[i].0.as_str(), key) {
            proof {
                lemma_assoc_first_str_at(m@, key@, i as int);
            }
            let ghost pre = m@;
            let ghost gi = i as int;
            let entry = m.remove(i);
            proof {
                assert forall|k: Seq<char>| k != key@ implies assoc_first_str(m@, k)
                    == assoc_first_str(pre, k) by {
                    lemma_assoc_remove_str(pre, gi, k);
                }
                if distinct_keys(pre) {
                    assert forall|a: int, b: int|
                        0 <= a < b < m@.len() implies (#[trigger] m@[a]).0@ != (
                    #[trigger] m@[b]).0@ by {
                        let a0 = if a < gi {
                            a
                        } else {
                            a + 1
                        };
                        let b0 = if b < gi {
                            b
                        } else {
                            b + 1
                        };
                        assert(m@[a] == pre[a0]);
                        assert(m@[b] == pre[b0]);
                    }
                    assert forall|j: int| 0 <= j < m@.len() implies (#[trigger] m@[j]).0@
                        != key@ by {
                        let j0 = if j < gi {
                            j
                        } else {
                            j + 1
                        };
                        assert(m@[j] == pre[j0]);
                        if j0 > gi {
                            assert(pre[gi].0@ != pre[j0].0@);
                        }
                    }
                    lemma_assoc_first_str_none(m@, key@);
                }
            }
            return Some(entry.1);
        }
        i = i + 1;
    }
    proof {
        lemma_assoc_first_str_none(m@, key@);
    }
    None
}

/// Look up the first value stored under a string key, copied out.
pub fn assoc_get_str_u64(m: &Vec<(String, u64)>, key: &str) -> (r: Option<u64>)
    ensures
        r == assoc_first_str(m@, key@),
{
    let mut i: usize = 0;
    while i < m.len()
        invariant
            0 <= i <= m@.len(),
            forall|j: int| 0 <= j < i ==> (#[trigger] m@[j]).0@ != key@,
        decreases m@.len() - i,
    {
        if str_eq(m[i].0.as_str(), key) {
            proof {
                lemma_assoc_first_str_at(m@, key@, i as int);
            }
            return Some(m[i].1);
        }
        i = i + 1;
    }
    proof {
        lemma_assoc_first_str_none(m@, key@);
    }
    None
}

} // verus!
