//! Association lists keyed by strings: the tables the runtime manager
//! keeps (installed providers, selections, running instances, install
//! operations) are vectors whose keys never repeat, read as maps.
use vstd::prelude::*;

use crate::text::str_eq;

verus! {

/// No key occurs twice.
pub open spec fn keys_unique<V>(s: Seq<(Seq<char>, V)>) -> bool {
    forall|i: int, j: int|
        0 <= i < s.len() && 0 <= j < s.len() && i != j ==> (#[trigger] s[i]).0 != (#[trigger] s[j]).0
}

/// Whether some entry has key `k`.
pub open spec fn has_key<V>(s: Seq<(Seq<char>, V)>, k: Seq<char>) -> bool {
    exists|i: int| 0 <= i < s.len() && (#[trigger] s[i]).0 == k
}

/// The list read as a map from key to value.
pub open spec fn as_map<V>(s: Seq<(Seq<char>, V)>) -> Map<Seq<char>, V> {
    Map::new(
        |k: Seq<char>| has_key(s, k),
        |k: Seq<char>| s[choose|i: int| 0 <= i < s.len() && (#[trigger] s[i]).0 == k].1,
    )
}

/// The value at an index is what the map holds for that index's key.
pub proof fn lemma_as_map_at<V>(s: Seq<(Seq<char>, V)>, i: int)
    requires
        keys_unique(s),
        0 <= i < s.len(),
    ensures
        as_map(s).contains_key(s[i].0),
        as_map(s)[s[i].0] == s[i].1,
{
    let k = s[i].0;
    assert(has_key(s, k));
    let j = choose|j: int| 0 <= j < s.len() && (#[trigger] s[j]).0 == k;
    assert(s[j].0 == k);
    assert(j == i);
}

/// Appending an entry with a fresh key inserts it into the map.
pub proof fn lemma_as_map_push<V>(s: Seq<(Seq<char>, V)>, k: Seq<char>, v: V)
    requires
        keys_unique(s),
        !has_key(s, k),
    ensures
        keys_unique(s.push((k, v))),
        as_map(s.push((k, v))) == as_map(s).insert(k, v),
{
    let t = s.push((k, v));
    assert forall|i: int, j: int|
        0 <= i < t.len() && 0 <= j < t.len() && i != j implies (#[trigger] t[i]).0 != (
    #[trigger] t[j]).0 by {
        if i < s.len() && j < s.len() {
            assert(t[i] == s[i] && t[j] == s[j]);
        } else if i < s.len() {
            assert(t[i] == s[i]);
        } else {
            assert(t[j] == s[j]);
        }
    }
    assert forall|key: Seq<char>| #[trigger]
        as_map(t).contains_key(key) == as_map(s).insert(k, v).contains_key(key) by {
        if has_key(s, key) {
            let i = choose|i: int| 0 <= i < s.len() && (#[trigger] s[i]).0 == key;
            assert(t[i] == s[i]);
        }
        if key == k {
            assert(t[s.len() as int].0 == k);
        }
    }
    assert forall|key: Seq<char>| as_map(t).contains_key(key) implies #[trigger] as_map(t)[key]
        == as_map(s).insert(k, v)[key] by {
        if key == k {
            lemma_as_map_at(t, s.len() as int);
        } else {
            let i = choose|i: int| 0 <= i < t.len() && (#[trigger] t[i]).0 == key;
            assert(i < s.len());
            assert(t[i] == s[i]);
            lemma_as_map_at(t, i);
            lemma_as_map_at(s, i);
        }
    }
    assert(as_map(t) =~= as_map(s).insert(k, v));
}

/// Replacing the value at an index rebinds that key.
pub proof fn lemma_as_map_update<V>(s: Seq<(Seq<char>, V)>, i: int, v: V)
    requires
        keys_unique(s),
        0 <= i < s.len(),
    ensures
        keys_unique(s.update(i, (s[i].0, v))),
        as_map(s.update(i, (s[i].0, v))) == as_map(s).insert(s[i].0, v),
{
    let k = s[i].0;
    let t = s.update(i, (k, v));
    assert forall|a: int, b: int|
        0 <= a < t.len() && 0 <= b < t.len() && a != b implies (#[trigger] t[a]).0 != (
    #[trigger] t[b]).0 by {
        assert(t[a].0 == s[a].0 && t[b].0 == s[b].0);
    }
    assert forall|key: Seq<char>| #[trigger]
        as_map(t).contains_key(key) == as_map(s).insert(k, v).contains_key(key) by {
        if has_key(s, key) {
            let j = choose|j: int| 0 <= j < s.len() && (#[trigger] s[j]).0 == key;
            assert(t[j].0 == key);
        }
        if has_key(t, key) {
            let j = choose|j: int| 0 <= j < t.len() && (#[trigger] t[j]).0 == key;
            assert(s[j].0 == key);
        }
    }
    assert forall|key: Seq<char>| as_map(t).contains_key(key) implies #[trigger] as_map(t)[key]
        == as_map(s).insert(k, v)[key] by {
        let j = choose|j: int| 0 <= j < t.len() && (#[trigger] t[j]).0 == key;
        lemma_as_map_at(t, j);
        if j != i {
            assert(t[j] == s[j]);
            lemma_as_map_at(s, j);
        }
    }
    assert(as_map(t) =~= as_map(s).insert(k, v));
}

/// Removing the entry at an index removes its key.
pub proof fn lemma_as_map_remove<V>(s: Seq<(Seq<char>, V)>, i: int)
    requires
        keys_unique(s),
        0 <= i < s.len(),
    ensures
        keys_unique(s.remove(i)),
        as_map(s.remove(i)) == as_map(s).remove(s[i].0),
{
    let k = s[i].0;
    let t = s.remove(i);
    assert forall|a: int| 0 <= a < t.len() implies #[trigger] t[a] == s[if a < i {
        a
    } else {
        a + 1
    }] by {}
    assert forall|a: int, b: int|
        0 <= a < t.len() && 0 <= b < t.len() && a != b implies (#[trigger] t[a]).0 != (
    #[trigger] t[b]).0 by {
        let ia = if a < i {
            a
        } else {
            a + 1
        };
        let ib = if b < i {
            b
        } else {
            b + 1
        };
        assert(t[a] == s[ia] && t[b] == s[ib]);
    }
    assert forall|key: Seq<char>| #[trigger]
        as_map(t).contains_key(key) == as_map(s).remove(k).contains_key(key) by {
        if has_key(t, key) {
            let a = choose|a: int| 0 <= a < t.len() && (#[trigger] t[a]).0 == key;
            let ia = if a < i {
                a
            } else {
                a + 1
            };
            assert(t[a] == s[ia]);
            assert(ia != i);
            assert(s[ia].0 != k);
        }
        if has_key(s, key) && key != k {
            let j = choose|j: int| 0 <= j < s.len() && (#[trigger] s[j]).0 == key;
            assert(j != i);
            let a = if j < i {
                j
            } else {
                j - 1
            };
            assert(t[a] == s[j]);
        }
    }
    assert forall|key: Seq<char>| as_map(t).contains_key(key) implies #[trigger] as_map(t)[key]
        == as_map(s).remove(k)[key] by {
        let a = choose|a: int| 0 <= a < t.len() && (#[trigger] t[a]).0 == key;
        let ia = if a < i {
            a
        } else {
            a + 1
        };
        assert(t[a] == s[ia]);
        lemma_as_map_at(t, a);
        lemma_as_map_at(s, ia);
    }
    assert(as_map(t) =~= as_map(s).remove(k));
}

/// A key absent from the list is absent from the map.
pub proof fn lemma_as_map_absent<V>(s: Seq<(Seq<char>, V)>, k: Seq<char>)
    requires
        !has_key(s, k),
    ensures
        !as_map(s).contains_key(k),
{
}

/// Where key `k` sits (meaningful when `has_key(s, k)`).
pub open spec fn key_index<V>(s: Seq<(Seq<char>, V)>, k: Seq<char>) -> int {
    choose|i: int| 0 <= i < s.len() && (#[trigger] s[i]).0 == k
}

/// `s` with `k` bound to `v`: in place where `k` already sits, else
/// appended.
pub open spec fn upsert<V>(s: Seq<(Seq<char>, V)>, k: Seq<char>, v: V) -> Seq<(Seq<char>, V)> {
    if has_key(s, k) {
        s.update(key_index(s, k), (k, v))
    } else {
        s.push((k, v))
    }
}

/// `s` without the entry of key `k` (unchanged when there is none).
pub open spec fn delete<V>(s: Seq<(Seq<char>, V)>, k: Seq<char>) -> Seq<(Seq<char>, V)> {
    if has_key(s, k) {
        s.remove(key_index(s, k))
    } else {
        s
    }
}

/// Whatever `s` held, an upsert whose result has unique keys binds `k` to
/// `v`: reading `k` back gives `v`.
pub proof fn lemma_upsert_reads_back<V>(s: Seq<(Seq<char>, V)>, k: Seq<char>, v: V)
    requires
        keys_unique(upsert(s, k, v)),
    ensures
        as_map(upsert(s, k, v)).contains_key(k),
        as_map(upsert(s, k, v))[k] == v,
{
    let t = upsert(s, k, v);
    if has_key(s, k) {
        let i = key_index(s, k);
        assert(0 <= i < s.len() && s[i].0 == k);
        assert(t[i] == (k, v));
        lemma_as_map_at(t, i);
    } else {
        assert(t[s.len() as int] == (k, v));
        lemma_as_map_at(t, s.len() as int);
    }
}

/// With unique keys, the entry holding a key is the one `key_index`
/// names.
pub proof fn lemma_key_index<V>(s: Seq<(Seq<char>, V)>, i: int)
    requires
        keys_unique(s),
        0 <= i < s.len(),
    ensures
        has_key(s, s[i].0),
        key_index(s, s[i].0) == i,
{
    let k = s[i].0;
    assert(has_key(s, k));
    let j = key_index(s, k);
    assert(s[j].0 == k);
}

/// A table of string-keyed entries read through the views of its keys and
/// values.
pub open spec fn pairs<V: View>(v: Seq<(String, V)>) -> Seq<(Seq<char>, V::V)> {
    v.map_values(|p: (String, V)| (p.0@, p.1@))
}

/// The table read as a map.
pub open spec fn table<V: View>(v: Seq<(String, V)>) -> Map<Seq<char>, V::V> {
    as_map(pairs(v))
}

/// Position of the entry with key `k`, if any.
pub fn find_key<V: View>(v: &Vec<(String, V)>, k: &str) -> (r: Option<usize>)
    ensures
        match r {
            Some(i) => i < v@.len() && v@[i as int].0@ == k@,
            None => !has_key(pairs(v@), k@),
        },
{
    let mut i: usize = 0;
    while i < v.len()
        invariant
            i <= v@.len(),
            forall|j: int| 0 <= j < i ==> (#[trigger] v@[j]).0@ != k@,
        decreases v.len() - i,
    {
        if str_eq(v[i].0.as_str(), k) {
            return Some(i);
        }
        i += 1;
    }
    proof {
        if has_key(pairs(v@), k@) {
            let j = choose|j: int| 0 <= j < pairs(v@).len() && (#[trigger] pairs(v@)[j]).0 == k@;
            assert(v@[j].0@ == k@);
        }
    }
    None
}

/// The value stored under `k`, if any.
pub fn table_get<'a, V: View>(v: &'a Vec<(String, V)>, k: &str) -> (r: Option<&'a V>)
    requires
        keys_unique(pairs(v@)),
    ensures
        match r {
            Some(x) => table(v@).contains_key(k@) && x@ == table(v@)[k@],
            None => !table(v@).contains_key(k@),
        },
{
    match find_key(v, k) {
        Some(i) => {
            proof {
                lemma_as_map_at(pairs(v@), i as int);
            }
            Some(&v[i].1)
        },
        None => None,
    }
}

/// Binds `k` to `val`, replacing any previous binding.
pub fn table_insert<V: View>(v: &mut Vec<(String, V)>, k: String, val: V)
    requires
        keys_unique(pairs(old(v)@)),
    ensures
        keys_unique(pairs(final(v)@)),
        table(final(v)@) == table(old(v)@).insert(k@, val@),
        pairs(final(v)@) == upsert(pairs(old(v)@), k@, val@),
{
    let ghost kv = k@;
    let ghost vv = val@;
    match find_key(v, k.as_str()) {
        Some(i) => {
            proof {
                lemma_as_map_update(pairs(v@), i as int, vv);
                lemma_key_index(pairs(v@), i as int);
            }
            v.set(i, (k, val));
            assert(pairs(v@) =~= pairs(old(v)@).update(i as int, (pairs(old(v)@)[i as int].0, vv)));
        },
        None => {
            proof {
                lemma_as_map_push(pairs(v@), kv, vv);
            }
            v.push((k, val));
            assert(pairs(v@) =~= pairs(old(v)@).push((kv, vv)));
        },
    }
}

/// Removes the binding of `k`, returning its value if there was one.
pub fn table_remove<V: View>(v: &mut Vec<(String, V)>, k: &str) -> (r: Option<V>)
    requires
        keys_unique(pairs(old(v)@)),
    ensures
        keys_unique(pairs(final(v)@)),
        table(final(v)@) == table(old(v)@).remove(k@),
        pairs(final(v)@) == delete(pairs(old(v)@), k@),
        match r {
            Some(x) => table(old(v)@).contains_key(k@) && x@ == table(old(v)@)[k@],
            None => !table(old(v)@).contains_key(k@),
        },
{
    match find_key(v, k) {
        Some(i) => {
            proof {
                lemma_as_map_remove(pairs(v@), i as int);
                lemma_as_map_at(pairs(v@), i as int);
                lemma_key_index(pairs(v@), i as int);
            }
            let (_, x) = v.remove(i);
            assert(pairs(v@) =~= pairs(old(v)@).remove(i as int));
            Some(x)
        },
        None => {
            assert(table(old(v)@).remove(k@) =~= table(old(v)@));
            None
        },
    }
}

} // verus!
