//! The reference in-memory backend: a hash table from table name to that
//! table's pairs, held as a list whose keys are pairwise distinct.

use vstd::hash_map::StringHashMap;
use vstd::prelude::*;

use crate::model::{
    has_key, pair_keys_distinct, pairs_view, store_delete, store_set, table_of, StoreModel,
};
use crate::storage::Storage;
use crate::types::Kvpair;

verus! {

/// The store a name-to-pairs table denotes.
spec fn contents_of(tm: Map<Seq<char>, Vec<Kvpair>>) -> StoreModel {
    Map::new(|t: Seq<char>| tm.contains_key(t), |t: Seq<char>| pairs_view(tm[t]@))
}

/// With pairwise distinct keys, each pair of the list is what the denoted
/// map holds under its key; and every key of the map is carried by a pair.
proof fn lemma_pairs_view_props(s: Seq<Kvpair>)
    requires
        pair_keys_distinct(s),
    ensures
        forall|i: int|
            0 <= i < s.len() ==> pairs_view(s).contains_key((#[trigger] s[i]).key@)
                && pairs_view(s)[s[i].key@] == s[i].value@,
        forall|k: Seq<char>| #[trigger] pairs_view(s).contains_key(k) ==> has_key(s, k),
    decreases s.len(),
{
    if s.len() > 0 {
        let t = s.drop_last();
        assert(pair_keys_distinct(t));
        lemma_pairs_view_props(t);
        assert forall|i: int|
            0 <= i < s.len() implies pairs_view(s).contains_key((#[trigger] s[i]).key@)
            && pairs_view(s)[s[i].key@] == s[i].value@ by {
            if i < s.len() - 1 {
                assert(t[i] == s[i]);
                assert(s[i].key@ != s[s.len() - 1].key@);
            }
        }
        assert forall|k: Seq<char>| pairs_view(s).contains_key(k) implies has_key(s, k) by {
            if k == s.last().key@ {
                assert((s[s.len() - 1]).key@ == k);
            } else {
                assert(pairs_view(t).contains_key(k));
                let i = choose|i: int| 0 <= i < t.len() && (#[trigger] t[i]).key@ == k;
                assert((s[i]).key@ == k);
            }
        }
    }
}

/// Appending a pair denotes inserting it into the map.
proof fn lemma_pairs_view_push(s: Seq<Kvpair>, p: Kvpair)
    ensures
        pairs_view(s.push(p)) == pairs_view(s).insert(p.key@, p.value@),
{
    assert(s.push(p).drop_last() =~= s);
    assert(s.push(p).last() == p);
}

/// With pairwise distinct keys, removing the pair at `i` denotes removing
/// its key from the map; the rest keeps distinct keys and no longer carries
/// the removed one.
proof fn lemma_pairs_view_remove(s: Seq<Kvpair>, i: int)
    requires
        pair_keys_distinct(s),
        0 <= i < s.len(),
    ensures
        pairs_view(s.remove(i)) == pairs_view(s).remove(s[i].key@),
        pair_keys_distinct(s.remove(i)),
        !has_key(s.remove(i), s[i].key@),
    decreases s.len(),
{
    s.remove_ensures(i);
    let r = s.remove(i);
    assert forall|a: int, b: int| 0 <= a < b < r.len() implies r[a].key@ != r[b].key@ by {
        let oa: int = if a < i { a } else { a + 1 };
        let ob: int = if b < i { b } else { b + 1 };
        assert(r[a] == s[oa] && r[b] == s[ob]);
    }
    assert forall|a: int| 0 <= a < r.len() implies (#[trigger] r[a]).key@ != s[i].key@ by {
        let oa: int = if a < i { a } else { a + 1 };
        assert(r[a] == s[oa] && oa != i);
        if oa < i {
            assert(s[oa].key@ != s[i].key@);
        } else {
            assert(s[i].key@ != s[oa].key@);
        }
    }
    if i == s.len() - 1 {
        assert(r =~= s.drop_last());
        lemma_pairs_view_props(r);
        if pairs_view(r).contains_key(s[i].key@) {
            let w = choose|w: int| 0 <= w < r.len() && (#[trigger] r[w]).key@ == s[i].key@;
            assert(false);
        }
        assert(pairs_view(s).remove(s[i].key@) =~= pairs_view(r));
    } else {
        let t = s.drop_last();
        assert(pair_keys_distinct(t));
        lemma_pairs_view_remove(t, i);
        t.remove_ensures(i);
        assert(r.drop_last() =~= t.remove(i));
        assert(r.last() == s.last());
        assert(pairs_view(r) == pairs_view(t.remove(i)).insert(s.last().key@, s.last().value@));
        assert(s[i].key@ != s[s.len() - 1].key@);
        assert(pairs_view(t).remove(s[i].key@).insert(s.last().key@, s.last().value@)
            =~= pairs_view(t).insert(s.last().key@, s.last().value@).remove(s[i].key@));
        assert(pairs_view(s) == pairs_view(t).insert(s.last().key@, s.last().value@));
    }
}

/// Replacing the pairs of one table denotes inserting the map they denote.
proof fn lemma_contents_insert(tm: Map<Seq<char>, Vec<Kvpair>>, t: Seq<char>, p: Vec<Kvpair>)
    ensures
        contents_of(tm.insert(t, p)) == contents_of(tm).insert(t, pairs_view(p@)),
{
    let a = contents_of(tm.insert(t, p));
    let b = contents_of(tm).insert(t, pairs_view(p@));
    assert forall|x: Seq<char>| #[trigger] a.contains_key(x) implies b.contains_key(x) && a[x]
        == b[x] by {
        if x != t {
            assert(tm.contains_key(x));
        }
    }
    assert forall|x: Seq<char>| #[trigger] b.contains_key(x) implies a.contains_key(x) by {
        assert(tm.insert(t, p).contains_key(x));
    }
    assert(a =~= b);
}

/// What the denoted store holds under one table name.
proof fn lemma_contents_lookup(tm: Map<Seq<char>, Vec<Kvpair>>, t: Seq<char>)
    ensures
        contents_of(tm).contains_key(t) == tm.contains_key(t),
        tm.contains_key(t) ==> contents_of(tm)[t] == pairs_view(tm[t]@),
{
}

/// The index of the first pair carrying `key`, if any pair does.
fn find_key(pairs: &Vec<Kvpair>, key: &String) -> (r: Option<usize>)
    ensures
        match r {
            Some(i) => i < pairs.len() && pairs@[i as int].key@ == key@,
            None => forall|i: int| 0 <= i < pairs@.len() ==> (#[trigger] pairs@[i]).key@ != key@,
        },
{
    let mut j: usize = 0;
    while j < pairs.len()
        invariant
            j <= pairs.len(),
            forall|l: int| 0 <= l < j ==> (#[trigger] pairs@[l]).key@ != key@,
        decreases pairs.len() - j,
    {
        if pairs[j].key == *key {
            return Some(j);
        }
        j += 1;
    }
    None
}

/// A fresh copy of a list of pairs, equal to it pair for pair.
fn clone_pairs(v: &Vec<Kvpair>) -> (r: Vec<Kvpair>)
    ensures
        r@ == v@,
{
    let r = v.clone();
    proof {
        assert forall|i: int| 0 <= i < v@.len() implies r@[i] == v@[i] by {
            assert(cloned::<Kvpair>(v@[i], r@[i]));
        }
        assert(r@ =~= v@);
    }
    r
}

/// Looks `key` up in one table's pairs.
fn pairs_get(pairs: &Vec<Kvpair>, key: &String) -> (r: Option<String>)
    requires
        pair_keys_distinct(pairs@),
    ensures
        r.deep_view() == (if pairs_view(pairs@).contains_key(key@) {
            Some(pairs_view(pairs@)[key@])
        } else {
            None::<Seq<char>>
        }),
{
    proof {
        lemma_pairs_view_props(pairs@);
    }
    let found = find_key(pairs, key);
    match found {
        Some(i) => Some(pairs[i].value.clone()),
        None => {
            proof {
                if pairs_view(pairs@).contains_key(key@) {
                    let w = choose|w: int|
                        0 <= w < pairs@.len() && (#[trigger] pairs@[w]).key@ == key@;
                    assert(false);
                }
            }
            None
        },
    }
}

/// Writes `value` under `key` in one table's pairs, returning the prior
/// value if the key was present.
fn pairs_set(pairs: &mut Vec<Kvpair>, key: String, value: String) -> (prev: Option<String>)
    requires
        pair_keys_distinct(old(pairs)@),
    ensures
        pair_keys_distinct(final(pairs)@),
        pairs_view(final(pairs)@) == pairs_view(old(pairs)@).insert(key@, value@),
        prev.deep_view() == (if pairs_view(old(pairs)@).contains_key(key@) {
            Some(pairs_view(old(pairs)@)[key@])
        } else {
            None::<Seq<char>>
        }),
{
    let ghost s0 = pairs@;
    proof {
        lemma_pairs_view_props(s0);
    }
    let found = find_key(pairs, &key);
    match found {
        Some(i) => {
            let prior = pairs.remove(i);
            proof {
                lemma_pairs_view_remove(s0, i as int);
            }
            let ghost s1 = pairs@;
            pairs.push(Kvpair { key, value });
            proof {
                lemma_pairs_view_push(s1, pairs@.last());
                assert(pairs_view(s0).remove(key@).insert(key@, value@)
                    =~= pairs_view(s0).insert(key@, value@));
                assert forall|a: int, b: int|
                    0 <= a < b < pairs@.len() implies (#[trigger] pairs@[a]).key@
                    != (#[trigger] pairs@[b]).key@ by {
                    if b == pairs@.len() - 1 {
                        assert(pairs@[a] == s1[a]);
                        assert(s1[a].key@ != key@);
                    } else {
                        assert(pairs@[a] == s1[a] && pairs@[b] == s1[b]);
                    }
                }
            }
            Some(prior.value)
        },
        None => {
            let ghost s1 = pairs@;
            pairs.push(Kvpair { key, value });
            proof {
                lemma_pairs_view_push(s1, pairs@.last());
                if pairs_view(s0).contains_key(key@) {
                    let w = choose|w: int| 0 <= w < s0.len() && (#[trigger] s0[w]).key@ == key@;
                    assert(false);
                }
                assert forall|a: int, b: int|
                    0 <= a < b < pairs@.len() implies (#[trigger] pairs@[a]).key@
                    != (#[trigger] pairs@[b]).key@ by {
                    if b == pairs@.len() - 1 {
                        assert(pairs@[a] == s1[a]);
                    } else {
                        assert(pairs@[a] == s1[a] && pairs@[b] == s1[b]);
                    }
                }
            }
            None
        },
    }
}

/// Removes `key` from one table's pairs, returning the removed value if the
/// key was present.
fn pairs_delete(pairs: &mut Vec<Kvpair>, key: &String) -> (prev: Option<String>)
    requires
        pair_keys_distinct(old(pairs)@),
    ensures
        pair_keys_distinct(final(pairs)@),
        pairs_view(final(pairs)@) == pairs_view(old(pairs)@).remove(key@),
        prev.deep_view() == (if pairs_view(old(pairs)@).contains_key(key@) {
            Some(pairs_view(old(pairs)@)[key@])
        } else {
            None::<Seq<char>>
        }),
{
    let ghost s0 = pairs@;
    proof {
        lemma_pairs_view_props(s0);
    }
    let found = find_key(pairs, key);
    match found {
        Some(i) => {
            let prior = pairs.remove(i);
            proof {
                lemma_pairs_view_remove(s0, i as int);
            }
            Some(prior.value)
        },
        None => {
            proof {
                if pairs_view(s0).contains_key(key@) {
                    let w = choose|w: int| 0 <= w < s0.len() && (#[trigger] s0[w]).key@ == key@;
                    assert(false);
                }
                assert(pairs_view(s0).remove(key@) =~= pairs_view(s0));
            }
            None
        },
    }
}

/// The reference backend: one hash table from table name to that table's
/// pairs.
pub struct MemTable {
    tables: StringHashMap<Vec<Kvpair>>,
}

impl MemTable {
    /// A fresh backend holding no table.
    pub fn new() -> (s: Self)
        ensures
            s.inv(),
            s.contents() == Map::<Seq<char>, Map<Seq<char>, Seq<char>>>::empty(),
    {
        let s = MemTable { tables: StringHashMap::new() };
        proof {
            assert(s.contents() =~= Map::<Seq<char>, Map<Seq<char>, Seq<char>>>::empty());
        }
        s
    }
}

impl Storage for MemTable {
    closed spec fn inv(&self) -> bool {
        forall|t: Seq<char>|
            #[trigger] self.tables@.contains_key(t) ==> pair_keys_distinct(self.tables@[t]@)
    }

    closed spec fn contents(&self) -> StoreModel {
        contents_of(self.tables@)
    }

    fn get(&self, table: &String, key: &String) -> (r: Option<String>) {
        proof {
            lemma_contents_lookup(self.tables@, table@);
        }
        match self.tables.get(table.as_str()) {
            Some(pairs) => pairs_get(pairs, key),
            None => None,
        }
    }

    fn set(&mut self, table: String, key: String, value: String) -> (r: Option<String>) {
        let ghost m0 = self.contents();
        let ghost tm0 = self.tables@;
        let ghost gt = table@;
        let ghost gk = key@;
        let ghost gv = value@;
        proof {
            lemma_contents_lookup(tm0, gt);
        }
        let mut pairs: Vec<Kvpair> = match self.tables.get(table.as_str()) {
            Some(v) => clone_pairs(v),
            None => Vec::new(),
        };
        let ghost p0 = pairs@;
        let prev = pairs_set(&mut pairs, key, value);
        let ghost p1 = pairs;
        self.tables.insert(table, pairs);
        proof {
            lemma_contents_insert(tm0, gt, p1);
            assert(pairs_view(p0) == table_of(m0, gt));
            assert(self.contents() =~= store_set(m0, gt, gk, gv));
            assert forall|t: Seq<char>| #[trigger] self.tables@.contains_key(t) implies
                pair_keys_distinct(self.tables@[t]@) by {
                if t != gt {
                    assert(tm0.contains_key(t));
                }
            }
        }
        prev
    }

    fn contains(&self, table: &String, key: &String) -> (r: bool) {
        proof {
            lemma_contents_lookup(self.tables@, table@);
        }
        match self.tables.get(table.as_str()) {
            Some(pairs) => {
                let found = find_key(pairs, key);
                proof {
                    lemma_pairs_view_props(pairs@);
                    if found is None && pairs_view(pairs@).contains_key(key@) {
                        let w = choose|w: int|
                            0 <= w < pairs@.len() && (#[trigger] pairs@[w]).key@ == key@;
                        assert(false);
                    }
                }
                found.is_some()
            },
            None => false,
        }
    }

    fn delete(&mut self, table: &String, key: &String) -> (r: Option<String>) {
        let ghost m0 = self.contents();
        let ghost tm0 = self.tables@;
        let ghost gt = table@;
        let ghost gk = key@;
        proof {
            lemma_contents_lookup(tm0, gt);
        }
        match self.tables.get(table.as_str()) {
            Some(v) => {
                let mut pairs = clone_pairs(v);
                let ghost p0 = pairs@;
                let prev = pairs_delete(&mut pairs, key);
                let ghost p1 = pairs;
                let owned = table.clone();
                self.tables.insert(owned, pairs);
                proof {
                    lemma_contents_insert(tm0, gt, p1);
                    assert(pairs_view(p0) == table_of(m0, gt));
                    assert(self.contents() =~= store_delete(m0, gt, gk));
                    assert forall|t: Seq<char>| #[trigger] self.tables@.contains_key(t) implies
                        pair_keys_distinct(self.tables@[t]@) by {
                        if t != gt {
                            assert(tm0.contains_key(t));
                        }
                    }
                }
                prev
            },
            None => None,
        }
    }

    fn get_all(&self, table: &String) -> (r: Vec<Kvpair>) {
        proof {
            lemma_contents_lookup(self.tables@, table@);
        }
        match self.tables.get(table.as_str()) {
            Some(pairs) => clone_pairs(pairs),
            None => {
                let empty: Vec<Kvpair> = Vec::new();
                proof {
                    assert(pairs_view(empty@) == Map::<Seq<char>, Seq<char>>::empty());
                }
                empty
            },
        }
    }
}

} // verus!
