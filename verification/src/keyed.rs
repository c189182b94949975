//! Collections of records keyed by an id string. A vector whose records have
//! distinct ids stands for a map from id to record; lookups, upserts and
//! removals are stated over that map.
use crate::text::str_eq;
use vstd::prelude::*;

verus! {

/// A record with an id.
pub trait Keyed: View {
    /// The record's id.
    spec fn key(&self) -> Seq<char>;

    /// The record's id as a string.
    fn key_ref(&self) -> (r: &String)
        ensures
            r@ == self.key(),
    ;
}

/// No two records share an id.
pub open spec fn unique_keys<T: Keyed>(s: Seq<T>) -> bool {
    forall|i: int, j: int|
        0 <= i < s.len() && 0 <= j < s.len() && i != j ==> #[trigger] s[i].key() != #[trigger] s[j].key()
}

/// Some record has id `k`.
pub open spec fn has_key<T: Keyed>(s: Seq<T>, k: Seq<char>) -> bool {
    exists|i: int| 0 <= i < s.len() && #[trigger] s[i].key() == k
}

/// The position of a record with id `k`.
pub open spec fn key_index<T: Keyed>(s: Seq<T>, k: Seq<char>) -> int {
    choose|i: int| 0 <= i < s.len() && #[trigger] s[i].key() == k
}

/// The map from id to record (by value) that the records stand for.
pub open spec fn key_map<T: Keyed>(s: Seq<T>) -> Map<Seq<char>, T::V> {
    Map::new(|k: Seq<char>| has_key(s, k), |k: Seq<char>| s[key_index(s, k)]@)
}

pub proof fn lemma_key_index<T: Keyed>(s: Seq<T>, i: int)
    requires
        unique_keys(s),
        0 <= i < s.len(),
    ensures
        key_index(s, s[i].key()) == i,
        has_key(s, s[i].key()),
        key_map(s).contains_key(s[i].key()),
        key_map(s)[s[i].key()] == s[i]@,
{
    assert(has_key(s, s[i].key()));
    let j = key_index(s, s[i].key());
    assert(s[j].key() == s[i].key());
}

/// Replacing a record by one with the same id updates the map at that id.
pub proof fn lemma_key_map_update<T: Keyed>(s: Seq<T>, i: int, x: T)
    requires
        unique_keys(s),
        0 <= i < s.len(),
        x.key() == s[i].key(),
    ensures
        unique_keys(s.update(i, x)),
        key_map(s.update(i, x)) == key_map(s).insert(x.key(), x@),
{
    let t = s.update(i, x);
    assert(unique_keys(t)) by {
        assert forall|a: int, b: int|
            0 <= a < t.len() && 0 <= b < t.len() && a != b implies #[trigger] t[a].key()
            != #[trigger] t[b].key() by {
            assert(s[a].key() != s[b].key());
        }
    }
    assert forall|k: Seq<char>| has_key(t, k) == has_key(s, k) by {
        if has_key(t, k) {
            let j = choose|j: int| 0 <= j < t.len() && #[trigger] t[j].key() == k;
            assert(s[j].key() == k);
        }
        if has_key(s, k) {
            let j = choose|j: int| 0 <= j < s.len() && #[trigger] s[j].key() == k;
            assert(t[j].key() == k);
        }
    }
    assert forall|k: Seq<char>| #[trigger] key_map(t).contains_key(k) implies key_map(t)[k]
        == key_map(s).insert(x.key(), x@)[k] by {
        let j = key_index(t, k);
        lemma_key_index(t, j);
        if j != i {
            assert(s[j].key() == k);
            lemma_key_index(s, j);
        }
    }
    assert(key_map(t) =~= key_map(s).insert(x.key(), x@));
}

/// Appending a record with a new id adds it to the map.
pub proof fn lemma_key_map_push<T: Keyed>(s: Seq<T>, x: T)
    requires
        unique_keys(s),
        !has_key(s, x.key()),
    ensures
        unique_keys(s.push(x)),
        key_map(s.push(x)) == key_map(s).insert(x.key(), x@),
        has_key(s.push(x), x.key()),
{
    let t = s.push(x);
    assert(unique_keys(t)) by {
        assert forall|a: int, b: int|
            0 <= a < t.len() && 0 <= b < t.len() && a != b implies #[trigger] t[a].key()
            != #[trigger] t[b].key() by {
            if a < s.len() && b < s.len() {
                assert(s[a].key() != s[b].key());
            } else if a < s.len() {
                assert(t[a].key() == s[a].key());
            } else {
                assert(t[b].key() == s[b].key());
            }
        }
    }
    assert(t[s.len() as int] == x);
    assert forall|k: Seq<char>| has_key(t, k) == (has_key(s, k) || k == x.key()) by {
        if has_key(t, k) {
            let j = choose|j: int| 0 <= j < t.len() && #[trigger] t[j].key() == k;
            if j < s.len() {
                assert(s[j].key() == k);
            }
        }
        if has_key(s, k) {
            let j = choose|j: int| 0 <= j < s.len() && #[trigger] s[j].key() == k;
            assert(t[j].key() == k);
        }
    }
    assert forall|k: Seq<char>| #[trigger] key_map(t).contains_key(k) implies key_map(t)[k]
        == key_map(s).insert(x.key(), x@)[k] by {
        let j = key_index(t, k);
        lemma_key_index(t, j);
        if j < s.len() {
            assert(s[j].key() == k);
            lemma_key_index(s, j);
        }
    }
    assert(key_map(t) =~= key_map(s).insert(x.key(), x@));
}

/// Removing the record at `i` removes its id from the map.
pub proof fn lemma_key_map_remove<T: Keyed>(s: Seq<T>, i: int)
    requires
        unique_keys(s),
        0 <= i < s.len(),
    ensures
        unique_keys(s.remove(i)),
        key_map(s.remove(i)) == key_map(s).remove(s[i].key()),
        !has_key(s.remove(i), s[i].key()),
{
    let t = s.remove(i);
    let k0 = s[i].key();
    assert forall|a: int| 0 <= a < t.len() implies #[trigger] t[a] == s[if a < i {
        a
    } else {
        a + 1
    }] by {}
    assert(unique_keys(t)) by {
        assert forall|a: int, b: int|
            0 <= a < t.len() && 0 <= b < t.len() && a != b implies #[trigger] t[a].key()
            != #[trigger] t[b].key() by {
            let a2 = if a < i {
                a
            } else {
                a + 1
            };
            let b2 = if b < i {
                b
            } else {
                b + 1
            };
            assert(s[a2].key() != s[b2].key());
        }
    }
    assert forall|k: Seq<char>| has_key(t, k) == (has_key(s, k) && k != k0) by {
        if has_key(t, k) {
            let j = choose|j: int| 0 <= j < t.len() && #[trigger] t[j].key() == k;
            let j2 = if j < i {
                j
            } else {
                j + 1
            };
            assert(s[j2].key() == k);
            assert(j2 != i);
            assert(s[j2].key() != s[i].key());
        }
        if has_key(s, k) && k != k0 {
            let j = choose|j: int| 0 <= j < s.len() && #[trigger] s[j].key() == k;
            assert(j != i);
            if j < i {
                assert(t[j].key() == k);
            } else {
                assert(t[j - 1].key() == k);
            }
        }
    }
    assert forall|k: Seq<char>| #[trigger] key_map(t).contains_key(k) implies key_map(t)[k]
        == key_map(s).remove(k0)[k] by {
        let j = key_index(t, k);
        lemma_key_index(t, j);
        let j2 = if j < i {
            j
        } else {
            j + 1
        };
        assert(s[j2].key() == k);
        lemma_key_index(s, j2);
    }
    assert(key_map(t) =~= key_map(s).remove(k0));
}

/// The position of the record with id `k`, if any.
pub fn find_key<T: Keyed>(v: &Vec<T>, k: &str) -> (r: Option<usize>)
    ensures
        r matches Some(i) ==> i < v.len() && v@[i as int].key() == k@,
        r is None ==> !has_key(v@, k@),
        r matches Some(i) ==> (unique_keys(v@) ==> i == key_index(v@, k@)),
{
    let mut i: usize = 0;
    while i < v.len()
        invariant
            i <= v.len(),
            forall|j: int| 0 <= j < i ==> #[trigger] v@[j].key() != k@,
        decreases v.len() - i,
    {
        if str_eq(v[i].key_ref().as_str(), k) {
            proof {
                if unique_keys(v@) {
                    lemma_key_index(v@, i as int);
                }
            }
            return Some(i);
        }
        i = i + 1;
    }
    None
}

/// Inserts `item`, replacing the record with the same id in place if there
/// is one (as `HashMap::insert` replaces the value of a present key).
pub fn upsert<T: Keyed>(v: &mut Vec<T>, item: T) -> (replaced: bool)
    requires
        unique_keys(old(v)@),
    ensures
        unique_keys(final(v)@),
        key_map(final(v)@) == key_map(old(v)@).insert(item.key(), item@),
        replaced == has_key(old(v)@, item.key()),
        replaced ==> final(v)@ == old(v)@.update(key_index(old(v)@, item.key()), item),
        !replaced ==> final(v)@ == old(v)@.push(item),
        has_key(final(v)@, item.key()),
{
    let ghost k = item.key();
    let found = find_key(v, item.key_ref().as_str());
    match found {
        Some(i) => {
            proof {
                lemma_key_map_update(v@, i as int, item);
                lemma_key_index(v@.update(i as int, item), i as int);
            }
            v.set(i, item);
            true
        },
        None => {
            proof {
                lemma_key_map_push(v@, item);
            }
            v.push(item);
            false
        },
    }
}

/// Removes the record with id `k`, returning it.
pub fn remove_key<T: Keyed>(v: &mut Vec<T>, k: &str) -> (r: Option<T>)
    requires
        unique_keys(old(v)@),
    ensures
        unique_keys(final(v)@),
        r is Some == has_key(old(v)@, k@),
        key_map(final(v)@) == key_map(old(v)@).remove(k@),
        r matches Some(x) ==> x@ == key_map(old(v)@)[k@] && x.key() == k@,
        r is Some ==> final(v)@ == old(v)@.remove(key_index(old(v)@, k@)),
        r is None ==> final(v)@ == old(v)@,
        !has_key(final(v)@, k@),
{
    match find_key(v, k) {
        Some(i) => {
            proof {
                lemma_key_map_remove(v@, i as int);
                lemma_key_index(v@, i as int);
            }
            let x = v.remove(i);
            Some(x)
        },
        None => {
            assert(key_map(v@) =~= key_map(v@).remove(k@));
            None
        },
    }
}

/// The characters of each string of a list.
pub open spec fn views(v: Seq<String>) -> Seq<Seq<char>> {
    v.map_values(|s: String| s@)
}

/// Adds `s` to a list of distinct strings unless it is already there (as
/// `HashSet::insert` does).
pub fn insert_unique(v: &mut Vec<String>, s: String)
    requires
        views(old(v)@).no_duplicates(),
    ensures
        views(final(v)@).no_duplicates(),
        views(final(v)@).to_set() == views(old(v)@).to_set().insert(s@),
        views(old(v)@).contains(s@) ==> final(v)@ == old(v)@,
        !views(old(v)@).contains(s@) ==> final(v)@ == old(v)@.push(s),
{
    let mut i: usize = 0;
    while i < v.len()
        invariant
            i <= v.len(),
            views(v@).no_duplicates(),
            forall|j: int| 0 <= j < i ==> v@[j]@ != s@,
        decreases v.len() - i,
    {
        if v[i] == s {
            assert(views(v@)[i as int] == s@);
            assert(views(v@).to_set().insert(s@) =~= views(v@).to_set());
            return;
        }
        i = i + 1;
    }
    let ghost old_v = views(v@);
    assert(!old_v.contains(s@)) by {
        if old_v.contains(s@) {
            let j = choose|j: int| 0 <= j < old_v.len() && old_v[j] == s@;
            assert(v@[j]@ == s@);
        }
    }
    v.push(s);
    proof {
        let nv = views(v@);
        assert(nv =~= old_v.push(s@));
        assert(nv.to_set() =~= old_v.to_set().insert(s@)) by {
            assert forall|x: Seq<char>| nv.to_set().contains(x) == old_v.to_set().insert(s@).contains(x) by {
                if x == s@ {
                    assert(nv[old_v.len() as int] == s@);
                } else if nv.contains(x) {
                    let j = choose|j: int| 0 <= j < nv.len() && nv[j] == x;
                    assert(old_v[j] == x);
                } else if old_v.contains(x) {
                    let j = choose|j: int| 0 <= j < old_v.len() && old_v[j] == x;
                    assert(nv[j] == x);
                }
            }
        }
        assert forall|a: int, b: int| 0 <= a < nv.len() && 0 <= b < nv.len() && a != b implies nv[a] != nv[b] by {
            if a < old_v.len() && b < old_v.len() {
            } else if a < old_v.len() {
                assert(old_v[a] == nv[a]);
            } else {
                assert(old_v[b] == nv[b]);
            }
        }
    }
}

/// Whether a list of strings holds one with the characters of `s`.
pub fn contains_string(v: &Vec<String>, s: &String) -> (r: bool)
    ensures
        r == views(v@).contains(s@),
{
    let mut i: usize = 0;
    while i < v.len()
        invariant
            i <= v.len(),
            forall|j: int| 0 <= j < i ==> v@[j]@ != s@,
        decreases v.len() - i,
    {
        if v[i] == *s {
            assert(views(v@)[i as int] == s@);
            return true;
        }
        i = i + 1;
    }
    assert(!views(v@).contains(s@)) by {
        if views(v@).contains(s@) {
            let j = choose|j: int| 0 <= j < views(v@).len() && views(v@)[j] == s@;
            assert(v@[j]@ == s@);
        }
    }
    false
}

} // verus!
