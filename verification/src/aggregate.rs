//! Ordered, duplicate-free record of named values.
//!
//! The record keeps (key, value) pairs in first-insertion order, with unique
//! keys: inserting a present key overwrites its value in place, keeping the
//! key's position; removal may permute the remaining entries (their order
//! after a removal is deliberately left unspecified). Lookup is a linear
//! scan: records carry tens of fields, not thousands.

use vstd::prelude::*;

use crate::types::AstarteType;
use crate::types::AstarteTypeView;
use crate::types::type_eq;

verus! {

/// View of one record entry: the key's characters paired with the value's
/// view.
pub type EntryView = (Seq<char>, AstarteTypeView);

/// No key occurs twice.
pub open spec fn keys_unique(s: Seq<EntryView>) -> bool {
    forall|i: int, j: int| 0 <= i < j < s.len() ==> s[i].0 != s[j].0
}

/// Some entry carries the key `k`.
pub open spec fn has_key(s: Seq<EntryView>, k: Seq<char>) -> bool {
    exists|i: int| 0 <= i < s.len() && s[i].0 == k
}

/// The position of the entry carrying `k` (canonical when keys are unique).
pub open spec fn key_index(s: Seq<EntryView>, k: Seq<char>) -> int {
    choose|i: int| 0 <= i < s.len() && s[i].0 == k
}

/// The value stored under `k`.
pub open spec fn value_of(s: Seq<EntryView>, k: Seq<char>) -> AstarteTypeView {
    s[key_index(s, k)].1
}

/// The record after an upsert of (`k`, `v`): a present key is overwritten in
/// place, an absent one is appended at the end.
pub open spec fn spec_insert(s: Seq<EntryView>, k: Seq<char>, v: AstarteTypeView) -> Seq<
    EntryView,
> {
    if has_key(s, k) {
        s.update(key_index(s, k), (k, v))
    } else {
        s.push((k, v))
    }
}

/// The record after removing `k`: the last entry is swapped into the freed
/// position, so the relative order of the remaining entries may change.
pub open spec fn spec_remove(s: Seq<EntryView>, k: Seq<char>) -> Seq<EntryView> {
    if has_key(s, k) {
        s.update(key_index(s, k), s.last()).drop_last()
    } else {
        s
    }
}

/// Repeated upserts, first pair first.
pub open spec fn spec_insert_all(s: Seq<EntryView>, pairs: Seq<EntryView>) -> Seq<EntryView>
    decreases pairs.len(),
{
    if pairs.len() == 0 {
        s
    } else {
        spec_insert_all(spec_insert(s, pairs[0].0, pairs[0].1), pairs.drop_first())
    }
}

/// The views of a sequence of (key, value) pairs.
pub open spec fn pairs_view(s: Seq<(String, AstarteType)>) -> Seq<EntryView> {
    s.map_values(|p: (String, AstarteType)| (p.0@, p.1@))
}

/// With unique keys, any position holding `k` is the canonical one.
pub proof fn lemma_key_at(s: Seq<EntryView>, k: Seq<char>, i: int)
    requires
        keys_unique(s),
        0 <= i < s.len(),
        s[i].0 == k,
    ensures
        has_key(s, k),
        key_index(s, k) == i,
{
    assert(has_key(s, k));
    let j = key_index(s, k);
    assert(0 <= j < s.len() && s[j].0 == k);
    if i < j {
        assert(s[i].0 != s[j].0);
    } else if j < i {
        assert(s[j].0 != s[i].0);
    }
}

/// What one upsert does to the model: the key now carries `v`; a key already
/// present keeps its position, a new one is appended; the length grows only
/// for a new key; every other key keeps its position and value; uniqueness is
/// preserved.
pub proof fn lemma_insert_properties(s: Seq<EntryView>, k: Seq<char>, v: AstarteTypeView)
    requires
        keys_unique(s),
    ensures
        keys_unique(spec_insert(s, k, v)),
        has_key(spec_insert(s, k, v), k),
        value_of(spec_insert(s, k, v), k) == v,
        has_key(s, k) ==> key_index(spec_insert(s, k, v), k) == key_index(s, k)
            && spec_insert(s, k, v).len() == s.len(),
        !has_key(s, k) ==> key_index(spec_insert(s, k, v), k) == s.len() && spec_insert(
            s,
            k,
            v,
        ).len() == s.len() + 1,
        forall|k2: Seq<char>|
            k2 != k ==> #[trigger] has_key(spec_insert(s, k, v), k2) == has_key(s, k2),
        forall|k2: Seq<char>|
            k2 != k && has_key(s, k2) ==> #[trigger] key_index(spec_insert(s, k, v), k2)
                == key_index(s, k2) && value_of(spec_insert(s, k, v), k2) == value_of(s, k2),
{
    let t = spec_insert(s, k, v);
    if has_key(s, k) {
        let i = key_index(s, k);
        assert(0 <= i < s.len() && s[i].0 == k);
        assert(forall|j: int| 0 <= j < t.len() && j != i ==> t[j] == s[j]);
        lemma_key_at(t, k, i);
    } else {
        assert(forall|j: int| 0 <= j < s.len() ==> t[j] == s[j]);
        assert(forall|j: int| 0 <= j < s.len() ==> s[j].0 != k);
        lemma_key_at(t, k, s.len() as int);
    }
    assert forall|k2: Seq<char>| k2 != k implies #[trigger] has_key(t, k2) == has_key(
        s,
        k2,
    ) by {
        if has_key(s, k2) {
            let j = key_index(s, k2);
            assert(t[j].0 == k2);
        }
        if has_key(t, k2) {
            let j = key_index(t, k2);
            assert(0 <= j < t.len() && t[j].0 == k2);
            assert(s[j].0 == k2);
        }
    }
    assert forall|k2: Seq<char>| k2 != k && has_key(s, k2) implies #[trigger] key_index(t, k2)
        == key_index(s, k2) && value_of(t, k2) == value_of(s, k2) by {
        let j = key_index(s, k2);
        assert(0 <= j < s.len() && s[j].0 == k2);
        assert(t[j] == s[j]);
        lemma_key_at(t, k2, j);
    }
}

/// The model record after a removal: the removed key is gone; every other key
/// is still present with its value; uniqueness is preserved. Nothing is said
/// of the remaining entries' order.
pub proof fn lemma_remove_properties(s: Seq<EntryView>, k: Seq<char>)
    requires
        keys_unique(s),
    ensures
        keys_unique(spec_remove(s, k)),
        !has_key(spec_remove(s, k), k),
        has_key(s, k) ==> spec_remove(s, k).len() == s.len() - 1,
        !has_key(s, k) ==> spec_remove(s, k) == s,
        forall|k2: Seq<char>|
            k2 != k ==> #[trigger] has_key(spec_remove(s, k), k2) == has_key(s, k2),
        forall|k2: Seq<char>|
            k2 != k && has_key(s, k2) ==> #[trigger] value_of(spec_remove(s, k), k2) == value_of(
                s,
                k2,
            ),
{
    let t = spec_remove(s, k);
    if has_key(s, k) {
        let i = key_index(s, k);
        assert(0 <= i < s.len() && s[i].0 == k);
        assert(forall|j: int|
            0 <= j < t.len() ==> t[j] == (if j == i {
                s[s.len() - 1]
            } else {
                s[j]
            }));
        assert forall|j: int| 0 <= j < t.len() implies t[j].0 != k by {
            if j == i {
                if i < s.len() - 1 {
                    assert(s[i].0 != s[s.len() - 1].0);
                }
            }
        }
        assert(keys_unique(t)) by {
            assert forall|a: int, b: int| 0 <= a < b < t.len() implies t[a].0 != t[b].0 by {
                let ra = if a == i { s.len() - 1 } else { a };
                let rb = if b == i { s.len() - 1 } else { b };
                assert(t[a] == s[ra] && t[b] == s[rb]);
                assert(ra != rb);
            }
        }
        assert forall|k2: Seq<char>| k2 != k implies #[trigger] has_key(t, k2) == has_key(
            s,
            k2,
        ) by {
            if has_key(s, k2) {
                let j = key_index(s, k2);
                assert(0 <= j < s.len() && s[j].0 == k2);
                assert(j != i);
                if j == s.len() - 1 {
                    assert(t[i].0 == k2);
                } else {
                    assert(t[j].0 == k2);
                }
            }
            if has_key(t, k2) {
                let j = key_index(t, k2);
                assert(0 <= j < t.len() && t[j].0 == k2);
                if j == i {
                    assert(s[s.len() - 1].0 == k2);
                } else {
                    assert(s[j].0 == k2);
                }
            }
        }
        assert forall|k2: Seq<char>| k2 != k && has_key(s, k2) implies #[trigger] value_of(t, k2)
            == value_of(s, k2) by {
            let j = key_index(s, k2);
            assert(0 <= j < s.len() && s[j].0 == k2);
            assert(j != i);
            if j == s.len() - 1 {
                assert(t[i] == s[j]);
                lemma_key_at(t, k2, i);
            } else {
                assert(t[j] == s[j]);
                lemma_key_at(t, k2, j);
            }
        }
    } else {
        assert(forall|j: int| 0 <= j < t.len() ==> t[j].0 != k);
    }
}

/// Upsert in place: writing `v1` then `v2` under one key leaves the key at
/// the position the first write gave it, now carrying `v2`, and the second
/// write does not change the record's length.
pub proof fn lemma_upsert_in_place(s: Seq<EntryView>, k: Seq<char>, v1: AstarteTypeView, v2: AstarteTypeView)
    requires
        keys_unique(s),
    ensures
        spec_insert(spec_insert(s, k, v1), k, v2).len() == spec_insert(s, k, v1).len(),
        key_index(spec_insert(spec_insert(s, k, v1), k, v2), k) == key_index(
            spec_insert(s, k, v1),
            k,
        ),
        value_of(spec_insert(spec_insert(s, k, v1), k, v2), k) == v2,
        keys_unique(spec_insert(spec_insert(s, k, v1), k, v2)),
{
    lemma_insert_properties(s, k, v1);
    lemma_insert_properties(spec_insert(s, k, v1), k, v2);
}

/// Uniqueness: a record with unique keys still has unique keys after any
/// sequence of upserts.
pub proof fn lemma_insert_all_unique(s: Seq<EntryView>, pairs: Seq<EntryView>)
    requires
        keys_unique(s),
    ensures
        keys_unique(spec_insert_all(s, pairs)),
    decreases pairs.len(),
{
    if pairs.len() > 0 {
        lemma_insert_properties(s, pairs[0].0, pairs[0].1);
        lemma_insert_all_unique(spec_insert(s, pairs[0].0, pairs[0].1), pairs.drop_first());
    }
}

/// Round trip: re-inserting a record's own entries, in order, after entries
/// whose keys are all distinct from them, appends them unchanged. With an
/// empty prefix: a record rebuilt from its own iteration order is identical.
pub proof fn lemma_insert_all_distinct(s: Seq<EntryView>, pairs: Seq<EntryView>)
    requires
        keys_unique(s + pairs),
    ensures
        spec_insert_all(s, pairs) == s + pairs,
    decreases pairs.len(),
{
    if pairs.len() == 0 {
        assert(spec_insert_all(s, pairs) =~= s + pairs);
    } else {
        let k = pairs[0].0;
        let v = pairs[0].1;
        assert(forall|j: int| 0 <= j < s.len() ==> (s + pairs)[j] == s[j]);
        assert((s + pairs)[s.len() as int] == pairs[0]);
        assert forall|j: int| 0 <= j < s.len() implies s[j].0 != k by {
            assert((s + pairs)[j].0 != (s + pairs)[s.len() as int].0);
        }
        assert(!has_key(s, k));
        assert((k, v) == pairs[0]);
        let s2 = s.push(pairs[0]);
        assert(spec_insert(s, k, v) == s2);
        assert(s2 + pairs.drop_first() =~= s + pairs);
        lemma_insert_all_distinct(s2, pairs.drop_first());
        assert(spec_insert_all(s, pairs) == spec_insert_all(s2, pairs.drop_first()));
    }
}

/// Round-trip identity: a record with unique keys, rebuilt by re-inserting
/// its own entries in iteration order into an empty record, is identical.
pub proof fn lemma_rebuild_identity(s: Seq<EntryView>)
    requires
        keys_unique(s),
    ensures
        spec_insert_all(Seq::<EntryView>::empty(), s) == s,
{
    assert(Seq::<EntryView>::empty() + s =~= s);
    lemma_insert_all_distinct(Seq::<EntryView>::empty(), s);
}

/// Unset finality, on the record model: after removing a key it reads as
/// absent, and stays absent until an insert of that same key makes it
/// present again, carrying exactly the newly inserted value.
pub proof fn lemma_removed_until_reinserted(s: Seq<EntryView>, k: Seq<char>, v: AstarteTypeView)
    requires
        keys_unique(s),
    ensures
        !has_key(spec_remove(s, k), k),
        forall|k2: Seq<char>, v2: AstarteTypeView|
            k2 != k ==> !has_key(
                #[trigger] spec_insert(spec_remove(s, k), k2, v2),
                k,
            ),
        has_key(spec_insert(spec_remove(s, k), k, v), k),
        value_of(spec_insert(spec_remove(s, k), k, v), k) == v,
{
    lemma_remove_properties(s, k);
    let t = spec_remove(s, k);
    lemma_insert_properties(t, k, v);
    assert forall|k2: Seq<char>, v2: AstarteTypeView| k2 != k implies !has_key(
        #[trigger] spec_insert(t, k2, v2),
        k,
    ) by {
        lemma_insert_properties(t, k2, v2);
    }
}

/// Map of names to values, used to send data on an interface with object
/// aggregation.
#[derive(Debug)]
pub struct AstarteObject {
    inner: Vec<(String, AstarteType)>,
}

impl View for AstarteObject {
    type V = Seq<EntryView>;

    closed spec fn view(&self) -> Seq<EntryView> {
        pairs_view(self.inner@)
    }
}

impl AstarteObject {
    /// Returns an empty record.
    pub fn new() -> (r: Self)
        ensures
            r@ == Seq::<EntryView>::empty(),
            keys_unique(r@),
    {
        let r = AstarteObject { inner: Vec::new() };
        proof {
            assert(r@ =~= Seq::<EntryView>::empty());
        }
        r
    }

    /// Returns an empty record with room for `capacity` entries; the hint is
    /// advisory only.
    pub fn with_capacity(capacity: usize) -> (r: Self)
        ensures
            r@ == Seq::<EntryView>::empty(),
            keys_unique(r@),
    {
        let r = AstarteObject { inner: Vec::with_capacity(capacity) };
        proof {
            assert(r@ =~= Seq::<EntryView>::empty());
        }
        r
    }

    /// Adds the value under the given name. Keys are unique: a present key
    /// has its value overwritten in place (its position does not change) and
    /// the previous value is returned; a new key is appended at the end.
    pub fn insert(&mut self, key: String, value: AstarteType) -> (prior: Option<AstarteType>)
        requires
            keys_unique(old(self)@),
        ensures
            keys_unique(final(self)@),
            final(self)@ == spec_insert(old(self)@, key@, value@),
            prior matches Some(p) ==> has_key(old(self)@, key@) && p@ == value_of(
                old(self)@,
                key@,
            ),
            prior is None ==> !has_key(old(self)@, key@),
    {
        let ghost s0 = self@;
        let ghost inner0 = self.inner@;
        let mut idx: usize = 0;
        while idx < self.inner.len()
            invariant
                keys_unique(s0),
                self.inner@ == inner0,
                inner0 == old(self).inner@,
                s0 == pairs_view(inner0),
                s0 == old(self)@,
                idx <= self.inner@.len(),
                forall|j: int| 0 <= j < idx ==> s0[j].0 != key@,
            decreases self.inner@.len() - idx,
        {
            let hit = self.inner[idx].0 == key;
            proof {
                assert(s0[idx as int].0 == self.inner@[idx as int].0@);
            }
            if hit {
                proof {
                    lemma_key_at(s0, key@, idx as int);
                }
                let pair = self.inner.remove(idx);
                self.inner.insert(idx, (pair.0, value));
                proof {
                    assert(pair.0 == inner0[idx as int].0);
                    assert(self.inner@ =~= inner0.update(idx as int, (pair.0, value)));
                    assert(self@ =~= spec_insert(s0, key@, value@));
                    lemma_insert_properties(s0, key@, value@);
                    assert(pair.1@ == value_of(s0, key@));
                }
                return Some(pair.1);
            }
            idx = idx + 1;
        }
        self.inner.push((key, value));
        proof {
            assert(forall|j: int| 0 <= j < s0.len() ==> s0[j].0 != key@);
            assert(!has_key(s0, key@));
            assert(self@ =~= s0.push((key@, value@)));
            lemma_insert_properties(s0, key@, value@);
        }
        None
    }

    /// Returns a reference to the value stored under the given name, if
    /// present.
    pub fn get(&self, name: &str) -> (r: Option<&AstarteType>)
        requires
            keys_unique(self@),
        ensures
            r matches Some(v) ==> has_key(self@, name@) && v@ == value_of(self@, name@),
            r is None ==> !has_key(self@, name@),
    {
        let needle: String = name.to_owned();
        let mut idx: usize = 0;
        while idx < self.inner.len()
            invariant
                keys_unique(self@),
                needle@ == name@,
                idx <= self.inner@.len(),
                forall|j: int| 0 <= j < idx ==> self@[j].0 != name@,
            decreases self.inner@.len() - idx,
        {
            let hit = self.inner[idx].0 == needle;
            proof {
                assert(self@[idx as int].0 == self.inner@[idx as int].0@);
            }
            if hit {
                proof {
                    lemma_key_at(self@, name@, idx as int);
                }
                return Some(&self.inner[idx].1);
            }
            idx = idx + 1;
        }
        proof {
            assert(!has_key(self@, name@));
        }
        None
    }

    /// Removes the value stored under the given name, if present, and
    /// returns it. The last entry is swapped into the freed position, so the
    /// relative order of the remaining entries is not preserved.
    pub fn remove(&mut self, name: &str) -> (r: Option<AstarteType>)
        requires
            keys_unique(old(self)@),
        ensures
            keys_unique(final(self)@),
            final(self)@ == spec_remove(old(self)@, name@),
            !has_key(final(self)@, name@),
            r matches Some(v) ==> has_key(old(self)@, name@) && v@ == value_of(
                old(self)@,
                name@,
            ),
            r is None ==> !has_key(old(self)@, name@) && final(self)@ == old(self)@,
    {
        let ghost s0 = self@;
        let ghost inner0 = self.inner@;
        let needle: String = name.to_owned();
        let mut idx: usize = 0;
        while idx < self.inner.len()
            invariant
                keys_unique(s0),
                self.inner@ == inner0,
                inner0 == old(self).inner@,
                s0 == pairs_view(inner0),
                s0 == old(self)@,
                needle@ == name@,
                idx <= self.inner@.len(),
                forall|j: int| 0 <= j < idx ==> s0[j].0 != name@,
            decreases self.inner@.len() - idx,
        {
            let hit = self.inner[idx].0 == needle;
            proof {
                assert(s0[idx as int].0 == self.inner@[idx as int].0@);
            }
            if hit {
                proof {
                    lemma_key_at(s0, name@, idx as int);
                }
                let pair = self.inner.swap_remove(idx);
                proof {
                    assert(self.inner@ =~= inner0.update(
                        idx as int,
                        inner0.last(),
                    ).drop_last());
                    assert(s0.last() == (inner0.last().0@, inner0.last().1@));
                    assert(self@ =~= spec_remove(s0, name@));
                    lemma_remove_properties(s0, name@);
                    assert(pair.1@ == value_of(s0, name@));
                }
                return Some(pair.1);
            }
            idx = idx + 1;
        }
        proof {
            assert(!has_key(s0, name@));
            lemma_remove_properties(s0, name@);
        }
        None
    }

    /// Returns the number of entries in the record.
    pub fn len(&self) -> (r: usize)
        ensures
            r == self@.len(),
    {
        self.inner.len()
    }

    /// Returns true if the record holds no entry.
    pub fn is_empty(&self) -> (r: bool)
        ensures
            r == (self@.len() == 0),
    {
        self.inner.is_empty()
    }

    /// The names and values of the record, in current insertion order.
    pub fn iter(&self) -> (r: &[(String, AstarteType)])
        ensures
            r@.len() == self@.len(),
            forall|i: int|
                0 <= i < r@.len() ==> r@[i].0@ == self@[i].0 && r@[i].1@ == self@[i].1,
    {
        self.inner.as_slice()
    }

    /// Consumes the record into its (name, value) pairs, in current
    /// insertion order.
    pub fn into_key_values(self) -> (r: Vec<(String, AstarteType)>)
        ensures
            r@.len() == self@.len(),
            forall|i: int|
                0 <= i < r@.len() ==> r@[i].0@ == self@[i].0 && r@[i].1@ == self@[i].1,
    {
        self.inner
    }

    /// Builds a record from (name, value) pairs, applied as repeated
    /// inserts, first pair first: a later duplicate key overwrites the
    /// earlier value at the earlier position.
    pub fn from_key_values(pairs: Vec<(String, AstarteType)>) -> (r: Self)
        ensures
            keys_unique(r@),
            r@ == spec_insert_all(Seq::<EntryView>::empty(), pairs_view(pairs@)),
    {
        let ghost all = pairs_view(pairs@);
        let mut rest = pairs;
        let mut r = AstarteObject::new();
        while rest.len() > 0
            invariant
                keys_unique(r@),
                spec_insert_all(r@, pairs_view(rest@)) == spec_insert_all(
                    Seq::<EntryView>::empty(),
                    all,
                ),
            decreases rest@.len(),
        {
            let ghost rest0 = pairs_view(rest@);
            let p = rest.remove(0);
            proof {
                assert(rest0[0] == (p.0@, p.1@));
                assert(pairs_view(rest@) =~= rest0.drop_first());
            }
            r.insert(p.0, p.1);
        }
        proof {
            assert(pairs_view(rest@) =~= Seq::<EntryView>::empty());
        }
        r
    }

    /// Structural equality of records: same length, same keys in the same
    /// order, equal values.
    pub fn object_eq(&self, other: &Self) -> (r: bool)
        ensures
            r == (self@ == other@),
    {
        if self.inner.len() != other.inner.len() {
            proof {
                assert(self@.len() != other@.len());
            }
            return false;
        }
        let mut i: usize = 0;
        while i < self.inner.len()
            invariant
                self.inner@.len() == other.inner@.len(),
                i <= self.inner@.len(),
                forall|j: int| 0 <= j < i ==> self@[j] == other@[j],
            decreases self.inner@.len() - i,
        {
            let keys_match = self.inner[i].0 == other.inner[i].0;
            let values_match = type_eq(&self.inner[i].1, &other.inner[i].1);
            proof {
                assert(self@[i as int] == (self.inner@[i as int].0@, self.inner@[i as int].1@));
                assert(other@[i as int] == (other.inner@[i as int].0@, other.inner@[
                    i as int
                ].1@));
            }
            if !keys_match || !values_match {
                proof {
                    assert(self@[i as int] != other@[i as int]);
                }
                return false;
            }
            i = i + 1;
        }
        proof {
            assert(self@ =~= other@);
        }
        true
    }
}

impl PartialEq for AstarteObject {
    fn eq(&self, other: &Self) -> (r: bool) {
        self.object_eq(other)
    }
}

impl vstd::std_specs::cmp::PartialEqSpecImpl for AstarteObject {
    open spec fn obeys_eq_spec() -> bool {
        true
    }

    open spec fn eq_spec(&self, other: &Self) -> bool {
        self@ == other@
    }
}

impl Default for AstarteObject {
    fn default() -> (r: Self)
        ensures
            r@ == Seq::<EntryView>::empty(),
            keys_unique(r@),
    {
        AstarteObject::new()
    }
}

} // verus!
