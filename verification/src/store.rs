//! The store of one entity type: a durable map from ids to encoded
//! records, seen as a map from ids to records.

use vstd::prelude::*;
use vstd::seq_lib::*;
use crate::durable::{
    blob_bytes, blob_from, blob_to_vec, map_contents, map_entries, map_get, map_insert, map_remove,
    DurableMap, MAX_VALUE_BYTES,
};
use crate::record::Record;

verus! {

/// Every value is small enough to store and decodes, to a record whose id
/// is the key it is stored under.
pub open spec fn sound<R: Record>(raw: Map<u64, Seq<u8>>) -> bool {
    forall|k: u64| #[trigger]
        raw.contains_key(k) ==> raw[k].len() <= MAX_VALUE_BYTES && (R::decoding(
            raw[k],
        ) matches Some(v) && R::key_of(v) == k)
}

/// The records that the values of `raw` stand for.
pub open spec fn decoded<R: Record>(raw: Map<u64, Seq<u8>>) -> Map<u64, R::V> {
    Map::new(|k: u64| raw.contains_key(k), |k: u64| R::decoding(raw[k]).unwrap())
}

/// `out` is the records of `m`, each once, in ascending order of their ids.
pub open spec fn lists<R: Record>(out: Seq<R>, m: Map<u64, R::V>) -> bool {
    &&& out.len() == m.len()
    &&& forall|i: int, j: int|
        0 <= i < j < out.len() ==> R::key_of(out[i]@) < R::key_of(out[j]@)
    &&& forall|i: int|
        0 <= i < out.len() ==> m.contains_key(R::key_of(#[trigger] out[i]@)) && m[R::key_of(
            out[i]@,
        )] == out[i]@
    &&& forall|k: u64| #[trigger]
        m.contains_key(k) ==> exists|i: int|
            0 <= i < out.len() && R::key_of(#[trigger] out[i]@) == k
}

/// A map whose keys are listed once each by a sequence is finite, and as
/// large as the sequence is long.
pub proof fn lemma_listed_keys<V>(m: Map<u64, V>, keys: Seq<u64>)
    requires
        forall|i: int, j: int| 0 <= i < j < keys.len() ==> keys[i] < keys[j],
        forall|i: int| 0 <= i < keys.len() ==> m.contains_key(#[trigger] keys[i]),
        forall|k: u64| #[trigger]
            m.contains_key(k) ==> exists|i: int| 0 <= i < keys.len() && #[trigger] keys[i] == k,
    ensures
        m.dom().finite(),
        m.len() == keys.len(),
{
    assert(m.dom() =~= keys.to_set()) by {
        assert forall|k: u64| m.dom().contains(k) <==> keys.to_set().contains(k) by {
            if m.contains_key(k) {
                let i = choose|i: int| 0 <= i < keys.len() && #[trigger] keys[i] == k;
                assert(keys[i] == k);
            }
        }
    }
    assert(keys.no_duplicates()) by {
        assert forall|i: int, j: int|
            0 <= i < keys.len() && 0 <= j < keys.len() && i != j implies keys[i] != keys[j] by {
            if i < j {
                assert(keys[i] < keys[j]);
            } else {
                assert(keys[j] < keys[i]);
            }
        }
    }
    keys.unique_seq_to_set();
    seq_to_set_is_finite(keys);
}

/// The records of one entity type, in their map.
pub struct Store<R: Record> {
    map: DurableMap,
    kind: core::marker::PhantomData<R>,
}

impl<R: Record> View for Store<R> {
    type V = Map<u64, R::V>;

    closed spec fn view(&self) -> Map<u64, R::V> {
        decoded::<R>(map_contents(self.map))
    }
}

impl<R: Record> Store<R> {
    /// The stored bytes are finitely many, and sound.
    pub closed spec fn wf(&self) -> bool {
        &&& map_contents(self.map).dom().finite()
        &&& sound::<R>(map_contents(self.map))
    }

    /// A well-formed store holds finitely many records, each under its own
    /// id and small enough to store.
    pub proof fn lemma_wf(&self)
        requires
            self.wf(),
        ensures
            self@.dom().finite(),
            forall|k: u64| #[trigger] self@.contains_key(k) ==> R::key_of(self@[k]) == k,
            forall|k: u64| #[trigger]
                self@.contains_key(k) ==> R::encoding(self@[k]).len() <= MAX_VALUE_BYTES,
    {
        let raw = map_contents(self.map);
        assert(self@.dom() =~= raw.dom());
        assert forall|k: u64| #[trigger] self@.contains_key(k) implies R::encoding(
            self@[k],
        ).len() <= MAX_VALUE_BYTES by {
            assert(raw.contains_key(k));
            R::lemma_canonical(raw[k]);
        }
    }

    /// Takes a map as the store of `R`, if what it holds is sound.
    pub fn open(map: DurableMap) -> (r: Option<Store<R>>)
        ensures
            r is Some <==> sound::<R>(map_contents(map)),
            r matches Some(s) ==> s.wf() && s@ == decoded::<R>(map_contents(map)),
    {
        let entries = map_entries(&map);
        let ghost raw = map_contents(map);
        let mut i: usize = 0;
        while i < entries.len()
            invariant
                i <= entries.len(),
                raw == map_contents(map),
                forall|i: int|
                    0 <= i < entries@.len() ==> raw.contains_key(#[trigger] entries@[i].0)
                        && raw[entries@[i].0] == blob_bytes(entries@[i].1),
                forall|j: int|
                    0 <= j < i ==> raw[#[trigger] entries@[j].0].len() <= MAX_VALUE_BYTES && (
                    R::decoding(raw[entries@[j].0]) matches Some(v) && R::key_of(v)
                        == entries@[j].0),
            decreases entries.len() - i,
        {
            let bytes = blob_to_vec(&entries[i].1);
            let ok = match R::decode(bytes.as_slice()) {
                Some(r) => r.id() == entries[i].0,
                None => false,
            };
            if !ok {
                assert(raw.contains_key(entries@[i as int].0));
                return None;
            }
            i += 1;
        }
        proof {
            let keys = Seq::new(entries@.len(), |i: int| entries@[i].0);
            assert forall|k: u64| #[trigger] raw.contains_key(k) implies exists|i: int|
                0 <= i < keys.len() && #[trigger] keys[i] == k by {
                let i = choose|i: int| 0 <= i < entries@.len() && #[trigger] entries@[i].0 == k;
                assert(keys[i] == k);
            }
            assert forall|i: int| 0 <= i < keys.len() implies raw.contains_key(
                #[trigger] keys[i],
            ) by {
                assert(raw.contains_key(entries@[i].0));
            }
            lemma_listed_keys(raw, keys);
            assert forall|k: u64| #[trigger] raw.contains_key(k) implies raw[k].len()
                <= MAX_VALUE_BYTES && (R::decoding(raw[k]) matches Some(v) && R::key_of(v)
                == k) by {
                let i = choose|i: int| 0 <= i < entries@.len() && #[trigger] entries@[i].0 == k;
                assert(entries@[i].0 == k);
            }
        }
        Some(Store { map, kind: core::marker::PhantomData })
    }

    /// Whether every stored id is at most `limit`.
    pub fn within(&self, limit: u64) -> (r: bool)
        requires
            self.wf(),
        ensures
            r <==> forall|k: u64| #[trigger] self@.contains_key(k) ==> k <= limit,
    {
        let entries = map_entries(&self.map);
        let n = entries.len();
        if n == 0 {
            return true;
        }
        let top = entries[n - 1].0;
        proof {
            let raw = map_contents(self.map);
            assert(raw.contains_key(entries@[n - 1].0));
            assert(self@.contains_key(top));
            if top <= limit {
                assert forall|k: u64| #[trigger] self@.contains_key(k) implies k <= limit by {
                    let i = choose|i: int| 0 <= i < entries@.len() && #[trigger] entries@[i].0 == k;
                    if i < n - 1 {
                        assert(entries@[i].0 < entries@[n - 1].0);
                    }
                }
            }
        }
        top <= limit
    }

    /// The record stored under `id`, by direct lookup.
    pub fn get(&self, id: u64) -> (r: Option<R>)
        requires
            self.wf(),
        ensures
            r matches Some(x) ==> self@.contains_key(id) && self@[id] == x@,
            r is None ==> !self@.contains_key(id),
    {
        match map_get(&self.map, id) {
            Some(blob) => {
                let bytes = blob_to_vec(&blob);
                let r = R::decode(bytes.as_slice());
                assert(map_contents(self.map).contains_key(id));
                r
            },
            None => None,
        }
    }

    /// Whether a record is stored under `id`.
    pub fn contains(&self, id: u64) -> (r: bool)
        ensures
            r == self@.contains_key(id),
    {
        map_get(&self.map, id).is_some()
    }

    /// Whether `record` is small enough to store.
    pub fn fits(record: &R) -> (r: bool)
        ensures
            r == (R::encoding(record@).len() <= MAX_VALUE_BYTES),
    {
        record.encode().len() <= MAX_VALUE_BYTES
    }

    /// Stores `record` under its own id, in place of whatever was there. A
    /// record too large to store is refused, and the store is unchanged.
    pub fn insert(&mut self, record: &R) -> (stored: bool)
        requires
            old(self).wf(),
        ensures
            final(self).wf(),
            stored == (R::encoding(record@).len() <= MAX_VALUE_BYTES),
            stored ==> final(self)@ == old(self)@.insert(R::key_of(record@), record@),
            !stored ==> final(self)@ == old(self)@,
    {
        let bytes = record.encode();
        match blob_from(bytes.as_slice()) {
            Ok(blob) => {
                let key = record.id();
                let _ = map_insert(&mut self.map, key, blob);
                proof {
                    R::lemma_round_trip(record@);
                    let before = map_contents(old(self).map);
                    let after = map_contents(self.map);
                    assert forall|k: u64| #[trigger] after.contains_key(k) implies after[k].len()
                        <= MAX_VALUE_BYTES && (R::decoding(after[k]) matches Some(v) && R::key_of(v)
                        == k) by {
                        if k != key {
                            assert(before.contains_key(k));
                        }
                    }
                    assert(self@ =~= old(self)@.insert(key, record@));
                }
                true
            },
            Err(_) => false,
        }
    }

    /// Removes the record stored under `id` and returns it.
    pub fn remove(&mut self, id: u64) -> (r: Option<R>)
        requires
            old(self).wf(),
        ensures
            final(self).wf(),
            final(self)@ == old(self)@.remove(id),
            r matches Some(x) ==> old(self)@.contains_key(id) && old(self)@[id] == x@,
            r is None ==> !old(self)@.contains_key(id),
    {
        let prior = map_remove(&mut self.map, id);
        proof {
            let before = map_contents(old(self).map);
            let after = map_contents(self.map);
            assert forall|k: u64| #[trigger] after.contains_key(k) implies after[k].len()
                <= MAX_VALUE_BYTES && (R::decoding(after[k]) matches Some(v) && R::key_of(v)
                == k) by {
                assert(before.contains_key(k));
            }
            assert(self@ =~= old(self)@.remove(id));
        }
        match prior {
            Some(blob) => {
                let bytes = blob_to_vec(&blob);
                let r = R::decode(bytes.as_slice());
                assert(map_contents(old(self).map).contains_key(id));
                r
            },
            None => None,
        }
    }

    /// Every record, in ascending order of the ids.
    pub fn list(&self) -> (out: Vec<R>)
        requires
            self.wf(),
        ensures
            lists(out@, self@),
    {
        let entries = map_entries(&self.map);
        let ghost raw = map_contents(self.map);
        let mut out: Vec<R> = Vec::new();
        let mut i: usize = 0;
        while i < entries.len()
            invariant
                i <= entries.len(),
                i == out@.len(),
                raw == map_contents(self.map),
                sound::<R>(raw),
                forall|i: int|
                    0 <= i < entries@.len() ==> raw.contains_key(#[trigger] entries@[i].0)
                        && raw[entries@[i].0] == blob_bytes(entries@[i].1),
                forall|j: int|
                    0 <= j < i ==> R::decoding(raw[entries@[j].0]) == Some(#[trigger] out@[j]@),
            decreases entries.len() - i,
        {
            let bytes = blob_to_vec(&entries[i].1);
            assert(raw.contains_key(entries@[i as int].0));
            match R::decode(bytes.as_slice()) {
                Some(r) => {
                    out.push(r);
                },
                None => {
                    assert(false);
                },
            }
            i += 1;
        }
        proof {
            let keys = Seq::new(entries@.len(), |i: int| entries@[i].0);
            assert forall|k: u64| #[trigger] raw.contains_key(k) implies exists|i: int|
                0 <= i < keys.len() && #[trigger] keys[i] == k by {
                let i = choose|i: int| 0 <= i < entries@.len() && #[trigger] entries@[i].0 == k;
                assert(keys[i] == k);
            }
            assert forall|i: int| 0 <= i < keys.len() implies raw.contains_key(
                #[trigger] keys[i],
            ) by {
                assert(raw.contains_key(entries@[i].0));
            }
            lemma_listed_keys(raw, keys);
            assert(self@.dom() =~= raw.dom());
            assert forall|j: int| 0 <= j < out@.len() implies R::key_of(#[trigger] out@[j]@)
                == entries@[j].0 && self@.contains_key(entries@[j].0) && self@[entries@[j].0]
                == out@[j]@ by {
                assert(raw.contains_key(entries@[j].0));
            }
            assert forall|k: u64| #[trigger] self@.contains_key(k) implies exists|i: int|
                0 <= i < out@.len() && R::key_of(#[trigger] out@[i]@) == k by {
                let i = choose|i: int| 0 <= i < entries@.len() && #[trigger] entries@[i].0 == k;
                assert(R::key_of(out@[i]@) == k);
            }
        }
        out
    }
}

} // verus!
