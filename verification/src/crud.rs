//! What creating, reading, replacing and removing a record return and do,
//! for any entity type.
//!
//! Each operation has a spec predicate that relates its result to the
//! store before and after, and a function that meets it.

use vstd::prelude::*;
use crate::durable::{map_contents, DurableMap, MAX_VALUE_BYTES};
use crate::ids::{exhausted, unwritten, IdAllocator};
use crate::message::{ErrorKind, Fault, Message};
use crate::record::Record;
use crate::store::{decoded, lists, sound, Store};

verus! {

/// No id of the map is above `limit`.
pub open spec fn bounded<V>(m: Map<u64, V>, limit: u64) -> bool {
    forall|k: u64| #[trigger] m.contains_key(k) ==> k <= limit
}

/// The map is finite, holds each record under its own id, holds no id above
/// `limit`, and holds no record too large to store.
pub open spec fn sane<R: Record>(m: Map<u64, R::V>, limit: u64) -> bool {
    &&& m.dom().finite()
    &&& bounded(m, limit)
    &&& forall|k: u64| #[trigger] m.contains_key(k) ==> R::key_of(m[k]) == k
    &&& forall|k: u64| #[trigger] m.contains_key(k) ==> R::encoding(m[k]).len() <= MAX_VALUE_BYTES
}

/// The id that follows `last`.
pub open spec fn successor(last: u64) -> u64 {
    (last + 1) as u64
}

/// The error of a record whose encoding is longer than a store takes.
pub open spec fn too_large() -> Fault {
    (ErrorKind::InvalidPayload, "Record exceeds the maximum stored size"@)
}

/// A lookup returns the record under `id`, or `NotFound` with the text
/// `missing` where there is none.
pub open spec fn found<R: Record>(
    r: Result<R, Message>,
    id: u64,
    missing: Seq<char>,
    m: Map<u64, R::V>,
) -> bool {
    if m.contains_key(id) {
        r matches Ok(x) && x@ == m[id]
    } else {
        r matches Err(e) && e@ == (ErrorKind::NotFound, missing)
    }
}

/// A listing returns every record in ascending order of the ids, or
/// `NotFound` with the text `missing` where there is none.
pub open spec fn listed<R: Record>(
    r: Result<Vec<R>, Message>,
    missing: Seq<char>,
    m: Map<u64, R::V>,
) -> bool {
    if m.len() == 0 {
        r matches Err(e) && e@ == (ErrorKind::NotFound, missing)
    } else {
        r matches Ok(out) && lists(out@, m)
    }
}

/// A creation whose checks gave `fault` returns that error and changes
/// nothing. One that passed them is refused, again with nothing changed,
/// where no id is left or `draft` is too large. Otherwise it stores `draft`
/// under the successor of the last id and returns it, unless the counter
/// could not be written: then it returns that error and changes nothing.
pub open spec fn entered<R: Record>(
    r: Result<R, Message>,
    fault: Option<Fault>,
    draft: R::V,
    last_before: u64,
    last_after: u64,
    before: Map<u64, R::V>,
    after: Map<u64, R::V>,
) -> bool {
    let refusal = if fault is Some {
        fault
    } else if last_before == u64::MAX {
        Some(exhausted())
    } else if R::encoding(draft).len() > MAX_VALUE_BYTES {
        Some(too_large())
    } else {
        None
    };
    match refusal {
        Some(f) => r matches Err(e) && e@ == f && after == before && last_after == last_before,
        None => match r {
            Ok(x) => x@ == draft && after == before.insert(successor(last_before), draft)
                && last_after == successor(last_before),
            Err(e) => e@ == unwritten() && after == before && last_after == last_before,
        },
    }
}

/// A replacement stores `draft` under `id` and returns it where `id` has a
/// record and `draft` is small enough to store. Otherwise nothing changes,
/// and it returns `NotFound` with the text `missing`, or the error of a
/// record too large.
pub open spec fn replaced<R: Record>(
    r: Result<R, Message>,
    id: u64,
    draft: R::V,
    missing: Seq<char>,
    before: Map<u64, R::V>,
    after: Map<u64, R::V>,
) -> bool {
    if !before.contains_key(id) {
        r matches Err(e) && e@ == (ErrorKind::NotFound, missing) && after == before
    } else if R::encoding(draft).len() > MAX_VALUE_BYTES {
        r matches Err(e) && e@ == too_large() && after == before
    } else {
        r matches Ok(x) && x@ == draft && after == before.insert(id, draft)
    }
}

/// A removal takes out the record under `id` and no other, so that one
/// record fewer is left. Where `id` has no record nothing changes, and it
/// returns `NotFound` with the text `missing`.
pub open spec fn removed<V>(
    r: Result<(), Message>,
    id: u64,
    missing: Seq<char>,
    before: Map<u64, V>,
    after: Map<u64, V>,
) -> bool {
    if before.contains_key(id) {
        r is Ok && after == before.remove(id) && after.len() + 1 == before.len()
    } else {
        r matches Err(e) && e@ == (ErrorKind::NotFound, missing) && after == before
    }
}

/// Takes a map as the store of `R`, if what it holds is sound and no stored
/// id is above `limit`.
pub fn take_in<R: Record>(map: DurableMap, limit: u64) -> (r: Option<Store<R>>)
    ensures
        r is Some <==> sound::<R>(map_contents(map)) && bounded(
            decoded::<R>(map_contents(map)),
            limit,
        ),
        r matches Some(s) ==> s.wf() && s@ == decoded::<R>(map_contents(map)),
{
    match Store::<R>::open(map) {
        Some(store) => {
            if store.within(limit) {
                Some(store)
            } else {
                None
            }
        },
        None => None,
    }
}

/// Looks up the record under `id`.
pub fn fetch<R: Record>(store: &Store<R>, id: u64, missing: &str) -> (r: Result<R, Message>)
    requires
        store.wf(),
    ensures
        found(r, id, missing@, store@),
{
    match store.get(id) {
        Some(x) => Ok(x),
        None => Err(Message::new(ErrorKind::NotFound, missing)),
    }
}

/// Lists every record, and reports an empty store as `NotFound`.
pub fn fetch_all<R: Record>(store: &Store<R>, missing: &str) -> (r: Result<Vec<R>, Message>)
    requires
        store.wf(),
    ensures
        listed(r, missing@, store@),
{
    let out = store.list();
    if out.len() == 0 {
        Err(Message::new(ErrorKind::NotFound, missing))
    } else {
        Ok(out)
    }
}

/// The id that the next creation will use.
pub fn reserve(ids: &IdAllocator) -> (r: Result<u64, Message>)
    ensures
        ids.last() < u64::MAX ==> r == Ok::<u64, Message>(successor(ids.last())),
        ids.last() == u64::MAX ==> (r matches Err(e) && e@ == exhausted()),
{
    match ids.peek() {
        Some(id) => Ok(id),
        None => Err(Message::new(ErrorKind::Fatal, "ID counter exhausted")),
    }
}

/// Stores a record drafted under the reserved id, and advances the counter
/// to that id first: no record is stored unless its id was allocated.
pub fn commit<R: Record>(ids: &mut IdAllocator, store: &mut Store<R>, record: R) -> (r: Result<
    R,
    Message,
>)
    requires
        old(store).wf(),
        old(ids).last() < u64::MAX,
        R::key_of(record@) == successor(old(ids).last()),
    ensures
        final(store).wf(),
        entered(
            r,
            None,
            record@,
            old(ids).last(),
            final(ids).last(),
            old(store)@,
            final(store)@,
        ),
{
    if !Store::<R>::fits(&record) {
        return Err(
            Message::new(ErrorKind::InvalidPayload, "Record exceeds the maximum stored size"),
        );
    }
    match ids.next() {
        Ok(_) => {},
        Err(e) => {
            return Err(e);
        },
    }
    let stored = store.insert(&record);
    Ok(record)
}

/// Puts `record` in place of the record stored under its id.
pub fn replace<R: Record>(store: &mut Store<R>, record: R, missing: &str) -> (r: Result<
    R,
    Message,
>)
    requires
        old(store).wf(),
    ensures
        final(store).wf(),
        replaced(r, R::key_of(record@), record@, missing@, old(store)@, final(store)@),
{
    if !store.contains(record.id()) {
        return Err(Message::new(ErrorKind::NotFound, missing));
    }
    if !store.insert(&record) {
        return Err(
            Message::new(ErrorKind::InvalidPayload, "Record exceeds the maximum stored size"),
        );
    }
    Ok(record)
}

/// Takes out the record under `id`.
pub fn discard<R: Record>(store: &mut Store<R>, id: u64, missing: &str) -> (r: Result<
    (),
    Message,
>)
    requires
        old(store).wf(),
    ensures
        final(store).wf(),
        removed(r, id, missing@, old(store)@, final(store)@),
{
    proof {
        old(store).lemma_wf();
    }
    match store.remove(id) {
        Some(_) => {
            proof {
                store.lemma_wf();
                assert(store@.dom() =~= old(store)@.dom().remove(id));
            }
            Ok(())
        },
        None => {
            assert(store@ =~= old(store)@);
            Err(Message::new(ErrorKind::NotFound, missing))
        },
    }
}

} // verus!
