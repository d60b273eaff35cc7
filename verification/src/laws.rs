//! What holds of the operations taken together.
//!
//! Each law is stated over the predicates that the operations' contracts
//! use, so it holds of every entity type of the clinic and of the logistics
//! workflow.

use vstd::prelude::*;
use crate::crud::{entered, found, removed, replaced, sane, successor};
use crate::durable::MAX_VALUE_BYTES;
use crate::ids::unwritten;
use crate::logistics::matching::bound;
use crate::logistics::service::LogisticsView;
use crate::logistics::surplus_record::{SurplusRecord, SurplusRecordPayload};
use crate::message::{ErrorKind, Fault, Message};
use crate::record::Record;
use crate::store::lists;
use crate::wire::{lemma_take_opt_u64, lemma_take_u64};

verus! {

/// A creation that succeeds hands out the successor of the last id, which
/// no record of the store had, and makes it the last id.
pub proof fn lemma_created_id_is_new<R: Record>(
    r: Result<R, Message>,
    fault: Option<Fault>,
    draft: R::V,
    last_before: u64,
    last_after: u64,
    before: Map<u64, R::V>,
    after: Map<u64, R::V>,
)
    requires
        sane::<R>(before, last_before),
        R::key_of(draft) == successor(last_before),
        entered(r, fault, draft, last_before, last_after, before, after),
        r is Ok,
    ensures
        R::key_of(r->Ok_0@) == last_before + 1,
        last_after == R::key_of(r->Ok_0@),
        !before.contains_key(R::key_of(r->Ok_0@)),
        sane::<R>(after, last_after),
{
}

/// An id that is handed out is above every id of every store that was sane
/// under the last id: ids are not shared between entity types.
pub proof fn lemma_next_id_unused<R: Record>(other: Map<u64, R::V>, last: u64)
    requires
        sane::<R>(other, last),
        last < u64::MAX,
    ensures
        !other.contains_key(successor(last)),
        sane::<R>(other, successor(last)),
{
}

/// The last id never goes down in a creation, and of two creations that
/// succeed the later hands out the larger id, whatever happened between
/// them that did not lower the last id.
pub proof fn lemma_ids_increase<R: Record, S: Record>(
    first: Result<R, Message>,
    first_fault: Option<Fault>,
    first_draft: R::V,
    first_before: Map<u64, R::V>,
    first_after: Map<u64, R::V>,
    second: Result<S, Message>,
    second_fault: Option<Fault>,
    second_draft: S::V,
    second_before: Map<u64, S::V>,
    second_after: Map<u64, S::V>,
    l0: u64,
    l1: u64,
    l2: u64,
    l3: u64,
)
    requires
        R::key_of(first_draft) == successor(l0),
        S::key_of(second_draft) == successor(l2),
        entered(first, first_fault, first_draft, l0, l1, first_before, first_after),
        l1 <= l2,
        entered(second, second_fault, second_draft, l2, l3, second_before, second_after),
    ensures
        l0 <= l1,
        l2 <= l3,
        first is Ok && second is Ok ==> R::key_of(first->Ok_0@) < S::key_of(second->Ok_0@),
{
}

/// A creation that returns an error stores nothing and hands out no id; so
/// does every creation whose checks found a fault.
pub proof fn lemma_refusal_changes_nothing<R: Record>(
    r: Result<R, Message>,
    fault: Option<Fault>,
    draft: R::V,
    last_before: u64,
    last_after: u64,
    before: Map<u64, R::V>,
    after: Map<u64, R::V>,
)
    requires
        entered(r, fault, draft, last_before, last_after, before, after),
    ensures
        fault is Some ==> (r matches Err(e) && e@ == fault->0),
        r is Err ==> after == before && after.len() == before.len() && last_after == last_before,
{
}

/// A surplus record always fits a store.
pub proof fn lemma_surplus_record_fits(payload: SurplusRecordPayload, id: u64, now: u64)
    ensures
        SurplusRecord::encoding(payload.record(id, now)).len() <= MAX_VALUE_BYTES,
{
    let v = payload.record(id, now);
    lemma_take_u64(v.id, Seq::empty());
    lemma_take_u64(v.surplus_post_id, Seq::empty());
    lemma_take_u64(v.driver_id, Seq::empty());
    lemma_take_u64(v.delivered_at, Seq::empty());
    lemma_take_opt_u64(v.rating, Seq::empty());
}

/// A surplus record is created only for a surplus post and a driver that
/// some assignment binds. Without such an assignment the creation is a
/// conflict; with one it succeeds, unless no id is left or the counter could
/// not be written.
pub proof fn lemma_surplus_record_needs_assignment(
    v: LogisticsView,
    payload: SurplusRecordPayload,
    now: u64,
    r: Result<SurplusRecord, Message>,
    last_after: u64,
    after: Map<u64, <SurplusRecord as View>::V>,
)
    requires
        entered(
            r,
            v.surplus_record_fault(payload),
            payload.record(successor(v.last_id), now),
            v.last_id,
            last_after,
            v.surplus_records,
            after,
        ),
    ensures
        r is Ok ==> bound(v.assignments, Some(payload.surplus_post_id), Some(payload.driver_id)),
        !bound(v.assignments, Some(payload.surplus_post_id), Some(payload.driver_id)) ==> (
        r matches Err(e) && e@ == (ErrorKind::Conflict, "not assigned to the driver ID"@)),
        bound(v.assignments, Some(payload.surplus_post_id), Some(payload.driver_id)) && v.last_id
            < u64::MAX ==> r is Ok || (r matches Err(e) && e@ == unwritten()),
{
    lemma_surplus_record_fits(payload, successor(v.last_id), now);
}

/// A replacement under an id that has no record returns `NotFound` and
/// leaves the store as it was.
pub proof fn lemma_replacing_nothing<R: Record>(
    r: Result<R, Message>,
    id: u64,
    draft: R::V,
    missing: Seq<char>,
    before: Map<u64, R::V>,
    after: Map<u64, R::V>,
)
    requires
        replaced(r, id, draft, missing, before, after),
        !before.contains_key(id),
    ensures
        r matches Err(e) && e@ == (ErrorKind::NotFound, missing),
        after == before,
{
}

/// A removal that succeeds takes out the record under the id and no other:
/// a lookup of the id then returns `NotFound`, every other record is as it
/// was, and a listing is shorter by one.
pub proof fn lemma_removal_is_exact<R: Record>(
    r: Result<(), Message>,
    id: u64,
    missing: Seq<char>,
    before: Map<u64, R::V>,
    after: Map<u64, R::V>,
    looked_up: Result<R, Message>,
    listing_before: Seq<R>,
    listing_after: Seq<R>,
)
    requires
        removed(r, id, missing, before, after),
        before.contains_key(id),
        found(looked_up, id, missing, after),
        lists(listing_before, before),
        lists(listing_after, after),
    ensures
        r is Ok,
        looked_up matches Err(e) && e@ == (ErrorKind::NotFound, missing),
        forall|k: u64| k != id ==> after.contains_key(k) == before.contains_key(k),
        forall|k: u64| k != id && before.contains_key(k) ==> after[k] == before[k],
        listing_after.len() + 1 == listing_before.len(),
{
}

/// A record that was created is found under its id, equal to what the
/// creation returned.
pub proof fn lemma_created_is_found<R: Record>(
    r: Result<R, Message>,
    fault: Option<Fault>,
    draft: R::V,
    last_before: u64,
    last_after: u64,
    before: Map<u64, R::V>,
    after: Map<u64, R::V>,
    missing: Seq<char>,
    looked_up: Result<R, Message>,
)
    requires
        R::key_of(draft) == successor(last_before),
        entered(r, fault, draft, last_before, last_after, before, after),
        r is Ok,
        found(looked_up, R::key_of(r->Ok_0@), missing, after),
    ensures
        looked_up matches Ok(x) && x@ == r->Ok_0@ && x@ == draft,
{
}

/// Bytes that a record was encoded to decode to that record, and bytes that
/// decode are the encoding of what they decode to: what a store returns is
/// what was stored.
pub proof fn lemma_codec_is_exact<R: Record>(v: R::V, bytes: Seq<u8>)
    ensures
        R::encoding(v).len() <= MAX_VALUE_BYTES ==> R::decoding(R::encoding(v)) == Some(v),
        R::decoding(bytes) is Some ==> R::encoding(R::decoding(bytes).unwrap()) == bytes,
{
    if R::encoding(v).len() <= MAX_VALUE_BYTES {
        R::lemma_round_trip(v);
    }
    if R::decoding(bytes) is Some {
        R::lemma_canonical(bytes);
    }
}

} // verus!
