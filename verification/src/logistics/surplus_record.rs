//! Records of a delivery.

use vstd::prelude::*;
use crate::record::Record;
use crate::wire::{
    lemma_no_rest, lemma_regroup, lemma_take_opt_u64, lemma_take_u64, lemma_taken_opt_u64,
    lemma_taken_u64, opt_u64_bytes, put_opt_u64, put_u64, read_opt_u64, read_u64, take_opt_u64,
    take_u64, u64_bytes,
};

verus! {

/// A surplus record.
#[derive(Debug, PartialEq, Eq)]
pub struct SurplusRecord {
    pub id: u64,
    pub surplus_post_id: u64,
    pub driver_id: u64,
    pub delivered_at: u64,
    pub rating: Option<u64>,
}

/// A surplus record, as contracts see it.
pub struct SurplusRecordView {
    pub id: u64,
    pub surplus_post_id: u64,
    pub driver_id: u64,
    pub delivered_at: u64,
    pub rating: Option<u64>,
}

impl View for SurplusRecord {
    type V = SurplusRecordView;

    open spec fn view(&self) -> SurplusRecordView {
        SurplusRecordView {
            id: self.id,
            surplus_post_id: self.surplus_post_id,
            driver_id: self.driver_id,
            delivered_at: self.delivered_at,
            rating: self.rating,
        }
    }
}

impl Clone for SurplusRecord {
    fn clone(&self) -> (r: Self)
        ensures
            r@ == self@,
    {
        SurplusRecord {
            id: self.id,
            surplus_post_id: self.surplus_post_id,
            driver_id: self.driver_id,
            delivered_at: self.delivered_at,
            rating: self.rating,
        }
    }
}

/// What a caller supplies of a delivery.
#[derive(Debug, PartialEq, Eq)]
pub struct SurplusRecordPayload {
    pub surplus_post_id: u64,
    pub driver_id: u64,
}

impl SurplusRecordPayload {
    /// The delivery that the payload describes, under `id`, made at `now` and not
    /// yet rated.
    pub open spec fn record(&self, id: u64, now: u64) -> SurplusRecordView {
        SurplusRecordView {
            id,
            surplus_post_id: self.surplus_post_id,
            driver_id: self.driver_id,
            delivered_at: now,
            rating: None,
        }
    }

    /// The delivery that the payload describes, under `id`, made at `now` and not
    /// yet rated.
    pub fn into_record(self, id: u64, now: u64) -> (r: SurplusRecord)
        ensures
            r@ == self.record(id, now),
    {
        SurplusRecord {
            id,
            surplus_post_id: self.surplus_post_id,
            driver_id: self.driver_id,
            delivered_at: now,
            rating: None,
        }
    }

    /// The delivery that the payload describes, under `id`, made at `now`, with
    /// the rating given.
    pub open spec fn revision(&self, id: u64, now: u64, rating: Option<u64>) -> SurplusRecordView {
        SurplusRecordView {
            id,
            surplus_post_id: self.surplus_post_id,
            driver_id: self.driver_id,
            delivered_at: now,
            rating,
        }
    }

    /// The delivery that the payload describes, under `id`, made at `now`, with
    /// the rating given.
    pub fn into_revision(self, id: u64, now: u64, rating: Option<u64>) -> (r: SurplusRecord)
        ensures
            r@ == self.revision(id, now, rating),
    {
        SurplusRecord {
            id,
            surplus_post_id: self.surplus_post_id,
            driver_id: self.driver_id,
            delivered_at: now,
            rating,
        }
    }
}

impl Record for SurplusRecord {
    open spec fn key_of(v: SurplusRecordView) -> u64 {
        v.id
    }

    open spec fn encoding(v: SurplusRecordView) -> Seq<u8> {
        u64_bytes(v.id)
            + u64_bytes(v.surplus_post_id)
            + u64_bytes(v.driver_id)
            + u64_bytes(v.delivered_at)
            + opt_u64_bytes(v.rating)
    }

    open spec fn decoding(bytes: Seq<u8>) -> Option<SurplusRecordView> {
        let id = take_u64(bytes);
        let surplus_post_id = take_u64(id.unwrap().1);
        let driver_id = take_u64(surplus_post_id.unwrap().1);
        let delivered_at = take_u64(driver_id.unwrap().1);
        let rating = take_opt_u64(delivered_at.unwrap().1);
        if id is Some
            && surplus_post_id is Some
            && driver_id is Some
            && delivered_at is Some
            && rating is Some
            && rating.unwrap().1.len() == 0 {
            Some(
                SurplusRecordView {
                    id: id.unwrap().0,
                    surplus_post_id: surplus_post_id.unwrap().0,
                    driver_id: driver_id.unwrap().0,
                    delivered_at: delivered_at.unwrap().0,
                    rating: rating.unwrap().0,
                },
            )
        } else {
            None
        }
    }

    proof fn lemma_round_trip(v: SurplusRecordView) {
        let t4 = opt_u64_bytes(v.rating);
        let t3 = u64_bytes(v.delivered_at) + t4;
        let t2 = u64_bytes(v.driver_id) + t3;
        let t1 = u64_bytes(v.surplus_post_id) + t2;
        let t0 = u64_bytes(v.id) + t1;
        let done = u64_bytes(v.id);
        lemma_regroup(done, u64_bytes(v.surplus_post_id), t2);
        let done = done + u64_bytes(v.surplus_post_id);
        lemma_regroup(done, u64_bytes(v.driver_id), t3);
        let done = done + u64_bytes(v.driver_id);
        lemma_regroup(done, u64_bytes(v.delivered_at), t4);
        let done = done + u64_bytes(v.delivered_at);
        assert(Self::encoding(v) == t0);
        lemma_take_u64(v.id, t1);
        lemma_take_u64(v.surplus_post_id, t2);
        lemma_take_u64(v.driver_id, t3);
        lemma_take_u64(v.delivered_at, t4);
        lemma_take_opt_u64(v.rating, Seq::empty());
        lemma_no_rest(t4, Seq::empty());
    }

    proof fn lemma_canonical(bytes: Seq<u8>) {
        lemma_taken_u64(bytes);
        let id = take_u64(bytes).unwrap();
        let done = u64_bytes(id.0);
        lemma_taken_u64(id.1);
        let surplus_post_id = take_u64(id.1).unwrap();
        lemma_regroup(done, u64_bytes(surplus_post_id.0), surplus_post_id.1);
        let done = done + u64_bytes(surplus_post_id.0);
        lemma_taken_u64(surplus_post_id.1);
        let driver_id = take_u64(surplus_post_id.1).unwrap();
        lemma_regroup(done, u64_bytes(driver_id.0), driver_id.1);
        let done = done + u64_bytes(driver_id.0);
        lemma_taken_u64(driver_id.1);
        let delivered_at = take_u64(driver_id.1).unwrap();
        lemma_regroup(done, u64_bytes(delivered_at.0), delivered_at.1);
        let done = done + u64_bytes(delivered_at.0);
        lemma_taken_opt_u64(delivered_at.1);
        let rating = take_opt_u64(delivered_at.1).unwrap();
        lemma_regroup(done, opt_u64_bytes(rating.0), rating.1);
        let done = done + opt_u64_bytes(rating.0);
        lemma_no_rest(done, rating.1);
    }

    fn id(&self) -> u64 {
        self.id
    }

    fn encode(&self) -> Vec<u8> {
        let mut out: Vec<u8> = Vec::new();
        put_u64(&mut out, self.id);
        put_u64(&mut out, self.surplus_post_id);
        put_u64(&mut out, self.driver_id);
        put_u64(&mut out, self.delivered_at);
        put_opt_u64(&mut out, self.rating);
        assert(out@ =~= Self::encoding(self@));
        out
    }

    fn decode(bytes: &[u8]) -> Option<Self> {
        assert(bytes@.skip(0) =~= bytes@);
        let (id, at) = match read_u64(bytes, 0) {
            Some(p) => p,
            None => { return None; },
        };
        let (surplus_post_id, at) = match read_u64(bytes, at) {
            Some(p) => p,
            None => { return None; },
        };
        let (driver_id, at) = match read_u64(bytes, at) {
            Some(p) => p,
            None => { return None; },
        };
        let (delivered_at, at) = match read_u64(bytes, at) {
            Some(p) => p,
            None => { return None; },
        };
        let (rating, at) = match read_opt_u64(bytes, at) {
            Some(p) => p,
            None => { return None; },
        };
        if at != bytes.len() {
            return None;
        }
        Some(SurplusRecord { id, surplus_post_id, driver_id, delivered_at, rating })
    }
}

} // verus!
