//! Posts of surplus food on offer.

use vstd::prelude::*;
use crate::message::{ErrorKind, Fault, Message};
use crate::record::Record;
use crate::wire::{
    flag_bytes, lemma_no_rest, lemma_regroup, lemma_take_flag, lemma_take_text, lemma_take_u64,
    lemma_taken_flag, lemma_taken_text, lemma_taken_u64, lemma_text_len, put_flag, put_text,
    put_u64, read_flag, read_text, read_u64, take_flag, take_text, take_u64, text_bytes,
    u64_bytes,
};

verus! {

/// A surplus post.
#[derive(Debug, PartialEq, Eq)]
pub struct SurplusPost {
    pub id: u64,
    pub donor_id: u64,
    pub food_type: String,
    pub quantity: u64,
    pub expiry_date: String,
    pub assigned: bool,
}

/// A surplus post, as contracts see it.
pub struct SurplusPostView {
    pub id: u64,
    pub donor_id: u64,
    pub food_type: Seq<char>,
    pub quantity: u64,
    pub expiry_date: Seq<char>,
    pub assigned: bool,
}

impl View for SurplusPost {
    type V = SurplusPostView;

    open spec fn view(&self) -> SurplusPostView {
        SurplusPostView {
            id: self.id,
            donor_id: self.donor_id,
            food_type: self.food_type@,
            quantity: self.quantity,
            expiry_date: self.expiry_date@,
            assigned: self.assigned,
        }
    }
}

impl Clone for SurplusPost {
    fn clone(&self) -> (r: Self)
        ensures
            r@ == self@,
    {
        SurplusPost {
            id: self.id,
            donor_id: self.donor_id,
            food_type: self.food_type.clone(),
            quantity: self.quantity,
            expiry_date: self.expiry_date.clone(),
            assigned: self.assigned,
        }
    }
}

/// What a caller supplies of a surplus post.
#[derive(Debug, PartialEq, Eq)]
pub struct SurplusPostPayload {
    pub donor_id: u64,
    pub food_type: String,
    pub quantity: u64,
    pub expiry_date: String,
}

impl SurplusPostPayload {
    /// Why the payload is refused, if it is.
    pub open spec fn fault(&self) -> Option<Fault> {
        if self.food_type@.len() == 0 || self.expiry_date@.len() == 0 {
            Some((ErrorKind::InvalidPayload, "Ensure 'food_type' and 'expiry_date' are provided."@))
        } else if self.quantity == 0 {
            Some((ErrorKind::InvalidPayload, "Ensure 'quantity' is not zero."@))
        } else {
            None
        }
    }

    /// Holds the payload to the field checks.
    pub fn check(&self) -> (r: Result<(), Message>)
        ensures
            r is Ok ==> self.fault() is None,
            r matches Err(e) ==> self.fault() == Some(e@),
    {
        if self.food_type.as_str().is_empty() || self.expiry_date.as_str().is_empty() {
            return Err(
                Message::new(
                    ErrorKind::InvalidPayload,
                    "Ensure 'food_type' and 'expiry_date' are provided.",
                ),
            );
        }
        if self.quantity == 0 {
            return Err(Message::new(ErrorKind::InvalidPayload, "Ensure 'quantity' is not zero."));
        }
        Ok(())
    }

    /// The post that the payload describes, under `id`, not yet assigned.
    pub open spec fn record(&self, id: u64) -> SurplusPostView {
        SurplusPostView {
            id,
            donor_id: self.donor_id,
            food_type: self.food_type@,
            quantity: self.quantity,
            expiry_date: self.expiry_date@,
            assigned: false,
        }
    }

    /// The post that the payload describes, under `id`, not yet assigned.
    pub fn into_record(self, id: u64) -> (r: SurplusPost)
        ensures
            r@ == self.record(id),
    {
        SurplusPost {
            id,
            donor_id: self.donor_id,
            food_type: self.food_type,
            quantity: self.quantity,
            expiry_date: self.expiry_date,
            assigned: false,
        }
    }

    /// The post that the payload describes, under `id`, assigned or not as given.
    pub open spec fn revision(&self, id: u64, assigned: bool) -> SurplusPostView {
        SurplusPostView {
            id,
            donor_id: self.donor_id,
            food_type: self.food_type@,
            quantity: self.quantity,
            expiry_date: self.expiry_date@,
            assigned,
        }
    }

    /// The post that the payload describes, under `id`, assigned or not as given.
    pub fn into_revision(self, id: u64, assigned: bool) -> (r: SurplusPost)
        ensures
            r@ == self.revision(id, assigned),
    {
        SurplusPost {
            id,
            donor_id: self.donor_id,
            food_type: self.food_type,
            quantity: self.quantity,
            expiry_date: self.expiry_date,
            assigned,
        }
    }
}

impl Record for SurplusPost {
    open spec fn key_of(v: SurplusPostView) -> u64 {
        v.id
    }

    open spec fn encoding(v: SurplusPostView) -> Seq<u8> {
        u64_bytes(v.id)
            + u64_bytes(v.donor_id)
            + text_bytes(v.food_type)
            + u64_bytes(v.quantity)
            + text_bytes(v.expiry_date)
            + flag_bytes(v.assigned)
    }

    open spec fn decoding(bytes: Seq<u8>) -> Option<SurplusPostView> {
        let id = take_u64(bytes);
        let donor_id = take_u64(id.unwrap().1);
        let food_type = take_text(donor_id.unwrap().1);
        let quantity = take_u64(food_type.unwrap().1);
        let expiry_date = take_text(quantity.unwrap().1);
        let assigned = take_flag(expiry_date.unwrap().1);
        if id is Some
            && donor_id is Some
            && food_type is Some
            && quantity is Some
            && expiry_date is Some
            && assigned is Some
            && assigned.unwrap().1.len() == 0 {
            Some(
                SurplusPostView {
                    id: id.unwrap().0,
                    donor_id: donor_id.unwrap().0,
                    food_type: food_type.unwrap().0,
                    quantity: quantity.unwrap().0,
                    expiry_date: expiry_date.unwrap().0,
                    assigned: assigned.unwrap().0,
                },
            )
        } else {
            None
        }
    }

    proof fn lemma_round_trip(v: SurplusPostView) {
        let t5 = flag_bytes(v.assigned);
        let t4 = text_bytes(v.expiry_date) + t5;
        let t3 = u64_bytes(v.quantity) + t4;
        let t2 = text_bytes(v.food_type) + t3;
        let t1 = u64_bytes(v.donor_id) + t2;
        let t0 = u64_bytes(v.id) + t1;
        let done = u64_bytes(v.id);
        lemma_regroup(done, u64_bytes(v.donor_id), t2);
        let done = done + u64_bytes(v.donor_id);
        lemma_regroup(done, text_bytes(v.food_type), t3);
        let done = done + text_bytes(v.food_type);
        lemma_regroup(done, u64_bytes(v.quantity), t4);
        let done = done + u64_bytes(v.quantity);
        lemma_regroup(done, text_bytes(v.expiry_date), t5);
        let done = done + text_bytes(v.expiry_date);
        assert(Self::encoding(v) == t0);
        lemma_text_len(v.food_type);
        lemma_text_len(v.expiry_date);
        lemma_take_u64(v.id, t1);
        lemma_take_u64(v.donor_id, t2);
        lemma_take_text(v.food_type, t3);
        lemma_take_u64(v.quantity, t4);
        lemma_take_text(v.expiry_date, t5);
        lemma_take_flag(v.assigned, Seq::empty());
        lemma_no_rest(t5, Seq::empty());
    }

    proof fn lemma_canonical(bytes: Seq<u8>) {
        lemma_taken_u64(bytes);
        let id = take_u64(bytes).unwrap();
        let done = u64_bytes(id.0);
        lemma_taken_u64(id.1);
        let donor_id = take_u64(id.1).unwrap();
        lemma_regroup(done, u64_bytes(donor_id.0), donor_id.1);
        let done = done + u64_bytes(donor_id.0);
        lemma_taken_text(donor_id.1);
        let food_type = take_text(donor_id.1).unwrap();
        lemma_regroup(done, text_bytes(food_type.0), food_type.1);
        let done = done + text_bytes(food_type.0);
        lemma_taken_u64(food_type.1);
        let quantity = take_u64(food_type.1).unwrap();
        lemma_regroup(done, u64_bytes(quantity.0), quantity.1);
        let done = done + u64_bytes(quantity.0);
        lemma_taken_text(quantity.1);
        let expiry_date = take_text(quantity.1).unwrap();
        lemma_regroup(done, text_bytes(expiry_date.0), expiry_date.1);
        let done = done + text_bytes(expiry_date.0);
        lemma_taken_flag(expiry_date.1);
        let assigned = take_flag(expiry_date.1).unwrap();
        lemma_regroup(done, flag_bytes(assigned.0), assigned.1);
        let done = done + flag_bytes(assigned.0);
        lemma_no_rest(done, assigned.1);
    }

    fn id(&self) -> u64 {
        self.id
    }

    fn encode(&self) -> Vec<u8> {
        let mut out: Vec<u8> = Vec::new();
        put_u64(&mut out, self.id);
        put_u64(&mut out, self.donor_id);
        put_text(&mut out, self.food_type.as_str());
        put_u64(&mut out, self.quantity);
        put_text(&mut out, self.expiry_date.as_str());
        put_flag(&mut out, self.assigned);
        assert(out@ =~= Self::encoding(self@));
        out
    }

    fn decode(bytes: &[u8]) -> Option<Self> {
        assert(bytes@.skip(0) =~= bytes@);
        let (id, at) = match read_u64(bytes, 0) {
            Some(p) => p,
            None => { return None; },
        };
        let (donor_id, at) = match read_u64(bytes, at) {
            Some(p) => p,
            None => { return None; },
        };
        let (food_type, at) = match read_text(bytes, at) {
            Some(p) => p,
            None => { return None; },
        };
        let (quantity, at) = match read_u64(bytes, at) {
            Some(p) => p,
            None => { return None; },
        };
        let (expiry_date, at) = match read_text(bytes, at) {
            Some(p) => p,
            None => { return None; },
        };
        let (assigned, at) = match read_flag(bytes, at) {
            Some(p) => p,
            None => { return None; },
        };
        if at != bytes.len() {
            return None;
        }
        Some(SurplusPost { id, donor_id, food_type, quantity, expiry_date, assigned })
    }
}

impl SurplusPostView {
    /// The post, assigned.
    pub open spec fn taken(self) -> SurplusPostView {
        SurplusPostView { assigned: true, ..self }
    }
}

impl SurplusPost {
    /// The post, assigned. It takes as many bytes as it did.
    pub fn taken(self) -> (r: SurplusPost)
        ensures
            r@ == self@.taken(),
            SurplusPost::encoding(r@).len() == SurplusPost::encoding(self@).len(),
    {
        SurplusPost {
            id: self.id,
            donor_id: self.donor_id,
            food_type: self.food_type,
            quantity: self.quantity,
            expiry_date: self.expiry_date,
            assigned: true,
        }
    }
}

} // verus!
