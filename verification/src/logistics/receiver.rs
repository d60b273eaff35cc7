//! Receivers of surplus food.

use vstd::prelude::*;
use crate::message::{ErrorKind, Fault, Message};
use crate::record::Record;
use crate::validation::{has_at_sign, has_length};
use crate::wire::{
    lemma_no_rest, lemma_regroup, lemma_take_text, lemma_take_u64, lemma_taken_text,
    lemma_taken_u64, lemma_text_len, put_text, put_u64, read_text, read_u64, take_text, take_u64,
    text_bytes, u64_bytes,
};

verus! {

/// A receiver.
#[derive(Debug, PartialEq, Eq)]
pub struct ReceiverProfile {
    pub id: u64,
    pub name: String,
    pub phone_number: String,
    pub email: String,
    pub address: String,
    pub created_at: u64,
}

/// A receiver, as contracts see it.
pub struct ReceiverProfileView {
    pub id: u64,
    pub name: Seq<char>,
    pub phone_number: Seq<char>,
    pub email: Seq<char>,
    pub address: Seq<char>,
    pub created_at: u64,
}

impl View for ReceiverProfile {
    type V = ReceiverProfileView;

    open spec fn view(&self) -> ReceiverProfileView {
        ReceiverProfileView {
            id: self.id,
            name: self.name@,
            phone_number: self.phone_number@,
            email: self.email@,
            address: self.address@,
            created_at: self.created_at,
        }
    }
}

impl Clone for ReceiverProfile {
    fn clone(&self) -> (r: Self)
        ensures
            r@ == self@,
    {
        ReceiverProfile {
            id: self.id,
            name: self.name.clone(),
            phone_number: self.phone_number.clone(),
            email: self.email.clone(),
            address: self.address.clone(),
            created_at: self.created_at,
        }
    }
}

/// What a caller supplies of a receiver.
#[derive(Debug, PartialEq, Eq)]
pub struct ReceiverProfilePayload {
    pub name: String,
    pub phone_number: String,
    pub email: String,
    pub address: String,
}

impl ReceiverProfilePayload {
    /// Why the payload is refused, if it is.
    pub open spec fn fault(&self) -> Option<Fault> {
        if self.name@.len() == 0
            || self.phone_number@.len() == 0
            || self.email@.len() == 0
            || self.address@.len() == 0 {
            Some(
                (
                    ErrorKind::InvalidPayload,
                    "Ensure 'name', 'phone_number', 'email' and 'address' are provided."@,
                ),
            )
        } else if self.phone_number@.len() != 10 {
            Some((ErrorKind::InvalidPayload, "Ensure 'phone_number' has exactly 10 characters."@))
        } else if !self.email@.contains('@') {
            Some((ErrorKind::InvalidPayload, "Ensure 'email' contains '@'."@))
        } else {
            None
        }
    }

    /// Holds the payload to the field checks.
    pub fn check(&self) -> (r: Result<(), Message>)
        ensures
            r is Ok ==> self.fault() is None,
            r matches Err(e) ==> self.fault() == Some(e@),
    {
        if self.name.as_str().is_empty()
            || self.phone_number.as_str().is_empty()
            || self.email.as_str().is_empty()
            || self.address.as_str().is_empty() {
            return Err(
                Message::new(
                    ErrorKind::InvalidPayload,
                    "Ensure 'name', 'phone_number', 'email' and 'address' are provided.",
                ),
            );
        }
        if !has_length(self.phone_number.as_str(), 10) {
            return Err(
                Message::new(
                    ErrorKind::InvalidPayload,
                    "Ensure 'phone_number' has exactly 10 characters.",
                ),
            );
        }
        if !has_at_sign(self.email.as_str()) {
            return Err(Message::new(ErrorKind::InvalidPayload, "Ensure 'email' contains '@'."));
        }
        Ok(())
    }

    /// The receiver that the payload describes, under `id` and stamped `now`.
    pub open spec fn record(&self, id: u64, now: u64) -> ReceiverProfileView {
        ReceiverProfileView {
            id,
            name: self.name@,
            phone_number: self.phone_number@,
            email: self.email@,
            address: self.address@,
            created_at: now,
        }
    }

    /// The receiver that the payload describes, under `id` and stamped `now`.
    pub fn into_record(self, id: u64, now: u64) -> (r: ReceiverProfile)
        ensures
            r@ == self.record(id, now),
    {
        ReceiverProfile {
            id,
            name: self.name,
            phone_number: self.phone_number,
            email: self.email,
            address: self.address,
            created_at: now,
        }
    }
}

impl Record for ReceiverProfile {
    open spec fn key_of(v: ReceiverProfileView) -> u64 {
        v.id
    }

    open spec fn encoding(v: ReceiverProfileView) -> Seq<u8> {
        u64_bytes(v.id)
            + text_bytes(v.name)
            + text_bytes(v.phone_number)
            + text_bytes(v.email)
            + text_bytes(v.address)
            + u64_bytes(v.created_at)
    }

    open spec fn decoding(bytes: Seq<u8>) -> Option<ReceiverProfileView> {
        let id = take_u64(bytes);
        let name = take_text(id.unwrap().1);
        let phone_number = take_text(name.unwrap().1);
        let email = take_text(phone_number.unwrap().1);
        let address = take_text(email.unwrap().1);
        let created_at = take_u64(address.unwrap().1);
        if id is Some
            && name is Some
            && phone_number is Some
            && email is Some
            && address is Some
            && created_at is Some
            && created_at.unwrap().1.len() == 0 {
            Some(
                ReceiverProfileView {
                    id: id.unwrap().0,
                    name: name.unwrap().0,
                    phone_number: phone_number.unwrap().0,
                    email: email.unwrap().0,
                    address: address.unwrap().0,
                    created_at: created_at.unwrap().0,
                },
            )
        } else {
            None
        }
    }

    proof fn lemma_round_trip(v: ReceiverProfileView) {
        let t5 = u64_bytes(v.created_at);
        let t4 = text_bytes(v.address) + t5;
        let t3 = text_bytes(v.email) + t4;
        let t2 = text_bytes(v.phone_number) + t3;
        let t1 = text_bytes(v.name) + t2;
        let t0 = u64_bytes(v.id) + t1;
        let done = u64_bytes(v.id);
        lemma_regroup(done, text_bytes(v.name), t2);
        let done = done + text_bytes(v.name);
        lemma_regroup(done, text_bytes(v.phone_number), t3);
        let done = done + text_bytes(v.phone_number);
        lemma_regroup(done, text_bytes(v.email), t4);
        let done = done + text_bytes(v.email);
        lemma_regroup(done, text_bytes(v.address), t5);
        let done = done + text_bytes(v.address);
        assert(Self::encoding(v) == t0);
        lemma_text_len(v.name);
        lemma_text_len(v.phone_number);
        lemma_text_len(v.email);
        lemma_text_len(v.address);
        lemma_take_u64(v.id, t1);
        lemma_take_text(v.name, t2);
        lemma_take_text(v.phone_number, t3);
        lemma_take_text(v.email, t4);
        lemma_take_text(v.address, t5);
        lemma_take_u64(v.created_at, Seq::empty());
        lemma_no_rest(t5, Seq::empty());
    }

    proof fn lemma_canonical(bytes: Seq<u8>) {
        lemma_taken_u64(bytes);
        let id = take_u64(bytes).unwrap();
        let done = u64_bytes(id.0);
        lemma_taken_text(id.1);
        let name = take_text(id.1).unwrap();
        lemma_regroup(done, text_bytes(name.0), name.1);
        let done = done + text_bytes(name.0);
        lemma_taken_text(name.1);
        let phone_number = take_text(name.1).unwrap();
        lemma_regroup(done, text_bytes(phone_number.0), phone_number.1);
        let done = done + text_bytes(phone_number.0);
        lemma_taken_text(phone_number.1);
        let email = take_text(phone_number.1).unwrap();
        lemma_regroup(done, text_bytes(email.0), email.1);
        let done = done + text_bytes(email.0);
        lemma_taken_text(email.1);
        let address = take_text(email.1).unwrap();
        lemma_regroup(done, text_bytes(address.0), address.1);
        let done = done + text_bytes(address.0);
        lemma_taken_u64(address.1);
        let created_at = take_u64(address.1).unwrap();
        lemma_regroup(done, u64_bytes(created_at.0), created_at.1);
        let done = done + u64_bytes(created_at.0);
        lemma_no_rest(done, created_at.1);
    }

    fn id(&self) -> u64 {
        self.id
    }

    fn encode(&self) -> Vec<u8> {
        let mut out: Vec<u8> = Vec::new();
        put_u64(&mut out, self.id);
        put_text(&mut out, self.name.as_str());
        put_text(&mut out, self.phone_number.as_str());
        put_text(&mut out, self.email.as_str());
        put_text(&mut out, self.address.as_str());
        put_u64(&mut out, self.created_at);
        assert(out@ =~= Self::encoding(self@));
        out
    }

    fn decode(bytes: &[u8]) -> Option<Self> {
        assert(bytes@.skip(0) =~= bytes@);
        let (id, at) = match read_u64(bytes, 0) {
            Some(p) => p,
            None => { return None; },
        };
        let (name, at) = match read_text(bytes, at) {
            Some(p) => p,
            None => { return None; },
        };
        let (phone_number, at) = match read_text(bytes, at) {
            Some(p) => p,
            None => { return None; },
        };
        let (email, at) = match read_text(bytes, at) {
            Some(p) => p,
            None => { return None; },
        };
        let (address, at) = match read_text(bytes, at) {
            Some(p) => p,
            None => { return None; },
        };
        let (created_at, at) = match read_u64(bytes, at) {
            Some(p) => p,
            None => { return None; },
        };
        if at != bytes.len() {
            return None;
        }
        Some(ReceiverProfile { id, name, phone_number, email, address, created_at })
    }
}

} // verus!
