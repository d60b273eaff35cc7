//! Donors of surplus food.

use vstd::prelude::*;
use crate::message::{ErrorKind, Fault, Message};
use crate::record::Record;
use crate::validation::{has_at_sign, has_length};
use crate::wire::{
    lemma_no_rest, lemma_regroup, lemma_take_text, lemma_take_u64, lemma_taken_text,
    lemma_taken_u64, lemma_text_len, put_text, put_u64, read_text, read_u64, take_text, take_u64,
    text_bytes, u64_bytes,
};

verus! {

/// The kind of a donor.
#[derive(Clone, Copy, Debug, PartialEq, Eq, Structural)]
pub enum DonorType {
    Restaurant,
    GroceryStore,
    Farm,
    Individual,
}

impl DonorType {
    /// The byte that stands for the kind.
    pub open spec fn code(self) -> u8 {
        match self {
            DonorType::Restaurant => 0,
            DonorType::GroceryStore => 1,
            DonorType::Farm => 2,
            DonorType::Individual => 3,
        }
    }

    /// The kind that a byte stands for, if it stands for one.
    pub open spec fn of_code(c: u8) -> Option<DonorType> {
        if c == 0 {
            Some(DonorType::Restaurant)
        } else if c == 1 {
            Some(DonorType::GroceryStore)
        } else if c == 2 {
            Some(DonorType::Farm)
        } else if c == 3 {
            Some(DonorType::Individual)
        } else {
            None
        }
    }
}

/// A donor's kind is one byte.
pub open spec fn donor_type_bytes(t: DonorType) -> Seq<u8> {
    seq![t.code()]
}

/// Splits a donor's kind off the front of `b`.
pub open spec fn take_donor_type(b: Seq<u8>) -> Option<(DonorType, Seq<u8>)> {
    if b.len() >= 1 && DonorType::of_code(b[0]) is Some {
        Some((DonorType::of_code(b[0]).unwrap(), b.skip(1)))
    } else {
        None
    }
}

/// `take_donor_type` splits off the kind that was encoded, and leaves the
/// rest.
pub proof fn lemma_take_donor_type(t: DonorType, rest: Seq<u8>)
    ensures
        donor_type_bytes(t).len() == 1,
        take_donor_type(donor_type_bytes(t) + rest) == Some((t, rest)),
{
    let b = donor_type_bytes(t) + rest;
    assert(b[0] == t.code());
    assert(b.skip(1) =~= rest);
}

/// What `take_donor_type` splits off, put back in front of the rest, is the
/// input.
pub proof fn lemma_taken_donor_type(b: Seq<u8>)
    requires
        take_donor_type(b) is Some,
    ensures
        b == donor_type_bytes(take_donor_type(b).unwrap().0) + take_donor_type(b).unwrap().1,
{
    assert(b =~= seq![b[0]] + b.skip(1));
}

/// Appends a donor's kind to `out`.
pub fn put_donor_type(out: &mut Vec<u8>, t: DonorType)
    ensures
        final(out)@ == old(out)@ + donor_type_bytes(t),
{
    let c: u8 = match t {
        DonorType::Restaurant => 0,
        DonorType::GroceryStore => 1,
        DonorType::Farm => 2,
        DonorType::Individual => 3,
    };
    out.push(c);
    assert(out@ =~= old(out)@ + donor_type_bytes(t));
}

/// Reads a donor's kind at `pos`, and says where the next field starts.
pub fn read_donor_type(bytes: &[u8], pos: usize) -> (r: Option<(DonorType, usize)>)
    requires
        pos <= bytes@.len(),
    ensures
        match r {
            Some((t, next)) => pos <= next <= bytes@.len() && take_donor_type(
                bytes@.skip(pos as int),
            ) == Some((t, bytes@.skip(next as int))),
            None => take_donor_type(bytes@.skip(pos as int)) is None,
        },
{
    if bytes.len() - pos < 1 {
        return None;
    }
    let c = bytes[pos];
    proof {
        let rest = bytes@.skip(pos as int);
        assert(rest[0] == bytes@[pos as int]);
        assert(rest.skip(1) =~= bytes@.skip(pos + 1));
    }
    let t = if c == 0 {
        DonorType::Restaurant
    } else if c == 1 {
        DonorType::GroceryStore
    } else if c == 2 {
        DonorType::Farm
    } else if c == 3 {
        DonorType::Individual
    } else {
        return None;
    };
    Some((t, pos + 1))
}

/// A donor.
#[derive(Debug, PartialEq, Eq)]
pub struct DonorProfile {
    pub id: u64,
    pub name: String,
    pub phone_number: String,
    pub email: String,
    pub address: String,
    pub donor_type: DonorType,
    pub created_at: u64,
}

/// A donor, as contracts see it.
pub struct DonorProfileView {
    pub id: u64,
    pub name: Seq<char>,
    pub phone_number: Seq<char>,
    pub email: Seq<char>,
    pub address: Seq<char>,
    pub donor_type: DonorType,
    pub created_at: u64,
}

impl View for DonorProfile {
    type V = DonorProfileView;

    open spec fn view(&self) -> DonorProfileView {
        DonorProfileView {
            id: self.id,
            name: self.name@,
            phone_number: self.phone_number@,
            email: self.email@,
            address: self.address@,
            donor_type: self.donor_type,
            created_at: self.created_at,
        }
    }
}

impl Clone for DonorProfile {
    fn clone(&self) -> (r: Self)
        ensures
            r@ == self@,
    {
        DonorProfile {
            id: self.id,
            name: self.name.clone(),
            phone_number: self.phone_number.clone(),
            email: self.email.clone(),
            address: self.address.clone(),
            donor_type: self.donor_type,
            created_at: self.created_at,
        }
    }
}

/// What a caller supplies of a donor.
#[derive(Debug, PartialEq, Eq)]
pub struct DonorProfilePayload {
    pub name: String,
    pub phone_number: String,
    pub email: String,
    pub address: String,
    pub donor_type: DonorType,
}

impl DonorProfilePayload {
    /// Why the payload is refused, if it is.
    pub open spec fn fault(&self) -> Option<Fault> {
        if self.name@.len() == 0
            || self.phone_number@.len() == 0
            || self.email@.len() == 0
            || self.address@.len() == 0 {
            Some(
                (
                    ErrorKind::InvalidPayload,
                    "Ensure 'name', 'phone_number', 'email' and 'address' are provided."@,
                ),
            )
        } else if self.phone_number@.len() != 10 {
            Some((ErrorKind::InvalidPayload, "Ensure 'phone_number' has exactly 10 characters."@))
        } else if !self.email@.contains('@') {
            Some((ErrorKind::InvalidPayload, "Ensure 'email' contains '@'."@))
        } else {
            None
        }
    }

    /// Holds the payload to the field checks.
    pub fn check(&self) -> (r: Result<(), Message>)
        ensures
            r is Ok ==> self.fault() is None,
            r matches Err(e) ==> self.fault() == Some(e@),
    {
        if self.name.as_str().is_empty()
            || self.phone_number.as_str().is_empty()
            || self.email.as_str().is_empty()
            || self.address.as_str().is_empty() {
            return Err(
                Message::new(
                    ErrorKind::InvalidPayload,
                    "Ensure 'name', 'phone_number', 'email' and 'address' are provided.",
                ),
            );
        }
        if !has_length(self.phone_number.as_str(), 10) {
            return Err(
                Message::new(
                    ErrorKind::InvalidPayload,
                    "Ensure 'phone_number' has exactly 10 characters.",
                ),
            );
        }
        if !has_at_sign(self.email.as_str()) {
            return Err(Message::new(ErrorKind::InvalidPayload, "Ensure 'email' contains '@'."));
        }
        Ok(())
    }

    /// The donor that the payload describes, under `id` and stamped `now`.
    pub open spec fn record(&self, id: u64, now: u64) -> DonorProfileView {
        DonorProfileView {
            id,
            name: self.name@,
            phone_number: self.phone_number@,
            email: self.email@,
            address: self.address@,
            donor_type: self.donor_type,
            created_at: now,
        }
    }

    /// The donor that the payload describes, under `id` and stamped `now`.
    pub fn into_record(self, id: u64, now: u64) -> (r: DonorProfile)
        ensures
            r@ == self.record(id, now),
    {
        DonorProfile {
            id,
            name: self.name,
            phone_number: self.phone_number,
            email: self.email,
            address: self.address,
            donor_type: self.donor_type,
            created_at: now,
        }
    }
}

impl Record for DonorProfile {
    open spec fn key_of(v: DonorProfileView) -> u64 {
        v.id
    }

    open spec fn encoding(v: DonorProfileView) -> Seq<u8> {
        u64_bytes(v.id)
            + text_bytes(v.name)
            + text_bytes(v.phone_number)
            + text_bytes(v.email)
            + text_bytes(v.address)
            + donor_type_bytes(v.donor_type)
            + u64_bytes(v.created_at)
    }

    open spec fn decoding(bytes: Seq<u8>) -> Option<DonorProfileView> {
        let id = take_u64(bytes);
        let name = take_text(id.unwrap().1);
        let phone_number = take_text(name.unwrap().1);
        let email = take_text(phone_number.unwrap().1);
        let address = take_text(email.unwrap().1);
        let donor_type = take_donor_type(address.unwrap().1);
        let created_at = take_u64(donor_type.unwrap().1);
        if id is Some
            && name is Some
            && phone_number is Some
            && email is Some
            && address is Some
            && donor_type is Some
            && created_at is Some
            && created_at.unwrap().1.len() == 0 {
            Some(
                DonorProfileView {
                    id: id.unwrap().0,
                    name: name.unwrap().0,
                    phone_number: phone_number.unwrap().0,
                    email: email.unwrap().0,
                    address: address.unwrap().0,
                    donor_type: donor_type.unwrap().0,
                    created_at: created_at.unwrap().0,
                },
            )
        } else {
            None
        }
    }

    proof fn lemma_round_trip(v: DonorProfileView) {
        let t6 = u64_bytes(v.created_at);
        let t5 = donor_type_bytes(v.donor_type) + t6;
        let t4 = text_bytes(v.address) + t5;
        let t3 = text_bytes(v.email) + t4;
        let t2 = text_bytes(v.phone_number) + t3;
        let t1 = text_bytes(v.name) + t2;
        let t0 = u64_bytes(v.id) + t1;
        let done = u64_bytes(v.id);
        lemma_regroup(done, text_bytes(v.name), t2);
        let done = done + text_bytes(v.name);
        lemma_regroup(done, text_bytes(v.phone_number), t3);
        let done = done + text_bytes(v.phone_number);
        lemma_regroup(done, text_bytes(v.email), t4);
        let done = done + text_bytes(v.email);
        lemma_regroup(done, text_bytes(v.address), t5);
        let done = done + text_bytes(v.address);
        lemma_regroup(done, donor_type_bytes(v.donor_type), t6);
        let done = done + donor_type_bytes(v.donor_type);
        assert(Self::encoding(v) == t0);
        lemma_text_len(v.name);
        lemma_text_len(v.phone_number);
        lemma_text_len(v.email);
        lemma_text_len(v.address);
        lemma_take_u64(v.id, t1);
        lemma_take_text(v.name, t2);
        lemma_take_text(v.phone_number, t3);
        lemma_take_text(v.email, t4);
        lemma_take_text(v.address, t5);
        lemma_take_donor_type(v.donor_type, t6);
        lemma_take_u64(v.created_at, Seq::empty());
        lemma_no_rest(t6, Seq::empty());
    }

    proof fn lemma_canonical(bytes: Seq<u8>) {
        lemma_taken_u64(bytes);
        let id = take_u64(bytes).unwrap();
        let done = u64_bytes(id.0);
        lemma_taken_text(id.1);
        let name = take_text(id.1).unwrap();
        lemma_regroup(done, text_bytes(name.0), name.1);
        let done = done + text_bytes(name.0);
        lemma_taken_text(name.1);
        let phone_number = take_text(name.1).unwrap();
        lemma_regroup(done, text_bytes(phone_number.0), phone_number.1);
        let done = done + text_bytes(phone_number.0);
        lemma_taken_text(phone_number.1);
        let email = take_text(phone_number.1).unwrap();
        lemma_regroup(done, text_bytes(email.0), email.1);
        let done = done + text_bytes(email.0);
        lemma_taken_text(email.1);
        let address = take_text(email.1).unwrap();
        lemma_regroup(done, text_bytes(address.0), address.1);
        let done = done + text_bytes(address.0);
        lemma_taken_donor_type(address.1);
        let donor_type = take_donor_type(address.1).unwrap();
        lemma_regroup(done, donor_type_bytes(donor_type.0), donor_type.1);
        let done = done + donor_type_bytes(donor_type.0);
        lemma_taken_u64(donor_type.1);
        let created_at = take_u64(donor_type.1).unwrap();
        lemma_regroup(done, u64_bytes(created_at.0), created_at.1);
        let done = done + u64_bytes(created_at.0);
        lemma_no_rest(done, created_at.1);
    }

    fn id(&self) -> u64 {
        self.id
    }

    fn encode(&self) -> Vec<u8> {
        let mut out: Vec<u8> = Vec::new();
        put_u64(&mut out, self.id);
        put_text(&mut out, self.name.as_str());
        put_text(&mut out, self.phone_number.as_str());
        put_text(&mut out, self.email.as_str());
        put_text(&mut out, self.address.as_str());
        put_donor_type(&mut out, self.donor_type);
        put_u64(&mut out, self.created_at);
        assert(out@ =~= Self::encoding(self@));
        out
    }

    fn decode(bytes: &[u8]) -> Option<Self> {
        assert(bytes@.skip(0) =~= bytes@);
        let (id, at) = match read_u64(bytes, 0) {
            Some(p) => p,
            None => { return None; },
        };
        let (name, at) = match read_text(bytes, at) {
            Some(p) => p,
            None => { return None; },
        };
        let (phone_number, at) = match read_text(bytes, at) {
            Some(p) => p,
            None => { return None; },
        };
        let (email, at) = match read_text(bytes, at) {
            Some(p) => p,
            None => { return None; },
        };
        let (address, at) = match read_text(bytes, at) {
            Some(p) => p,
            None => { return None; },
        };
        let (donor_type, at) = match read_donor_type(bytes, at) {
            Some(p) => p,
            None => { return None; },
        };
        let (created_at, at) = match read_u64(bytes, at) {
            Some(p) => p,
            None => { return None; },
        };
        if at != bytes.len() {
            return None;
        }
        Some(DonorProfile { id, name, phone_number, email, address, donor_type, created_at })
    }
}

} // verus!
