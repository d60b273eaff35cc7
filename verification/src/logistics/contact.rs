//! Profiles that are reached by email: within one store no two of them share
//! an address.

use vstd::prelude::*;
use crate::logistics::donor::{DonorProfile, DonorProfileView};
use crate::logistics::driver::{DriverProfile, DriverProfileView};
use crate::logistics::receiver::{ReceiverProfile, ReceiverProfileView};
use crate::record::Record;
use crate::store::{lists, Store};

verus! {

/// A profile with an email address.
pub trait Contact: Record {
    /// The email address of a profile.
    spec fn email_of(v: Self::V) -> Seq<char>;

    /// The email address of the profile.
    fn email(&self) -> (s: &String)
        ensures
            s@ == Self::email_of(self@),
    ;
}

impl Contact for DonorProfile {
    open spec fn email_of(v: DonorProfileView) -> Seq<char> {
        v.email
    }

    fn email(&self) -> &String {
        &self.email
    }
}

impl Contact for ReceiverProfile {
    open spec fn email_of(v: ReceiverProfileView) -> Seq<char> {
        v.email
    }

    fn email(&self) -> &String {
        &self.email
    }
}

impl Contact for DriverProfile {
    open spec fn email_of(v: DriverProfileView) -> Seq<char> {
        v.email
    }

    fn email(&self) -> &String {
        &self.email
    }
}

/// Some profile of the map has the email address.
pub open spec fn email_taken<R: Contact>(m: Map<u64, R::V>, email: Seq<char>) -> bool {
    exists|k: u64| #[trigger] m.contains_key(k) && R::email_of(m[k]) == email
}

/// Whether some profile of the store has the email address.
pub fn email_in_use<R: Contact>(store: &Store<R>, email: &String) -> (r: bool)
    requires
        store.wf(),
    ensures
        r == email_taken::<R>(store@, email@),
{
    let all = store.list();
    let mut i: usize = 0;
    while i < all.len()
        invariant
            i <= all.len(),
            lists(all@, store@),
            forall|j: int| 0 <= j < i ==> R::email_of(all@[j]@) != email@,
        decreases all.len() - i,
    {
        let same = all[i].email().eq(email);
        if same {
            assert(store@.contains_key(R::key_of(all@[i as int]@)));
            return true;
        }
        i += 1;
    }
    assert forall|k: u64| #[trigger] store@.contains_key(k) implies R::email_of(store@[k])
        != email@ by {
        let j = choose|j: int| 0 <= j < all@.len() && R::key_of(#[trigger] all@[j]@) == k;
        assert(store@[R::key_of(all@[j]@)] == all@[j]@);
    }
    false
}

} // verus!
