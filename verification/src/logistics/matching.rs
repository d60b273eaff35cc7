//! Which surplus posts and drivers the assignments hold, and how far a
//! surplus post has come: unassigned, then assigned, then delivered.

use vstd::prelude::*;
use crate::logistics::assignment::{Assignment, AssignmentView};
use crate::logistics::surplus_record::{SurplusRecord, SurplusRecordView};
use crate::record::Record;
use crate::store::{lists, Store};

verus! {

/// The assignment is of the post, where one is asked for, and of the
/// driver, where one is asked for.
pub open spec fn binds(a: AssignmentView, post: Option<u64>, driver: Option<u64>) -> bool {
    &&& post matches Some(p) ==> a.surplus_post_id == p
    &&& driver matches Some(d) ==> a.driver_id == d
}

/// Some assignment of the map binds the post and the driver asked for.
pub open spec fn bound(
    m: Map<u64, AssignmentView>,
    post: Option<u64>,
    driver: Option<u64>,
) -> bool {
    exists|k: u64| #[trigger] m.contains_key(k) && binds(m[k], post, driver)
}

/// The two assignments are of different surplus posts and of different
/// drivers.
pub open spec fn apart(a: AssignmentView, b: AssignmentView) -> bool {
    a.surplus_post_id != b.surplus_post_id && a.driver_id != b.driver_id
}

/// No two assignments share a surplus post, and no two share a driver.
pub open spec fn exclusive(m: Map<u64, AssignmentView>) -> bool {
    forall|a: u64, b: u64|
        #![trigger m.contains_key(a), m.contains_key(b)]
        m.contains_key(a) && m.contains_key(b) && a != b ==> apart(m[a], m[b])
}

/// Some assignment other than the one under `id` is of the post or of the
/// driver.
pub open spec fn clashes(m: Map<u64, AssignmentView>, id: u64, post: u64, driver: u64) -> bool {
    exists|k: u64| #[trigger]
        m.contains_key(k) && k != id && (m[k].surplus_post_id == post || m[k].driver_id == driver)
}

/// Exclusive assignments hold each surplus post at most once and each
/// driver at most once.
pub proof fn lemma_exclusive_is_one_each(m: Map<u64, AssignmentView>, a: u64, b: u64)
    requires
        exclusive(m),
        m.contains_key(a),
        m.contains_key(b),
        m[a].surplus_post_id == m[b].surplus_post_id || m[a].driver_id == m[b].driver_id,
    ensures
        a == b,
{
}

/// No assignments are exclusive, and an assignment of a post and a driver
/// that no assignment holds keeps exclusive assignments exclusive.
pub proof fn lemma_exclusive_grows(m: Map<u64, AssignmentView>, id: u64, a: AssignmentView)
    requires
        exclusive(m),
        !m.contains_key(id),
        !bound(m, Some(a.surplus_post_id), None),
        !bound(m, None, Some(a.driver_id)),
    ensures
        exclusive(Map::<u64, AssignmentView>::empty()),
        exclusive(m.insert(id, a)),
{
    let after = m.insert(id, a);
    assert forall|x: u64, y: u64|
        #![trigger after.contains_key(x), after.contains_key(y)]
        after.contains_key(x) && after.contains_key(y) && x != y implies apart(
            after[x],
            after[y],
        ) by {
        if x != id && y != id {
            assert(m.contains_key(x) && m.contains_key(y));
        } else if x == id {
            assert(m.contains_key(y));
        } else {
            assert(m.contains_key(x));
        }
    }
}

/// Exclusive assignments stay exclusive when one is removed, and when one
/// is replaced by an assignment of a post and a driver that no other holds.
pub proof fn lemma_exclusive_stays(m: Map<u64, AssignmentView>, id: u64, a: AssignmentView)
    requires
        exclusive(m),
    ensures
        exclusive(m.remove(id)),
        !clashes(m, id, a.surplus_post_id, a.driver_id) ==> exclusive(m.insert(id, a)),
{
    let less = m.remove(id);
    assert forall|x: u64, y: u64|
        #![trigger less.contains_key(x), less.contains_key(y)]
        less.contains_key(x) && less.contains_key(y) && x != y implies apart(less[x], less[y]) by {
        assert(m.contains_key(x) && m.contains_key(y));
    }
    if !clashes(m, id, a.surplus_post_id, a.driver_id) {
        let after = m.insert(id, a);
        assert forall|x: u64, y: u64|
            #![trigger after.contains_key(x), after.contains_key(y)]
            after.contains_key(x) && after.contains_key(y) && x != y implies apart(
            after[x],
            after[y],
        ) by {
            if x != id && y != id {
                assert(m.contains_key(x) && m.contains_key(y));
            } else if x == id {
                assert(m.contains_key(y));
            } else {
                assert(m.contains_key(x));
            }
        }
    }
}

/// Whether some assignment of the store binds the post and the driver asked
/// for.
pub fn is_bound(store: &Store<Assignment>, post: Option<u64>, driver: Option<u64>) -> (r: bool)
    requires
        store.wf(),
    ensures
        r == bound(store@, post, driver),
{
    let all = store.list();
    let mut i: usize = 0;
    while i < all.len()
        invariant
            i <= all.len(),
            lists(all@, store@),
            forall|j: int| 0 <= j < i ==> !binds(all@[j]@, post, driver),
        decreases all.len() - i,
    {
        let of_post = match post {
            Some(p) => all[i].surplus_post_id == p,
            None => true,
        };
        let of_driver = match driver {
            Some(d) => all[i].driver_id == d,
            None => true,
        };
        if of_post && of_driver {
            assert(store@.contains_key(Assignment::key_of(all@[i as int]@)));
            return true;
        }
        i += 1;
    }
    assert forall|k: u64| #[trigger] store@.contains_key(k) implies !binds(
        store@[k],
        post,
        driver,
    ) by {
        let j = choose|j: int| 0 <= j < all@.len() && Assignment::key_of(#[trigger] all@[j]@) == k;
        assert(store@[Assignment::key_of(all@[j]@)] == all@[j]@);
    }
    false
}


/// How far a surplus post has come.
#[derive(Clone, Copy, Debug, PartialEq, Eq, Structural)]
pub enum PostState {
    /// No assignment has flagged the post.
    Unassigned,
    /// An assignment has flagged the post, and no delivery of it is
    /// recorded.
    Assigned,
    /// A delivery of the post is recorded.
    Delivered,
}

impl PostState {
    /// The place of the state in the order in which a post passes through
    /// the states.
    pub open spec fn rank(self) -> nat {
        match self {
            PostState::Unassigned => 0,
            PostState::Assigned => 1,
            PostState::Delivered => 2,
        }
    }

    /// The state of a post, given whether it is flagged as assigned and
    /// whether a delivery of it is recorded.
    pub open spec fn of(assigned: bool, delivered: bool) -> PostState {
        if delivered {
            PostState::Delivered
        } else if assigned {
            PostState::Assigned
        } else {
            PostState::Unassigned
        }
    }
}

/// Some surplus record of the map is of the post.
pub open spec fn delivered(m: Map<u64, SurplusRecordView>, post: u64) -> bool {
    exists|k: u64| #[trigger] m.contains_key(k) && m[k].surplus_post_id == post
}

/// Whether some surplus record of the store is of the post.
pub fn is_delivered(store: &Store<SurplusRecord>, post: u64) -> (r: bool)
    requires
        store.wf(),
    ensures
        r == delivered(store@, post),
{
    let all = store.list();
    let mut i: usize = 0;
    while i < all.len()
        invariant
            i <= all.len(),
            lists(all@, store@),
            forall|j: int| 0 <= j < i ==> all@[j]@.surplus_post_id != post,
        decreases all.len() - i,
    {
        if all[i].surplus_post_id == post {
            assert(store@.contains_key(SurplusRecord::key_of(all@[i as int]@)));
            return true;
        }
        i += 1;
    }
    assert forall|k: u64| #[trigger] store@.contains_key(k) implies store@[k].surplus_post_id
        != post by {
        let j = choose|j: int|
            0 <= j < all@.len() && SurplusRecord::key_of(#[trigger] all@[j]@) == k;
        assert(store@[SurplusRecord::key_of(all@[j]@)] == all@[j]@);
    }
    false
}

} // verus!
