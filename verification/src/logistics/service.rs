//! The state of the logistics workflow and the operations on it.

use vstd::prelude::*;
use crate::crud::{
    bounded, commit, discard, entered, fetch, fetch_all, found, listed, removed, replace, replaced,
    reserve, sane, successor, take_in,
};
use crate::durable::{manager_get, map_contents, map_init, DurableMap, Regions};
use crate::ids::IdAllocator;
use crate::logistics::assignment::{Assignment, AssignmentPayload, AssignmentView};
use crate::logistics::contact::{email_in_use, email_taken};
use crate::logistics::donor::{DonorProfile, DonorProfilePayload, DonorProfileView};
use crate::logistics::driver::{DriverProfile, DriverProfilePayload, DriverProfileView};
use crate::logistics::matching::{
    bound, clashes, delivered, exclusive, is_bound, is_delivered, lemma_exclusive_grows, PostState,
};
use crate::logistics::receiver::{ReceiverProfile, ReceiverProfilePayload, ReceiverProfileView};
use crate::logistics::surplus_post::{SurplusPost, SurplusPostPayload, SurplusPostView};
use crate::logistics::surplus_record::{SurplusRecord, SurplusRecordPayload, SurplusRecordView};
use crate::message::{ErrorKind, Fault, Message};
use crate::store::{decoded, sound, Store};

verus! {

/// The id counter and the six stores of the logistics workflow.
///
/// An operation that changes anything takes the state by exclusive
/// reference: its checks and its writes are one step, which no other
/// operation comes between.
pub struct Logistics {
    regions: Regions,
    ids: IdAllocator,
    donors: Store<DonorProfile>,
    receivers: Store<ReceiverProfile>,
    drivers: Store<DriverProfile>,
    surplus_posts: Store<SurplusPost>,
    assignments: Store<Assignment>,
    surplus_records: Store<SurplusRecord>,
}

/// The contents of the logistics workflow.
pub struct LogisticsView {
    /// The last id handed out; 0 before the first.
    pub last_id: u64,
    pub donors: Map<u64, DonorProfileView>,
    pub receivers: Map<u64, ReceiverProfileView>,
    pub drivers: Map<u64, DriverProfileView>,
    pub surplus_posts: Map<u64, SurplusPostView>,
    pub assignments: Map<u64, AssignmentView>,
    pub surplus_records: Map<u64, SurplusRecordView>,
}

impl LogisticsView {
    /// Every collection is finite and holds each record under its own id, none
    /// too large to store, and no id is above the last one handed out.
    pub open spec fn wf(self) -> bool {
        &&& sane::<DonorProfile>(self.donors, self.last_id)
        &&& sane::<ReceiverProfile>(self.receivers, self.last_id)
        &&& sane::<DriverProfile>(self.drivers, self.last_id)
        &&& sane::<SurplusPost>(self.surplus_posts, self.last_id)
        &&& sane::<Assignment>(self.assignments, self.last_id)
        &&& sane::<SurplusRecord>(self.surplus_records, self.last_id)
    }

    /// Why a donor is refused, where the payload and the donors decide it: a
    /// field fails its check, or the email address is that of another donor.
    pub open spec fn donor_fault(self, payload: DonorProfilePayload) -> Option<Fault> {
        if payload.fault() is Some {
            payload.fault()
        } else if email_taken::<DonorProfile>(self.donors, payload.email@) {
            Some((ErrorKind::Conflict, "Email already exists"@))
        } else {
            None
        }
    }

    /// Why a receiver is refused, where the payload and the receivers decide it: a
    /// field fails its check, or the email address is that of another receiver.
    pub open spec fn receiver_fault(self, payload: ReceiverProfilePayload) -> Option<Fault> {
        if payload.fault() is Some {
            payload.fault()
        } else if email_taken::<ReceiverProfile>(self.receivers, payload.email@) {
            Some((ErrorKind::Conflict, "Email already exists"@))
        } else {
            None
        }
    }

    /// Why a driver is refused, where the payload and the drivers decide it: a
    /// field fails its check, or the email address is that of another driver.
    pub open spec fn driver_fault(self, payload: DriverProfilePayload) -> Option<Fault> {
        if payload.fault() is Some {
            payload.fault()
        } else if email_taken::<DriverProfile>(self.drivers, payload.email@) {
            Some((ErrorKind::Conflict, "Email already exists"@))
        } else {
            None
        }
    }

    /// Why a surplus post is refused, where the payload and the donors decide
    /// it: a field fails its check, or the donor does not exist.
    pub open spec fn surplus_post_fault(self, payload: SurplusPostPayload) -> Option<Fault> {
        if payload.fault() is Some {
            payload.fault()
        } else if !self.donors.contains_key(payload.donor_id) {
            Some((ErrorKind::NotFound, "Donor ID does not exist"@))
        } else {
            None
        }
    }

    /// The post is flagged as assigned, or some assignment is of it.
    pub open spec fn post_taken(self, post: u64) -> bool {
        ||| self.surplus_posts.contains_key(post) && self.surplus_posts[post].assigned
        ||| bound(self.assignments, Some(post), None)
    }

    /// How far the post has come.
    pub open spec fn post_state(self, post: u64) -> PostState {
        PostState::of(self.surplus_posts[post].assigned, delivered(self.surplus_records, post))
    }

    /// No post that stays is further back in `later` than it is here.
    pub open spec fn no_post_set_back(self, later: LogisticsView) -> bool {
        forall|p: u64|
            #![trigger later.surplus_posts.contains_key(p)]
            self.surplus_posts.contains_key(p) && later.surplus_posts.contains_key(p)
                ==> self.post_state(p).rank() <= later.post_state(p).rank()
    }

    /// Why an assignment is refused, where the payload and the stores decide
    /// it: the receiver, the post or the driver does not exist, the post is
    /// taken, or the driver has an assignment.
    pub open spec fn assignment_fault(self, payload: AssignmentPayload) -> Option<Fault> {
        if !self.receivers.contains_key(payload.receiver_id) {
            Some((ErrorKind::NotFound, "Receiver ID does not exist"@))
        } else if !self.surplus_posts.contains_key(payload.surplus_post_id) {
            Some((ErrorKind::NotFound, "Surplus post ID does not exist"@))
        } else if !self.drivers.contains_key(payload.driver_id) {
            Some((ErrorKind::NotFound, "Driver ID does not exist"@))
        } else if self.post_taken(payload.surplus_post_id) {
            Some((ErrorKind::Conflict, "already assigned"@))
        } else if bound(self.assignments, None, Some(payload.driver_id)) {
            Some((ErrorKind::Conflict, "Driver already assigned"@))
        } else {
            None
        }
    }

    /// Why a surplus record is refused, where the payload and the assignments
    /// decide it: no assignment is of that post and that driver.
    pub open spec fn surplus_record_fault(self, payload: SurplusRecordPayload) -> Option<Fault> {
        if bound(self.assignments, Some(payload.surplus_post_id), Some(payload.driver_id)) {
            None
        } else {
            Some((ErrorKind::Conflict, "not assigned to the driver ID"@))
        }
    }
}

impl View for Logistics {
    type V = LogisticsView;

    closed spec fn view(&self) -> LogisticsView {
        LogisticsView {
            last_id: self.ids.last(),
            donors: self.donors@,
            receivers: self.receivers@,
            drivers: self.drivers@,
            surplus_posts: self.surplus_posts@,
            assignments: self.assignments@,
            surplus_records: self.surplus_records@,
        }
    }
}

impl Logistics {
    /// The stores are well-formed, and no stored id is above the last one
    /// handed out.
    pub closed spec fn wf(&self) -> bool {
        &&& self.donors.wf()
        &&& self.receivers.wf()
        &&& self.drivers.wf()
        &&& self.surplus_posts.wf()
        &&& self.assignments.wf()
        &&& self.surplus_records.wf()
        &&& bounded(self.donors@, self.ids.last())
        &&& bounded(self.receivers@, self.ids.last())
        &&& bounded(self.drivers@, self.ids.last())
        &&& bounded(self.surplus_posts@, self.ids.last())
        &&& bounded(self.assignments@, self.ids.last())
        &&& bounded(self.surplus_records@, self.ids.last())
    }

    /// What well-formedness means for the contents.
    pub proof fn lemma_wf(&self)
        requires
            self.wf(),
        ensures
            self@.wf(),
    {
        self.donors.lemma_wf();
        self.receivers.lemma_wf();
        self.drivers.lemma_wf();
        self.surplus_posts.lemma_wf();
        self.assignments.lemma_wf();
        self.surplus_records.lemma_wf();
    }

    /// Puts a counter and six maps together, if each map is sound as the
    /// store it is taken for and holds no id above the counter. The contents
    /// are what the maps decode to.
    pub fn assemble(
        regions: Regions,
        ids: IdAllocator,
        donors: DurableMap,
        receivers: DurableMap,
        drivers: DurableMap,
        surplus_posts: DurableMap,
        assignments: DurableMap,
        surplus_records: DurableMap,
    ) -> (r: Option<Logistics>)
        ensures
            r is Some <==> {
                &&& sound::<DonorProfile>(map_contents(donors))
                &&& sound::<ReceiverProfile>(map_contents(receivers))
                &&& sound::<DriverProfile>(map_contents(drivers))
                &&& sound::<SurplusPost>(map_contents(surplus_posts))
                &&& sound::<Assignment>(map_contents(assignments))
                &&& sound::<SurplusRecord>(map_contents(surplus_records))
                &&& bounded(decoded::<DonorProfile>(map_contents(donors)), ids.last())
                &&& bounded(decoded::<ReceiverProfile>(map_contents(receivers)), ids.last())
                &&& bounded(decoded::<DriverProfile>(map_contents(drivers)), ids.last())
                &&& bounded(decoded::<SurplusPost>(map_contents(surplus_posts)), ids.last())
                &&& bounded(decoded::<Assignment>(map_contents(assignments)), ids.last())
                &&& bounded(decoded::<SurplusRecord>(map_contents(surplus_records)), ids.last())
            },
            r matches Some(c) ==> c.wf() && c.regions() == regions && c@ == (LogisticsView {
                last_id: ids.last(),
                donors: decoded::<DonorProfile>(map_contents(donors)),
                receivers: decoded::<ReceiverProfile>(map_contents(receivers)),
                drivers: decoded::<DriverProfile>(map_contents(drivers)),
                surplus_posts: decoded::<SurplusPost>(map_contents(surplus_posts)),
                assignments: decoded::<Assignment>(map_contents(assignments)),
                surplus_records: decoded::<SurplusRecord>(map_contents(surplus_records)),
            }),
    {
        let last = ids.last_id();
        let donors = take_in::<DonorProfile>(donors, last);
        let receivers = take_in::<ReceiverProfile>(receivers, last);
        let drivers = take_in::<DriverProfile>(drivers, last);
        let surplus_posts = take_in::<SurplusPost>(surplus_posts, last);
        let assignments = take_in::<Assignment>(assignments, last);
        let surplus_records = take_in::<SurplusRecord>(surplus_records, last);
        let donors = match donors {
            Some(store) => store,
            None => { return None; },
        };
        let receivers = match receivers {
            Some(store) => store,
            None => { return None; },
        };
        let drivers = match drivers {
            Some(store) => store,
            None => { return None; },
        };
        let surplus_posts = match surplus_posts {
            Some(store) => store,
            None => { return None; },
        };
        let assignments = match assignments {
            Some(store) => store,
            None => { return None; },
        };
        let surplus_records = match surplus_records {
            Some(store) => store,
            None => { return None; },
        };
        Some(
            Logistics {
                regions,
                ids,
                donors,
                receivers,
                drivers,
                surplus_posts,
                assignments,
                surplus_records,
            },
        )
    }

    /// Opens the workflow that the regions hold: the counter in region 0, the
    /// stores in regions 1 to 6. It is refused where a stored value does not
    /// decode to a record of its store with the id it is stored under, or a
    /// stored id is above the counter.
    pub fn open(regions: Regions) -> (r: Option<Logistics>)
        ensures
            r matches Some(c) ==> c.wf(),
    {
        let ids = match IdAllocator::open(manager_get(&regions, 0)) {
            Some(ids) => ids,
            None => { return None; },
        };
        let donors = map_init(manager_get(&regions, 1));
        let receivers = map_init(manager_get(&regions, 2));
        let drivers = map_init(manager_get(&regions, 3));
        let surplus_posts = map_init(manager_get(&regions, 4));
        let assignments = map_init(manager_get(&regions, 5));
        let surplus_records = map_init(manager_get(&regions, 6));
        Logistics::assemble(
            regions,
            ids,
            donors,
            receivers,
            drivers,
            surplus_posts,
            assignments,
            surplus_records,
        )
    }

    /// Gives up the stores and hands the regions back.
    pub fn close(self) -> (r: Regions)
        ensures
            r == self.regions(),
    {
        self.regions
    }

    /// The regions that the stores and the counter live in: those that the
    /// state was put together over. No operation changes them.
    pub closed spec fn regions(&self) -> Regions {
        self.regions
    }

    /// The last id handed out.
    pub fn last_id(&self) -> (v: u64)
        ensures
            v == self@.last_id,
    {
        self.ids.last_id()
    }

    /// Stores a new donor under the next id, unless a field fails its check or
    /// the email address is taken.
    pub fn create_donor_profile(
        &mut self,
        payload: DonorProfilePayload,
        now: u64,
    ) -> (r: Result<DonorProfile, Message>)
        requires
            old(self).wf(),
        ensures
            final(self).wf(),
            final(self).regions() == old(self).regions(),
            entered(
                r,
                old(self)@.donor_fault(payload),
                payload.record(successor(old(self)@.last_id), now),
                old(self)@.last_id,
                final(self)@.last_id,
                old(self)@.donors,
                final(self)@.donors,
            ),
            final(self)@.receivers == old(self)@.receivers,
            final(self)@.drivers == old(self)@.drivers,
            final(self)@.surplus_posts == old(self)@.surplus_posts,
            final(self)@.assignments == old(self)@.assignments,
            final(self)@.surplus_records == old(self)@.surplus_records,
    {
        match payload.check() {
            Ok(_) => {},
            Err(e) => {
                return Err(e);
            },
        }
        if email_in_use(&self.donors, &payload.email) {
            return Err(Message::new(ErrorKind::Conflict, "Email already exists"));
        }
        let id = match reserve(&self.ids) {
            Ok(id) => id,
            Err(e) => {
                return Err(e);
            },
        };
        let record = payload.into_record(id, now);
        commit(&mut self.ids, &mut self.donors, record)
    }

    /// Every donor, in ascending order of the ids; `NotFound` where there is none.
    pub fn get_all_donors(&self) -> (r: Result<Vec<DonorProfile>, Message>)
        requires
            self.wf(),
        ensures
            listed(r, "No donors found"@, self@.donors),
    {
        fetch_all(&self.donors, "No donors found")
    }

    /// The donor stored under `id`.
    pub fn get_donor_profile(&self, id: u64) -> (r: Result<DonorProfile, Message>)
        requires
            self.wf(),
        ensures
            found(r, id, "Donor not found"@, self@.donors),
    {
        fetch(&self.donors, id, "Donor not found")
    }

    /// Puts the payload, stamped `now`, in place of the donor stored under `id`.
    pub fn update_donor_profile(
        &mut self,
        id: u64,
        payload: DonorProfilePayload,
        now: u64,
    ) -> (r: Result<DonorProfile, Message>)
        requires
            old(self).wf(),
        ensures
            final(self).wf(),
            final(self).regions() == old(self).regions(),
            replaced(
                r,
                id,
                payload.record(id, now),
                "Donor not found"@,
                old(self)@.donors,
                final(self)@.donors,
            ),
            final(self)@.last_id == old(self)@.last_id,
            final(self)@.receivers == old(self)@.receivers,
            final(self)@.drivers == old(self)@.drivers,
            final(self)@.surplus_posts == old(self)@.surplus_posts,
            final(self)@.assignments == old(self)@.assignments,
            final(self)@.surplus_records == old(self)@.surplus_records,
    {
        let record = payload.into_record(id, now);
        replace(&mut self.donors, record, "Donor not found")
    }

    /// Removes the donor stored under `id`. Records that refer to it are left as they are.
    pub fn delete_donor_profile(&mut self, id: u64) -> (r: Result<(), Message>)
        requires
            old(self).wf(),
        ensures
            final(self).wf(),
            final(self).regions() == old(self).regions(),
            removed(
                r,
                id,
                "Donor not found"@,
                old(self)@.donors,
                final(self)@.donors,
            ),
            final(self)@.last_id == old(self)@.last_id,
            final(self)@.receivers == old(self)@.receivers,
            final(self)@.drivers == old(self)@.drivers,
            final(self)@.surplus_posts == old(self)@.surplus_posts,
            final(self)@.assignments == old(self)@.assignments,
            final(self)@.surplus_records == old(self)@.surplus_records,
    {
        discard(&mut self.donors, id, "Donor not found")
    }

    /// Stores a new receiver under the next id, unless a field fails its check or
    /// the email address is taken.
    pub fn create_receiver_profile(
        &mut self,
        payload: ReceiverProfilePayload,
        now: u64,
    ) -> (r: Result<ReceiverProfile, Message>)
        requires
            old(self).wf(),
        ensures
            final(self).wf(),
            final(self).regions() == old(self).regions(),
            entered(
                r,
                old(self)@.receiver_fault(payload),
                payload.record(successor(old(self)@.last_id), now),
                old(self)@.last_id,
                final(self)@.last_id,
                old(self)@.receivers,
                final(self)@.receivers,
            ),
            final(self)@.donors == old(self)@.donors,
            final(self)@.drivers == old(self)@.drivers,
            final(self)@.surplus_posts == old(self)@.surplus_posts,
            final(self)@.assignments == old(self)@.assignments,
            final(self)@.surplus_records == old(self)@.surplus_records,
    {
        match payload.check() {
            Ok(_) => {},
            Err(e) => {
                return Err(e);
            },
        }
        if email_in_use(&self.receivers, &payload.email) {
            return Err(Message::new(ErrorKind::Conflict, "Email already exists"));
        }
        let id = match reserve(&self.ids) {
            Ok(id) => id,
            Err(e) => {
                return Err(e);
            },
        };
        let record = payload.into_record(id, now);
        commit(&mut self.ids, &mut self.receivers, record)
    }

    /// Every receiver, in ascending order of the ids; `NotFound` where there is none.
    pub fn get_all_receivers(&self) -> (r: Result<Vec<ReceiverProfile>, Message>)
        requires
            self.wf(),
        ensures
            listed(r, "No receivers found"@, self@.receivers),
    {
        fetch_all(&self.receivers, "No receivers found")
    }

    /// The receiver stored under `id`.
    pub fn get_receiver_profile(&self, id: u64) -> (r: Result<ReceiverProfile, Message>)
        requires
            self.wf(),
        ensures
            found(r, id, "Receiver not found"@, self@.receivers),
    {
        fetch(&self.receivers, id, "Receiver not found")
    }

    /// Puts the payload, stamped `now`, in place of the receiver stored under `id`.
    pub fn update_receiver_profile(
        &mut self,
        id: u64,
        payload: ReceiverProfilePayload,
        now: u64,
    ) -> (r: Result<ReceiverProfile, Message>)
        requires
            old(self).wf(),
        ensures
            final(self).wf(),
            final(self).regions() == old(self).regions(),
            replaced(
                r,
                id,
                payload.record(id, now),
                "Receiver not found"@,
                old(self)@.receivers,
                final(self)@.receivers,
            ),
            final(self)@.last_id == old(self)@.last_id,
            final(self)@.donors == old(self)@.donors,
            final(self)@.drivers == old(self)@.drivers,
            final(self)@.surplus_posts == old(self)@.surplus_posts,
            final(self)@.assignments == old(self)@.assignments,
            final(self)@.surplus_records == old(self)@.surplus_records,
    {
        let record = payload.into_record(id, now);
        replace(&mut self.receivers, record, "Receiver not found")
    }

    /// Removes the receiver stored under `id`. Records that refer to it are left as they are.
    pub fn delete_receiver_profile(&mut self, id: u64) -> (r: Result<(), Message>)
        requires
            old(self).wf(),
        ensures
            final(self).wf(),
            final(self).regions() == old(self).regions(),
            removed(
                r,
                id,
                "Receiver not found"@,
                old(self)@.receivers,
                final(self)@.receivers,
            ),
            final(self)@.last_id == old(self)@.last_id,
            final(self)@.donors == old(self)@.donors,
            final(self)@.drivers == old(self)@.drivers,
            final(self)@.surplus_posts == old(self)@.surplus_posts,
            final(self)@.assignments == old(self)@.assignments,
            final(self)@.surplus_records == old(self)@.surplus_records,
    {
        discard(&mut self.receivers, id, "Receiver not found")
    }

    /// Stores a new driver under the next id, unless a field fails its check or
    /// the email address is taken.
    pub fn create_driver_profile(
        &mut self,
        payload: DriverProfilePayload,
        now: u64,
    ) -> (r: Result<DriverProfile, Message>)
        requires
            old(self).wf(),
        ensures
            final(self).wf(),
            final(self).regions() == old(self).regions(),
            entered(
                r,
                old(self)@.driver_fault(payload),
                payload.record(successor(old(self)@.last_id), now),
                old(self)@.last_id,
                final(self)@.last_id,
                old(self)@.drivers,
                final(self)@.drivers,
            ),
            final(self)@.donors == old(self)@.donors,
            final(self)@.receivers == old(self)@.receivers,
            final(self)@.surplus_posts == old(self)@.surplus_posts,
            final(self)@.assignments == old(self)@.assignments,
            final(self)@.surplus_records == old(self)@.surplus_records,
    {
        match payload.check() {
            Ok(_) => {},
            Err(e) => {
                return Err(e);
            },
        }
        if email_in_use(&self.drivers, &payload.email) {
            return Err(Message::new(ErrorKind::Conflict, "Email already exists"));
        }
        let id = match reserve(&self.ids) {
            Ok(id) => id,
            Err(e) => {
                return Err(e);
            },
        };
        let record = payload.into_record(id, now);
        commit(&mut self.ids, &mut self.drivers, record)
    }

    /// Every driver, in ascending order of the ids; `NotFound` where there is none.
    pub fn get_all_drivers(&self) -> (r: Result<Vec<DriverProfile>, Message>)
        requires
            self.wf(),
        ensures
            listed(r, "No drivers found"@, self@.drivers),
    {
        fetch_all(&self.drivers, "No drivers found")
    }

    /// The driver stored under `id`.
    pub fn get_driver_profile(&self, id: u64) -> (r: Result<DriverProfile, Message>)
        requires
            self.wf(),
        ensures
            found(r, id, "Driver not found"@, self@.drivers),
    {
        fetch(&self.drivers, id, "Driver not found")
    }

    /// Puts the payload, stamped `now`, in place of the driver stored under `id`.
    pub fn update_driver_profile(
        &mut self,
        id: u64,
        payload: DriverProfilePayload,
        now: u64,
    ) -> (r: Result<DriverProfile, Message>)
        requires
            old(self).wf(),
        ensures
            final(self).wf(),
            final(self).regions() == old(self).regions(),
            replaced(
                r,
                id,
                payload.record(id, now),
                "Driver not found"@,
                old(self)@.drivers,
                final(self)@.drivers,
            ),
            final(self)@.last_id == old(self)@.last_id,
            final(self)@.donors == old(self)@.donors,
            final(self)@.receivers == old(self)@.receivers,
            final(self)@.surplus_posts == old(self)@.surplus_posts,
            final(self)@.assignments == old(self)@.assignments,
            final(self)@.surplus_records == old(self)@.surplus_records,
    {
        let record = payload.into_record(id, now);
        replace(&mut self.drivers, record, "Driver not found")
    }

    /// Removes the driver stored under `id`. Records that refer to it are left as they are.
    pub fn delete_driver_profile(&mut self, id: u64) -> (r: Result<(), Message>)
        requires
            old(self).wf(),
        ensures
            final(self).wf(),
            final(self).regions() == old(self).regions(),
            removed(
                r,
                id,
                "Driver not found"@,
                old(self)@.drivers,
                final(self)@.drivers,
            ),
            final(self)@.last_id == old(self)@.last_id,
            final(self)@.donors == old(self)@.donors,
            final(self)@.receivers == old(self)@.receivers,
            final(self)@.surplus_posts == old(self)@.surplus_posts,
            final(self)@.assignments == old(self)@.assignments,
            final(self)@.surplus_records == old(self)@.surplus_records,
    {
        discard(&mut self.drivers, id, "Driver not found")
    }

    /// Stores a new surplus post under the next id, not yet assigned, unless a
    /// field fails its check or the donor does not exist.
    pub fn create_surplus_post(
        &mut self,
        payload: SurplusPostPayload,
    ) -> (r: Result<SurplusPost, Message>)
        requires
            old(self).wf(),
        ensures
            final(self).wf(),
            final(self).regions() == old(self).regions(),
            entered(
                r,
                old(self)@.surplus_post_fault(payload),
                payload.record(successor(old(self)@.last_id)),
                old(self)@.last_id,
                final(self)@.last_id,
                old(self)@.surplus_posts,
                final(self)@.surplus_posts,
            ),
            final(self)@.donors == old(self)@.donors,
            final(self)@.receivers == old(self)@.receivers,
            final(self)@.drivers == old(self)@.drivers,
            final(self)@.assignments == old(self)@.assignments,
            final(self)@.surplus_records == old(self)@.surplus_records,
    {
        match payload.check() {
            Ok(_) => {},
            Err(e) => {
                return Err(e);
            },
        }
        if !self.donors.contains(payload.donor_id) {
            return Err(Message::new(ErrorKind::NotFound, "Donor ID does not exist"));
        }
        let id = match reserve(&self.ids) {
            Ok(id) => id,
            Err(e) => {
                return Err(e);
            },
        };
        let record = payload.into_record(id);
        commit(&mut self.ids, &mut self.surplus_posts, record)
    }

    /// Every surplus post, in ascending order of the ids; `NotFound` where there is none.
    pub fn get_all_surplus_posts(&self) -> (r: Result<Vec<SurplusPost>, Message>)
        requires
            self.wf(),
        ensures
            listed(r, "No surplus posts found"@, self@.surplus_posts),
    {
        fetch_all(&self.surplus_posts, "No surplus posts found")
    }

    /// The surplus post stored under `id`.
    pub fn get_surplus_post(&self, id: u64) -> (r: Result<SurplusPost, Message>)
        requires
            self.wf(),
        ensures
            found(r, id, "Surplus post not found"@, self@.surplus_posts),
    {
        fetch(&self.surplus_posts, id, "Surplus post not found")
    }

    /// Puts the payload in place of the surplus post stored under `id`. Whether
    /// the post is assigned stays as it was.
    pub fn update_surplus_post(
        &mut self,
        id: u64,
        payload: SurplusPostPayload,
    ) -> (r: Result<SurplusPost, Message>)
        requires
            old(self).wf(),
        ensures
            final(self).wf(),
            final(self).regions() == old(self).regions(),
            replaced(
                r,
                id,
                payload.revision(id, old(self)@.surplus_posts[id].assigned),
                "Surplus post not found"@,
                old(self)@.surplus_posts,
                final(self)@.surplus_posts,
            ),
            final(self)@.last_id == old(self)@.last_id,
            final(self)@.donors == old(self)@.donors,
            final(self)@.receivers == old(self)@.receivers,
            final(self)@.drivers == old(self)@.drivers,
            final(self)@.assignments == old(self)@.assignments,
            final(self)@.surplus_records == old(self)@.surplus_records,
    {
        let assigned = match self.surplus_posts.get(id) {
            Some(prior) => prior.assigned,
            None => {
                return Err(Message::new(ErrorKind::NotFound, "Surplus post not found"));
            },
        };
        let record = payload.into_revision(id, assigned);
        replace(&mut self.surplus_posts, record, "Surplus post not found")
    }

    /// Removes the surplus post stored under `id`. Records that refer to it are left as they are.
    pub fn delete_surplus_post(&mut self, id: u64) -> (r: Result<(), Message>)
        requires
            old(self).wf(),
        ensures
            final(self).wf(),
            final(self).regions() == old(self).regions(),
            removed(
                r,
                id,
                "Surplus post not found"@,
                old(self)@.surplus_posts,
                final(self)@.surplus_posts,
            ),
            final(self)@.last_id == old(self)@.last_id,
            final(self)@.donors == old(self)@.donors,
            final(self)@.receivers == old(self)@.receivers,
            final(self)@.drivers == old(self)@.drivers,
            final(self)@.assignments == old(self)@.assignments,
            final(self)@.surplus_records == old(self)@.surplus_records,
    {
        discard(&mut self.surplus_posts, id, "Surplus post not found")
    }

    /// Assigns a surplus post to a receiver and a driver: stores a new
    /// assignment under the next id and flags the post as assigned. It is
    /// refused where one of the three does not exist, the post is taken, or
    /// the driver has an assignment; exclusive assignments stay exclusive.
    pub fn create_assignment(&mut self, payload: AssignmentPayload, now: u64) -> (r: Result<
        Assignment,
        Message,
    >)
        requires
            old(self).wf(),
        ensures
            final(self).wf(),
            final(self).regions() == old(self).regions(),
            entered(
                r,
                old(self)@.assignment_fault(payload),
                payload.record(successor(old(self)@.last_id), now),
                old(self)@.last_id,
                final(self)@.last_id,
                old(self)@.assignments,
                final(self)@.assignments,
            ),
            r is Ok ==> final(self)@.surplus_posts == old(self)@.surplus_posts.insert(
                payload.surplus_post_id,
                old(self)@.surplus_posts[payload.surplus_post_id].taken(),
            ),
            r is Err ==> final(self)@.surplus_posts == old(self)@.surplus_posts,
            final(self)@.donors == old(self)@.donors,
            final(self)@.receivers == old(self)@.receivers,
            final(self)@.drivers == old(self)@.drivers,
            final(self)@.surplus_records == old(self)@.surplus_records,
            exclusive(old(self)@.assignments) ==> exclusive(final(self)@.assignments),
            r is Ok ==> old(self)@.post_state(payload.surplus_post_id) != PostState::Assigned
                && final(self)@.post_state(payload.surplus_post_id) != PostState::Unassigned,
            old(self)@.no_post_set_back(final(self)@),
    {
        if !self.receivers.contains(payload.receiver_id) {
            return Err(Message::new(ErrorKind::NotFound, "Receiver ID does not exist"));
        }
        let post = match self.surplus_posts.get(payload.surplus_post_id) {
            Some(post) => post,
            None => {
                return Err(Message::new(ErrorKind::NotFound, "Surplus post ID does not exist"));
            },
        };
        if !self.drivers.contains(payload.driver_id) {
            return Err(Message::new(ErrorKind::NotFound, "Driver ID does not exist"));
        }
        if post.assigned || is_bound(&self.assignments, Some(payload.surplus_post_id), None) {
            return Err(Message::new(ErrorKind::Conflict, "already assigned"));
        }
        if is_bound(&self.assignments, None, Some(payload.driver_id)) {
            return Err(Message::new(ErrorKind::Conflict, "Driver already assigned"));
        }
        let id = match reserve(&self.ids) {
            Ok(id) => id,
            Err(e) => {
                return Err(e);
            },
        };
        let record = payload.into_record(id, now);
        proof {
            self.surplus_posts.lemma_wf();
        }
        let flagged = post.taken();
        match commit(&mut self.ids, &mut self.assignments, record) {
            Ok(stored) => {
                let kept = self.surplus_posts.insert(&flagged);
                assert(kept);
                proof {
                    if exclusive(old(self)@.assignments) {
                        lemma_exclusive_grows(old(self)@.assignments, id, stored@);
                    }
                }
                Ok(stored)
            },
            Err(e) => Err(e),
        }
    }

    /// Every assignment, in ascending order of the ids; `NotFound` where there is none.
    pub fn get_all_assignments(&self) -> (r: Result<Vec<Assignment>, Message>)
        requires
            self.wf(),
        ensures
            listed(r, "No assignments found"@, self@.assignments),
    {
        fetch_all(&self.assignments, "No assignments found")
    }

    /// The assignment stored under `id`.
    pub fn get_assignment(&self, id: u64) -> (r: Result<Assignment, Message>)
        requires
            self.wf(),
        ensures
            found(r, id, "Assignment not found"@, self@.assignments),
    {
        fetch(&self.assignments, id, "Assignment not found")
    }

    /// Puts the payload and the status, stamped `now`, in place of the
    /// assignment stored under `id`. The references are not checked: the
    /// assignments stay exclusive where the new post and driver are those of no
    /// other assignment.
    pub fn update_assignment(
        &mut self,
        id: u64,
        payload: AssignmentPayload,
        status: String,
        now: u64,
    ) -> (r: Result<Assignment, Message>)
        requires
            old(self).wf(),
        ensures
            final(self).wf(),
            final(self).regions() == old(self).regions(),
            replaced(
                r,
                id,
                payload.revision(id, now, status),
                "Assignment not found"@,
                old(self)@.assignments,
                final(self)@.assignments,
            ),
            final(self)@.last_id == old(self)@.last_id,
            final(self)@.donors == old(self)@.donors,
            final(self)@.receivers == old(self)@.receivers,
            final(self)@.drivers == old(self)@.drivers,
            final(self)@.surplus_posts == old(self)@.surplus_posts,
            final(self)@.surplus_records == old(self)@.surplus_records,
            exclusive(old(self)@.assignments) && !clashes(
                old(self)@.assignments,
                id,
                payload.surplus_post_id,
                payload.driver_id,
            ) ==> exclusive(final(self)@.assignments),
    {
        let record = payload.into_revision(id, now, status);
        replace(&mut self.assignments, record, "Assignment not found")
    }

    /// Removes the assignment stored under `id`. Records that refer to it are left as they are.
    pub fn delete_assignment(&mut self, id: u64) -> (r: Result<(), Message>)
        requires
            old(self).wf(),
        ensures
            final(self).wf(),
            final(self).regions() == old(self).regions(),
            removed(
                r,
                id,
                "Assignment not found"@,
                old(self)@.assignments,
                final(self)@.assignments,
            ),
            final(self)@.last_id == old(self)@.last_id,
            final(self)@.donors == old(self)@.donors,
            final(self)@.receivers == old(self)@.receivers,
            final(self)@.drivers == old(self)@.drivers,
            final(self)@.surplus_posts == old(self)@.surplus_posts,
            final(self)@.surplus_records == old(self)@.surplus_records,
            exclusive(old(self)@.assignments) ==> exclusive(final(self)@.assignments),
    {
        discard(&mut self.assignments, id, "Assignment not found")
    }

    /// Records the delivery of a surplus post by a driver, under the next id,
    /// which brings the post to its last state. It is refused unless some
    /// assignment is of that post and that driver.
    pub fn create_surplus_record(&mut self, payload: SurplusRecordPayload, now: u64) -> (r: Result<
        SurplusRecord,
        Message,
    >)
        requires
            old(self).wf(),
        ensures
            final(self).wf(),
            final(self).regions() == old(self).regions(),
            entered(
                r,
                old(self)@.surplus_record_fault(payload),
                payload.record(successor(old(self)@.last_id), now),
                old(self)@.last_id,
                final(self)@.last_id,
                old(self)@.surplus_records,
                final(self)@.surplus_records,
            ),
            final(self)@.donors == old(self)@.donors,
            final(self)@.receivers == old(self)@.receivers,
            final(self)@.drivers == old(self)@.drivers,
            final(self)@.surplus_posts == old(self)@.surplus_posts,
            final(self)@.assignments == old(self)@.assignments,
            r is Ok ==> final(self)@.post_state(payload.surplus_post_id) == PostState::Delivered,
            old(self)@.no_post_set_back(final(self)@),
    {
        if !is_bound(&self.assignments, Some(payload.surplus_post_id), Some(payload.driver_id)) {
            return Err(Message::new(ErrorKind::Conflict, "not assigned to the driver ID"));
        }
        let id = match reserve(&self.ids) {
            Ok(id) => id,
            Err(e) => {
                return Err(e);
            },
        };
        let record = payload.into_record(id, now);
        let r = commit(&mut self.ids, &mut self.surplus_records, record);
        proof {
            let before = old(self)@.surplus_records;
            let after = self@.surplus_records;
            if r is Ok {
                assert(after.contains_key(id));
            }
            assert forall|p: u64| delivered(before, p) implies delivered(after, p) by {
                let k = choose|k: u64| #[trigger]
                    before.contains_key(k) && before[k].surplus_post_id == p;
                assert(after.contains_key(k));
            }
        }
        r
    }

    /// Every surplus record, in ascending order of the ids; `NotFound` where there is none.
    pub fn get_all_surplus_records(&self) -> (r: Result<Vec<SurplusRecord>, Message>)
        requires
            self.wf(),
        ensures
            listed(r, "No surplus records found"@, self@.surplus_records),
    {
        fetch_all(&self.surplus_records, "No surplus records found")
    }

    /// The surplus record stored under `id`.
    pub fn get_surplus_record(&self, id: u64) -> (r: Result<SurplusRecord, Message>)
        requires
            self.wf(),
        ensures
            found(r, id, "Surplus record not found"@, self@.surplus_records),
    {
        fetch(&self.surplus_records, id, "Surplus record not found")
    }

    /// Puts the payload and the rating, stamped `now`, in place of the surplus
    /// record stored under `id`.
    pub fn update_surplus_record(
        &mut self,
        id: u64,
        payload: SurplusRecordPayload,
        rating: Option<u64>,
        now: u64,
    ) -> (r: Result<SurplusRecord, Message>)
        requires
            old(self).wf(),
        ensures
            final(self).wf(),
            final(self).regions() == old(self).regions(),
            replaced(
                r,
                id,
                payload.revision(id, now, rating),
                "Surplus record not found"@,
                old(self)@.surplus_records,
                final(self)@.surplus_records,
            ),
            final(self)@.last_id == old(self)@.last_id,
            final(self)@.donors == old(self)@.donors,
            final(self)@.receivers == old(self)@.receivers,
            final(self)@.drivers == old(self)@.drivers,
            final(self)@.surplus_posts == old(self)@.surplus_posts,
            final(self)@.assignments == old(self)@.assignments,
    {
        let record = payload.into_revision(id, now, rating);
        replace(&mut self.surplus_records, record, "Surplus record not found")
    }

    /// Removes the surplus record stored under `id`. Records that refer to it are left as they are.
    pub fn delete_surplus_record(&mut self, id: u64) -> (r: Result<(), Message>)
        requires
            old(self).wf(),
        ensures
            final(self).wf(),
            final(self).regions() == old(self).regions(),
            removed(
                r,
                id,
                "Surplus record not found"@,
                old(self)@.surplus_records,
                final(self)@.surplus_records,
            ),
            final(self)@.last_id == old(self)@.last_id,
            final(self)@.donors == old(self)@.donors,
            final(self)@.receivers == old(self)@.receivers,
            final(self)@.drivers == old(self)@.drivers,
            final(self)@.surplus_posts == old(self)@.surplus_posts,
            final(self)@.assignments == old(self)@.assignments,
    {
        discard(&mut self.surplus_records, id, "Surplus record not found")
    }

    /// How far the surplus post under `id` has come.
    pub fn get_post_state(&self, id: u64) -> (r: Result<PostState, Message>)
        requires
            self.wf(),
        ensures
            self@.surplus_posts.contains_key(id) ==> r == Ok::<PostState, Message>(
                self@.post_state(id),
            ),
            !self@.surplus_posts.contains_key(id) ==> (r matches Err(e) && e@ == (
                ErrorKind::NotFound,
                "Surplus post not found"@,
            )),
    {
        let post = match self.surplus_posts.get(id) {
            Some(post) => post,
            None => {
                return Err(Message::new(ErrorKind::NotFound, "Surplus post not found"));
            },
        };
        if is_delivered(&self.surplus_records, id) {
            Ok(PostState::Delivered)
        } else if post.assigned {
            Ok(PostState::Assigned)
        } else {
            Ok(PostState::Unassigned)
        }
    }
}

} // verus!
