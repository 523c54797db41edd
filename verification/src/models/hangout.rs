//! Hangouts: the confirmed-timeline, confirmed-attendee, per-attendee-status
//! record created once a ping is confirmed, and the match-result types the
//! matching engine produces.

use vstd::prelude::*;

use crate::ids::{fresh_id, Id};
use crate::time::Timestamp;

verus! {

/// Progress of a hangout tracked as its own entity.
#[derive(Debug, Clone, Copy, PartialEq, Eq, Structural)]
pub enum HangoutStatus {
    Confirmed,
    Active,
    Complete,
}

/// Progress of one attendee towards a hangout.
#[derive(Debug, Clone, Copy, PartialEq, Eq, Structural)]
pub enum AttendeeStatus {
    Pending,
    Enroute,
    Arrived,
    Left,
}

/// The concrete start/end the organizer picked.
#[derive(Debug, Clone, Copy, PartialEq, Eq, Structural)]
pub struct Timeline {
    pub start: Timestamp,
    pub end: Timestamp,
}

/// The common free window of all contributing responders.
#[derive(Debug, Clone, Copy, PartialEq, Eq, Structural)]
pub struct TimeOverlap {
    pub start: Timestamp,
    pub end: Timestamp,
    pub attendee_count: usize,
}

/// What the matching engine computed for a ping.
#[derive(Debug, Clone, Copy, PartialEq, Eq, Structural)]
pub struct MatchResults {
    pub ping_id: Id,
    pub overlap: Option<TimeOverlap>,
    pub has_match: bool,
}

/// Whether the status table has at most one row per attendee id.
pub open spec fn unique_keys(s: Seq<(Id, AttendeeStatus)>) -> bool {
    forall|i: int, j: int| 0 <= i < j < s.len() ==> s[i].0 != s[j].0
}

/// Builds the initial status table: one `Pending` row per distinct attendee,
/// in first-appearance order.
fn initial_statuses(attendees: &Vec<Id>) -> (r: Vec<(Id, AttendeeStatus)>)
    ensures
        unique_keys(r@),
        forall|id: Id|
            #[trigger] attendees@.contains(id) <==> r@.contains((id, AttendeeStatus::Pending)),
        forall|i: int| 0 <= i < r@.len() ==> r@[i].1 == AttendeeStatus::Pending,
{
    let mut r: Vec<(Id, AttendeeStatus)> = Vec::new();
    let mut k: usize = 0;
    while k < attendees.len()
        invariant
            k <= attendees@.len(),
            unique_keys(r@),
            forall|id: Id|
                #[trigger] attendees@.take(k as int).contains(id) <==> r@.contains(
                    (id, AttendeeStatus::Pending),
                ),
            forall|i: int| 0 <= i < r@.len() ==> r@[i].1 == AttendeeStatus::Pending,
        decreases attendees@.len() - k,
    {
        let id = attendees[k];
        let ghost r_before = r@;
        if !contains_key(&r, id) {
            r.push((id, AttendeeStatus::Pending));
            proof {
                assert(r@[r_before.len() as int] == (id, AttendeeStatus::Pending));
                assert(r@.contains((id, AttendeeStatus::Pending)));
            }
        } else {
            proof {
                let i = choose|i: int| 0 <= i < r@.len() && r@[i].0 == id;
                assert(r@[i] == (id, AttendeeStatus::Pending));
                assert(r@.contains((id, AttendeeStatus::Pending)));
            }
        }
        proof {
            assert(attendees@.take(k as int + 1) =~= attendees@.take(k as int).push(
                attendees@[k as int],
            ));
            assert forall|id2: Id| #[trigger]
                attendees@.take(k as int + 1).contains(id2) implies r@.contains(
                (id2, AttendeeStatus::Pending),
            ) by {
                if attendees@.take(k as int).contains(id2) {
                    assert(r_before.contains((id2, AttendeeStatus::Pending)));
                    let i = choose|i: int|
                        0 <= i < r_before.len() && r_before[i] == (id2, AttendeeStatus::Pending);
                    assert(r@[i] == (id2, AttendeeStatus::Pending));
                    assert(r@.contains((id2, AttendeeStatus::Pending)));
                } else {
                    assert(id2 == attendees@[k as int]);
                }
            }
            assert forall|id2: Id| #[trigger]
                r@.contains((id2, AttendeeStatus::Pending)) implies attendees@.take(
                k as int + 1,
            ).contains(id2) by {
                let i = choose|i: int|
                    0 <= i < r@.len() && r@[i] == (id2, AttendeeStatus::Pending);
                if i < r_before.len() {
                    assert(r_before[i] == (id2, AttendeeStatus::Pending));
                    assert(r_before.contains((id2, AttendeeStatus::Pending)));
                    assert(attendees@.take(k as int).contains(id2));
                    let j = choose|j: int| 0 <= j < k && attendees@.take(k as int)[j] == id2;
                    assert(attendees@.take(k as int + 1)[j] == id2);
                    assert(attendees@.take(k as int + 1).contains(id2));
                } else {
                    assert(attendees@.take(k as int + 1)[k as int] == id2);
                    assert(attendees@.take(k as int + 1).contains(id2));
                }
            }
        }
        k = k + 1;
    }
    proof {
        assert(attendees@.take(attendees@.len() as int) =~= attendees@);
    }
    r
}

/// Whether the status table has a row for `user`.
fn contains_key(s: &Vec<(Id, AttendeeStatus)>, user: Id) -> (r: bool)
    ensures
        r == exists|i: int| 0 <= i < s@.len() && s@[i].0 == user,
{
    let mut k: usize = 0;
    while k < s.len()
        invariant
            k <= s@.len(),
            forall|i: int| 0 <= i < k ==> s@[i].0 != user,
        decreases s@.len() - k,
    {
        if s[k].0 == user {
            return true;
        }
        k = k + 1;
    }
    false
}

/// Sets the row for `user` to `status`, or appends one if absent.
fn set_status(s: &mut Vec<(Id, AttendeeStatus)>, user: Id, status: AttendeeStatus)
    ensures
        unique_keys(old(s)@) ==> {
            &&& unique_keys(final(s)@)
            &&& status_of(final(s)@, user) == Some(status)
            &&& forall|u: Id| u != user ==> status_of(final(s)@, u) == status_of(old(s)@, u)
        },
{
    let ghost orig = s@;
    let mut k: usize = 0;
    while k < s.len()
        invariant
            orig == old(s)@,
            s@ == orig,
            k <= orig.len(),
            forall|i: int| 0 <= i < k ==> orig[i].0 != user,
        decreases orig.len() - k,
    {
        if s[k].0 == user {
            s.set(k, (user, status));
            proof {
                if unique_keys(orig) {
                    assert(s@ == orig.update(k as int, (user, status)));
                    assert forall|i: int, j: int|
                        0 <= i < j < s@.len() implies s@[i].0 != s@[j].0 by {
                        assert(orig[i].0 != orig[j].0);
                    }
                    lemma_status_of_at(s@, user, k as int);
                    assert forall|u: Id| u != user implies status_of(s@, u) == status_of(
                        orig,
                        u,
                    ) by {
                        lemma_status_of_other(orig, s@, u);
                    }
                }
            }
            return ;
        }
        k = k + 1;
    }
    s.push((user, status));
    proof {
        if unique_keys(orig) {
            assert(forall|i: int| 0 <= i < orig.len() ==> s@[i] == orig[i]);
            assert forall|i: int, j: int| 0 <= i < j < s@.len() implies s@[i].0 != s@[j].0 by {
                if j < orig.len() {
                    assert(orig[i].0 != orig[j].0);
                } else {
                    assert(s@[j].0 == user);
                    assert(orig[i].0 != user);
                }
            }
            lemma_status_of_at(s@, user, orig.len() as int);
            assert forall|u: Id| u != user implies status_of(s@, u) == status_of(orig, u) by {
                lemma_status_of_other(orig, s@, u);
            }
        }
    }
}

/// For any id whose rows agree between two unique-key tables, `status_of`
/// agrees: helper for updates that only touch one key.
proof fn lemma_status_of_other(
    orig: Seq<(Id, AttendeeStatus)>,
    upd: Seq<(Id, AttendeeStatus)>,
    u: Id,
)
    requires
        unique_keys(orig),
        unique_keys(upd),
        upd.len() >= orig.len(),
        forall|i: int| 0 <= i < orig.len() ==> (#[trigger] upd[i].0 == orig[i].0 && (orig[i].0 == u
            ==> upd[i] == orig[i])),
        forall|i: int| orig.len() <= i < upd.len() ==> #[trigger] upd[i].0 != u,
    ensures
        status_of(upd, u) == status_of(orig, u),
{
    if exists|j: int| 0 <= j < orig.len() && orig[j].0 == u {
        let j = choose|j: int| 0 <= j < orig.len() && orig[j].0 == u;
        lemma_status_of_at(orig, u, j);
        assert(upd[j].0 == u);
        lemma_status_of_at(upd, u, j);
    } else {
        assert(forall|j: int| 0 <= j < upd.len() ==> upd[j].0 != u);
    }
}

/// The data embedded in a ping once a venue is confirmed: the attendee set
/// frozen from the positive responses, the organizer's timeline, and one
/// status row per attendee.
#[derive(Debug)]
pub struct HangoutData {
    pub confirmed_attendees: Vec<Id>,
    pub timeline: Timeline,
    pub attendee_statuses: Vec<(Id, AttendeeStatus)>,
}

/// The mathematical value of a `HangoutData`.
pub struct HangoutDataView {
    pub confirmed_attendees: Seq<Id>,
    pub timeline: Timeline,
    pub attendee_statuses: Seq<(Id, AttendeeStatus)>,
}

impl View for HangoutData {
    type V = HangoutDataView;

    open spec fn view(&self) -> HangoutDataView {
        HangoutDataView {
            confirmed_attendees: self.confirmed_attendees@,
            timeline: self.timeline,
            attendee_statuses: self.attendee_statuses@,
        }
    }
}

impl DeepView for HangoutData {
    type V = HangoutDataView;

    open spec fn deep_view(&self) -> HangoutDataView {
        self.view()
    }
}

impl Clone for HangoutData {
    fn clone(&self) -> (r: Self)
        ensures
            r@ == self@,
    {
        let r = HangoutData {
            confirmed_attendees: clone_id_vec(&self.confirmed_attendees),
            timeline: self.timeline,
            attendee_statuses: clone_status_vec(&self.attendee_statuses),
        };
        r
    }
}

impl HangoutDataView {
    /// The invariant a stored `HangoutData` satisfies.
    pub open spec fn well_formed(self) -> bool {
        &&& unique_keys(self.attendee_statuses)
        &&& forall|i: int|
            0 <= i < self.attendee_statuses.len() ==> self.confirmed_attendees.contains(
                #[trigger] self.attendee_statuses[i].0,
            )
        &&& forall|id: Id|
            #[trigger] self.confirmed_attendees.contains(id) ==> exists|i: int|
                0 <= i < self.attendee_statuses.len() && self.attendee_statuses[i].0 == id
    }
}

impl HangoutData {
    /// Freezes the attendee set and defaults every attendee's status to
    /// `Pending`.
    pub fn new(attendees: Vec<Id>, timeline: Timeline) -> (r: Self)
        ensures
            r@.confirmed_attendees == attendees@,
            r@.timeline == timeline,
            all_pending_for(attendees@, r@.attendee_statuses),
            r@.well_formed(),
    {
        let statuses = initial_statuses(&attendees);
        proof {
            assert forall|i: int| 0 <= i < statuses@.len() implies attendees@.contains(
                #[trigger] statuses@[i].0,
            ) by {
                assert(statuses@[i] == (statuses@[i].0, AttendeeStatus::Pending));
                assert(statuses@.contains(statuses@[i]));
            }
        }
        HangoutData { confirmed_attendees: attendees, timeline, attendee_statuses: statuses }
    }

    /// Records a new status for `user`, updating the existing row or adding
    /// one.
    pub fn update_attendee_status(&mut self, user_id: Id, status: AttendeeStatus)
        ensures
            final(self)@.confirmed_attendees == old(self)@.confirmed_attendees,
            final(self)@.timeline == old(self)@.timeline,
            unique_keys(old(self)@.attendee_statuses) ==> {
                &&& unique_keys(final(self)@.attendee_statuses)
                &&& status_of(final(self)@.attendee_statuses, user_id) == Some(status)
                &&& forall|u: Id|
                    u != user_id ==> status_of(final(self)@.attendee_statuses, u) == status_of(
                        old(self)@.attendee_statuses,
                        u,
                    )
            },
    {
        set_status(&mut self.attendee_statuses, user_id, status);
    }

    /// Whether `user_id` is one of the frozen attendees.
    pub fn is_attendee(&self, user_id: Id) -> (r: bool)
        ensures
            r == self@.confirmed_attendees.contains(user_id),
    {
        contains_id(&self.confirmed_attendees, user_id)
    }
}

/// Whether the status table maps exactly the distinct ids of `attendees` to
/// `Pending`.
pub open spec fn all_pending_for(attendees: Seq<Id>, s: Seq<(Id, AttendeeStatus)>) -> bool {
    &&& forall|id: Id|
        #[trigger] attendees.contains(id) <==> s.contains((id, AttendeeStatus::Pending))
    &&& forall|i: int| 0 <= i < s.len() ==> s[i].1 == AttendeeStatus::Pending
}

/// The status recorded for `user`, if any. Meaningful when keys are unique.
pub open spec fn status_of(s: Seq<(Id, AttendeeStatus)>, user: Id) -> Option<AttendeeStatus> {
    if exists|i: int| 0 <= i < s.len() && s[i].0 == user {
        Some(s[choose|i: int| 0 <= i < s.len() && s[i].0 == user].1)
    } else {
        None
    }
}

proof fn lemma_status_of_at(s: Seq<(Id, AttendeeStatus)>, user: Id, i: int)
    requires
        unique_keys(s),
        0 <= i < s.len(),
        s[i].0 == user,
    ensures
        status_of(s, user) == Some(s[i].1),
{
    let j = choose|j: int| 0 <= j < s.len() && s[j].0 == user;
    assert(j == i);
}

/// Whether `v` contains `id`.
pub fn contains_id(v: &Vec<Id>, id: Id) -> (r: bool)
    ensures
        r == v@.contains(id),
{
    let mut k: usize = 0;
    while k < v.len()
        invariant
            k <= v@.len(),
            forall|i: int| 0 <= i < k ==> v@[i] != id,
        decreases v@.len() - k,
    {
        if v[k] == id {
            return true;
        }
        k = k + 1;
    }
    false
}

/// Copies a vector of ids, keeping it equal to the original.
pub fn clone_id_vec(v: &Vec<Id>) -> (r: Vec<Id>)
    ensures
        r@ == v@,
{
    let mut r: Vec<Id> = Vec::new();
    let mut k: usize = 0;
    while k < v.len()
        invariant
            k <= v@.len(),
            r@ == v@.take(k as int),
        decreases v@.len() - k,
    {
        r.push(v[k]);
        proof {
            assert(r@ =~= v@.take(k as int + 1));
        }
        k = k + 1;
    }
    proof {
        assert(v@.take(v@.len() as int) =~= v@);
    }
    r
}

/// Copies a status table, keeping it equal to the original.
fn clone_status_vec(v: &Vec<(Id, AttendeeStatus)>) -> (r: Vec<(Id, AttendeeStatus)>)
    ensures
        r@ == v@,
{
    let mut r: Vec<(Id, AttendeeStatus)> = Vec::new();
    let mut k: usize = 0;
    while k < v.len()
        invariant
            k <= v@.len(),
            r@ == v@.take(k as int),
        decreases v@.len() - k,
    {
        r.push(v[k]);
        proof {
            assert(r@ =~= v@.take(k as int + 1));
        }
        k = k + 1;
    }
    proof {
        assert(v@.take(v@.len() as int) =~= v@);
    }
    r
}

/// A hangout tracked as an entity of its own, keyed separately from the ping
/// that owns it.
#[derive(Debug)]
pub struct Hangout {
    pub id: Id,
    pub ping: Id,
    pub confirmed_attendees: Vec<Id>,
    pub timeline: Timeline,
    pub status: HangoutStatus,
    pub attendee_statuses: Vec<(Id, AttendeeStatus)>,
}

/// The mathematical value of a `Hangout`.
pub struct HangoutView {
    pub id: Id,
    pub ping: Id,
    pub confirmed_attendees: Seq<Id>,
    pub timeline: Timeline,
    pub status: HangoutStatus,
    pub attendee_statuses: Seq<(Id, AttendeeStatus)>,
}

impl View for Hangout {
    type V = HangoutView;

    open spec fn view(&self) -> HangoutView {
        HangoutView {
            id: self.id,
            ping: self.ping,
            confirmed_attendees: self.confirmed_attendees@,
            timeline: self.timeline,
            status: self.status,
            attendee_statuses: self.attendee_statuses@,
        }
    }
}

impl Clone for Hangout {
    fn clone(&self) -> (r: Self)
        ensures
            r@ == self@,
    {
        Hangout {
            id: self.id,
            ping: self.ping,
            confirmed_attendees: clone_id_vec(&self.confirmed_attendees),
            timeline: self.timeline,
            status: self.status,
            attendee_statuses: clone_status_vec(&self.attendee_statuses),
        }
    }
}

/// The organizer's confirmation request: who confirms, over which timeline.
#[derive(Debug, Clone, Copy, PartialEq, Eq, Structural)]
pub struct ConfirmHangoutRequest {
    pub user_id: Id,
    pub timeline: Timeline,
}

/// A request to move one attendee to a new status.
#[derive(Debug, Clone, Copy, PartialEq, Eq, Structural)]
pub struct UpdateAttendeeStatusRequest {
    pub status: AttendeeStatus,
}

impl Hangout {
    /// Builds a hangout entity for `ping_id`, freezing `attendees` and
    /// defaulting every status to `Pending`. The identifier is drawn from
    /// outside the core, so nothing is promised of it.
    pub fn new(ping_id: Id, attendees: Vec<Id>, timeline: Timeline) -> (r: Self)
        ensures
            r@.ping == ping_id,
            r@.confirmed_attendees == attendees@,
            r@.timeline == timeline,
            r@.status == HangoutStatus::Confirmed,
            all_pending_for(attendees@, r@.attendee_statuses),
            unique_keys(r@.attendee_statuses),
    {
        let statuses = initial_statuses(&attendees);
        Hangout {
            id: fresh_id(),
            ping: ping_id,
            confirmed_attendees: attendees,
            timeline,
            status: HangoutStatus::Confirmed,
            attendee_statuses: statuses,
        }
    }

    /// Marks the hangout as started.
    pub fn activate(&mut self)
        ensures
            final(self)@ == (HangoutView { status: HangoutStatus::Active, ..old(self)@ }),
    {
        self.status = HangoutStatus::Active;
    }

    /// Marks the hangout as finished.
    pub fn complete(&mut self)
        ensures
            final(self)@ == (HangoutView { status: HangoutStatus::Complete, ..old(self)@ }),
    {
        self.status = HangoutStatus::Complete;
    }

    /// Records a new status for `user_id`, updating the existing row or
    /// adding one.
    pub fn update_attendee_status(&mut self, user_id: Id, status: AttendeeStatus)
        ensures
            final(self)@.id == old(self)@.id,
            final(self)@.ping == old(self)@.ping,
            final(self)@.confirmed_attendees == old(self)@.confirmed_attendees,
            final(self)@.timeline == old(self)@.timeline,
            final(self)@.status == old(self)@.status,
            unique_keys(old(self)@.attendee_statuses) ==> {
                &&& unique_keys(final(self)@.attendee_statuses)
                &&& status_of(final(self)@.attendee_statuses, user_id) == Some(status)
                &&& forall|u: Id|
                    u != user_id ==> status_of(final(self)@.attendee_statuses, u) == status_of(
                        old(self)@.attendee_statuses,
                        u,
                    )
            },
    {
        set_status(&mut self.attendee_statuses, user_id, status);
    }

    /// Whether `user_id` is one of the frozen attendees.
    pub fn is_attendee(&self, user_id: Id) -> (r: bool)
        ensures
            r == self@.confirmed_attendees.contains(user_id),
    {
        contains_id(&self.confirmed_attendees, user_id)
    }
}

} // verus!
