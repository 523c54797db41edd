//! Pings and their lifecycle: the tagged union that carries exactly the data
//! belonging to each phase of a ping's progress.

use vstd::prelude::*;

use crate::ids::{fresh_id, Id};
use crate::models::error::AppError;
use crate::models::hangout::{
    status_of, unique_keys, AttendeeStatus, HangoutData, HangoutDataView, MatchResults,
};
use crate::models::response::{
    response_updated, Response, ResponseView, UpdateResponseRequest,
};
use crate::time::{now_millis, Timestamp};
use vstd::string::StrSliceExecFns;

verus! {

/// The name of a lifecycle phase, without its data. Used to filter listings.
#[derive(Debug, Clone, Copy, PartialEq, Eq, Structural)]
pub enum PingState {
    PingSent,
    Gathering,
    Matching,
    VenueConfirmed,
    ActiveHangout,
    Complete,
    Cancelled,
    NoMatch,
}

/// A ping's type-state. Each variant carries exactly the data that exists in
/// that phase: no variant exposes match results or hangout data it is not
/// declared to carry.
#[derive(Debug)]
pub enum PingLifecycle {
    /// Just created, no responses yet.
    PingSent,
    /// Collecting attendee input.
    Gathering { responses: Vec<Response> },
    /// A match window was computed and accepted.
    Matching { responses: Vec<Response>, match_results: MatchResults },
    /// The organizer picked a concrete timeline.
    VenueConfirmed { responses: Vec<Response>, hangout: HangoutData },
    /// The hangout window has started.
    ActiveHangout { responses: Vec<Response>, hangout: HangoutData },
    /// The hangout finished; terminal.
    Complete { responses: Vec<Response>, hangout: HangoutData },
    /// Withdrawn by the initiator; terminal.
    Cancelled { responses: Vec<Response> },
    /// Matching was attempted and found no overlap; terminal.
    NoMatch { responses: Vec<Response> },
}

/// The mathematical value of a `PingLifecycle`.
pub enum LifecycleView {
    PingSent,
    Gathering { responses: Seq<ResponseView> },
    Matching { responses: Seq<ResponseView>, match_results: MatchResults },
    VenueConfirmed { responses: Seq<ResponseView>, hangout: HangoutDataView },
    ActiveHangout { responses: Seq<ResponseView>, hangout: HangoutDataView },
    Complete { responses: Seq<ResponseView>, hangout: HangoutDataView },
    Cancelled { responses: Seq<ResponseView> },
    NoMatch { responses: Seq<ResponseView> },
}

impl View for PingLifecycle {
    type V = LifecycleView;

    open spec fn view(&self) -> LifecycleView {
        match self {
            PingLifecycle::PingSent => LifecycleView::PingSent,
            PingLifecycle::Gathering { responses } => LifecycleView::Gathering {
                responses: responses.deep_view(),
            },
            PingLifecycle::Matching { responses, match_results } => LifecycleView::Matching {
                responses: responses.deep_view(),
                match_results: *match_results,
            },
            PingLifecycle::VenueConfirmed { responses, hangout } => LifecycleView::VenueConfirmed {
                responses: responses.deep_view(),
                hangout: hangout@,
            },
            PingLifecycle::ActiveHangout { responses, hangout } => LifecycleView::ActiveHangout {
                responses: responses.deep_view(),
                hangout: hangout@,
            },
            PingLifecycle::Complete { responses, hangout } => LifecycleView::Complete {
                responses: responses.deep_view(),
                hangout: hangout@,
            },
            PingLifecycle::Cancelled { responses } => LifecycleView::Cancelled {
                responses: responses.deep_view(),
            },
            PingLifecycle::NoMatch { responses } => LifecycleView::NoMatch {
                responses: responses.deep_view(),
            },
        }
    }
}

impl LifecycleView {
    /// The phase name of this lifecycle value.
    pub open spec fn state(self) -> PingState {
        match self {
            LifecycleView::PingSent => PingState::PingSent,
            LifecycleView::Gathering { .. } => PingState::Gathering,
            LifecycleView::Matching { .. } => PingState::Matching,
            LifecycleView::VenueConfirmed { .. } => PingState::VenueConfirmed,
            LifecycleView::ActiveHangout { .. } => PingState::ActiveHangout,
            LifecycleView::Complete { .. } => PingState::Complete,
            LifecycleView::Cancelled { .. } => PingState::Cancelled,
            LifecycleView::NoMatch { .. } => PingState::NoMatch,
        }
    }

    /// No transition leaves a terminal phase.
    pub open spec fn is_terminal(self) -> bool {
        self is Complete || self is Cancelled || self is NoMatch
    }

    /// Responses may be added while the ping is freshly sent or gathering.
    pub open spec fn can_add_response(self) -> bool {
        self is PingSent || self is Gathering
    }

    /// Matching may only be triggered while gathering.
    pub open spec fn can_trigger_match(self) -> bool {
        self is Gathering
    }

    /// A venue may only be confirmed from the matching phase.
    pub open spec fn can_confirm(self) -> bool {
        self is Matching
    }

    /// A hangout may only start once a venue is confirmed.
    pub open spec fn can_activate(self) -> bool {
        self is VenueConfirmed
    }

    /// A hangout may only finish while it is active.
    pub open spec fn can_complete(self) -> bool {
        self is ActiveHangout
    }

    /// Cancelling is legal from any non-terminal phase.
    pub open spec fn can_cancel(self) -> bool {
        !self.is_terminal()
    }

    /// The accumulated responses; empty before any response arrived.
    pub open spec fn responses(self) -> Seq<ResponseView> {
        match self {
            LifecycleView::PingSent => Seq::<ResponseView>::empty(),
            LifecycleView::Gathering { responses } => responses,
            LifecycleView::Matching { responses, .. } => responses,
            LifecycleView::VenueConfirmed { responses, .. } => responses,
            LifecycleView::ActiveHangout { responses, .. } => responses,
            LifecycleView::Complete { responses, .. } => responses,
            LifecycleView::Cancelled { responses } => responses,
            LifecycleView::NoMatch { responses } => responses,
        }
    }

    /// The embedded hangout data; present exactly in the venue-confirmed,
    /// active and complete phases.
    pub open spec fn hangout(self) -> Option<HangoutDataView> {
        match self {
            LifecycleView::VenueConfirmed { hangout, .. } => Some(hangout),
            LifecycleView::ActiveHangout { hangout, .. } => Some(hangout),
            LifecycleView::Complete { hangout, .. } => Some(hangout),
            _ => None,
        }
    }

    /// The stored match results; present exactly in the matching phase.
    pub open spec fn match_results(self) -> Option<MatchResults> {
        match self {
            LifecycleView::Matching { match_results, .. } => Some(match_results),
            _ => None,
        }
    }
}

/// Each lifecycle phase exposes exactly the data its variant declares: hangout
/// data exists only from venue confirmation to completion, match results only
/// while matching, and the response list is empty only before the first
/// response.
pub proof fn lemma_lifecycle_shape(l: LifecycleView)
    ensures
        l.hangout() is Some <==> (l is VenueConfirmed || l is ActiveHangout || l is Complete),
        l.match_results() is Some <==> l is Matching,
        l is PingSent ==> l.responses() == Seq::<ResponseView>::empty(),
{
}

/// A terminal phase admits no further transition: nothing may be added,
/// triggered, confirmed, activated, completed or cancelled from it.
pub proof fn lemma_terminal_states_admit_no_transition(l: LifecycleView)
    requires
        l.is_terminal(),
    ensures
        !l.can_add_response(),
        !l.can_trigger_match(),
        !l.can_confirm(),
        !l.can_activate(),
        !l.can_complete(),
        !l.can_cancel(),
{
}

impl PingLifecycle {
    /// The phase name of this lifecycle value.
    pub fn state(&self) -> (r: PingState)
        ensures
            r == self@.state(),
    {
        match self {
            PingLifecycle::PingSent => PingState::PingSent,
            PingLifecycle::Gathering { .. } => PingState::Gathering,
            PingLifecycle::Matching { .. } => PingState::Matching,
            PingLifecycle::VenueConfirmed { .. } => PingState::VenueConfirmed,
            PingLifecycle::ActiveHangout { .. } => PingState::ActiveHangout,
            PingLifecycle::Complete { .. } => PingState::Complete,
            PingLifecycle::Cancelled { .. } => PingState::Cancelled,
            PingLifecycle::NoMatch { .. } => PingState::NoMatch,
        }
    }

    /// The lower-case wire name of the phase.
    pub fn state_name(&self) -> (r: &'static str)
        ensures
            self@ is PingSent ==> r@ == "ping_sent"@,
            self@ is Gathering ==> r@ == "gathering"@,
            self@ is Matching ==> r@ == "matching"@,
            self@ is VenueConfirmed ==> r@ == "venue_confirmed"@,
            self@ is ActiveHangout ==> r@ == "active_hangout"@,
            self@ is Complete ==> r@ == "complete"@,
            self@ is Cancelled ==> r@ == "cancelled"@,
            self@ is NoMatch ==> r@ == "no_match"@,
    {
        match self {
            PingLifecycle::PingSent => "ping_sent",
            PingLifecycle::Gathering { .. } => "gathering",
            PingLifecycle::Matching { .. } => "matching",
            PingLifecycle::VenueConfirmed { .. } => "venue_confirmed",
            PingLifecycle::ActiveHangout { .. } => "active_hangout",
            PingLifecycle::Complete { .. } => "complete",
            PingLifecycle::Cancelled { .. } => "cancelled",
            PingLifecycle::NoMatch { .. } => "no_match",
        }
    }

    /// Whether this phase is terminal.
    pub fn is_terminal(&self) -> (r: bool)
        ensures
            r == self@.is_terminal(),
    {
        match self {
            PingLifecycle::Complete { .. } => true,
            PingLifecycle::Cancelled { .. } => true,
            PingLifecycle::NoMatch { .. } => true,
            _ => false,
        }
    }

    /// Whether a response may be added in this phase.
    pub fn can_add_response(&self) -> (r: bool)
        ensures
            r == self@.can_add_response(),
    {
        match self {
            PingLifecycle::PingSent => true,
            PingLifecycle::Gathering { .. } => true,
            _ => false,
        }
    }

    /// Whether matching may be triggered in this phase.
    pub fn can_trigger_match(&self) -> (r: bool)
        ensures
            r == self@.can_trigger_match(),
    {
        match self {
            PingLifecycle::Gathering { .. } => true,
            _ => false,
        }
    }

    /// Whether a venue may be confirmed in this phase.
    pub fn can_confirm(&self) -> (r: bool)
        ensures
            r == self@.can_confirm(),
    {
        match self {
            PingLifecycle::Matching { .. } => true,
            _ => false,
        }
    }

    /// Whether the hangout may start in this phase.
    pub fn can_activate(&self) -> (r: bool)
        ensures
            r == self@.can_activate(),
    {
        match self {
            PingLifecycle::VenueConfirmed { .. } => true,
            _ => false,
        }
    }

    /// Whether the hangout may finish in this phase.
    pub fn can_complete(&self) -> (r: bool)
        ensures
            r == self@.can_complete(),
    {
        match self {
            PingLifecycle::ActiveHangout { .. } => true,
            _ => false,
        }
    }

    /// Whether the ping may still be cancelled.
    pub fn can_cancel(&self) -> (r: bool)
        ensures
            r == self@.can_cancel(),
    {
        !self.is_terminal()
    }

    /// A copy of the accumulated responses; empty before any response
    /// arrived.
    pub fn responses(&self) -> (r: Vec<Response>)
        ensures
            r.deep_view() == self@.responses(),
    {
        match self {
            PingLifecycle::PingSent => {
                let r: Vec<Response> = Vec::new();
                proof {
                    assert(r.deep_view() =~= Seq::<ResponseView>::empty());
                }
                r
            },
            PingLifecycle::Gathering { responses } => clone_responses(responses),
            PingLifecycle::Matching { responses, .. } => clone_responses(responses),
            PingLifecycle::VenueConfirmed { responses, .. } => clone_responses(responses),
            PingLifecycle::ActiveHangout { responses, .. } => clone_responses(responses),
            PingLifecycle::Complete { responses, .. } => clone_responses(responses),
            PingLifecycle::Cancelled { responses } => clone_responses(responses),
            PingLifecycle::NoMatch { responses } => clone_responses(responses),
        }
    }

    /// The embedded hangout data; present exactly in the venue-confirmed,
    /// active and complete phases.
    pub fn hangout(&self) -> (r: Option<&HangoutData>)
        ensures
            r matches Some(h) ==> self@.hangout() == Some(h@),
            r is None <==> self@.hangout() is None,
    {
        match self {
            PingLifecycle::VenueConfirmed { hangout, .. } => Some(hangout),
            PingLifecycle::ActiveHangout { hangout, .. } => Some(hangout),
            PingLifecycle::Complete { hangout, .. } => Some(hangout),
            _ => None,
        }
    }

    /// The stored match results; present exactly in the matching phase.
    pub fn match_results(&self) -> (r: Option<&MatchResults>)
        ensures
            r matches Some(m) ==> self@.match_results() == Some(*m),
            r is None <==> self@.match_results() is None,
    {
        match self {
            PingLifecycle::Matching { match_results, .. } => Some(match_results),
            _ => None,
        }
    }
}

impl Clone for PingLifecycle {
    fn clone(&self) -> (r: Self)
        ensures
            r@ == self@,
    {
        match self {
            PingLifecycle::PingSent => PingLifecycle::PingSent,
            PingLifecycle::Gathering { responses } => PingLifecycle::Gathering {
                responses: clone_responses(responses),
            },
            PingLifecycle::Matching { responses, match_results } => PingLifecycle::Matching {
                responses: clone_responses(responses),
                match_results: *match_results,
            },
            PingLifecycle::VenueConfirmed { responses, hangout } => PingLifecycle::VenueConfirmed {
                responses: clone_responses(responses),
                hangout: hangout.clone(),
            },
            PingLifecycle::ActiveHangout { responses, hangout } => PingLifecycle::ActiveHangout {
                responses: clone_responses(responses),
                hangout: hangout.clone(),
            },
            PingLifecycle::Complete { responses, hangout } => PingLifecycle::Complete {
                responses: clone_responses(responses),
                hangout: hangout.clone(),
            },
            PingLifecycle::Cancelled { responses } => PingLifecycle::Cancelled {
                responses: clone_responses(responses),
            },
            PingLifecycle::NoMatch { responses } => PingLifecycle::NoMatch {
                responses: clone_responses(responses),
            },
        }
    }
}

/// Clones a response list; the copy has the same mathematical value.
pub fn clone_responses(v: &Vec<Response>) -> (r: Vec<Response>)
    ensures
        r.deep_view() == v.deep_view(),
{
    let mut r: Vec<Response> = Vec::new();
    let mut k: usize = 0;
    while k < v.len()
        invariant
            k <= v@.len(),
            r@.len() == k,
            forall|j: int| 0 <= j < k ==> #[trigger] r@[j]@ == v@[j]@,
        decreases v@.len() - k,
    {
        let c = v[k].clone();
        proof {
            assert(c@ == v@[k as int]@);
        }
        let ghost rv_before = r@;
        r.push(c);
        proof {
            assert(forall|j: int| 0 <= j < k ==> #[trigger] r@[j] == rv_before[j]);
        }
        k = k + 1;
    }
    proof {
        assert forall|j: int| 0 <= j < v@.len() implies r.deep_view()[j] == v.deep_view()[j] by {
            assert(r.deep_view()[j] == r@[j].deep_view());
            assert(v.deep_view()[j] == v@[j].deep_view());
        }
        assert(r.deep_view() =~= v.deep_view());
    }
    r
}

/// A proposed activity sent to a group, tracked through its lifecycle.
#[derive(Debug)]
pub struct Ping {
    pub id: Id,
    pub initiator: Id,
    pub group: Id,
    pub activity_type: String,
    pub rough_timing: String,
    pub vibe: Option<String>,
    pub created_at: Timestamp,
    pub lifecycle: PingLifecycle,
}

/// The mathematical value of a `Ping`.
pub struct PingView {
    pub id: Id,
    pub initiator: Id,
    pub group: Id,
    pub activity_type: Seq<char>,
    pub rough_timing: Seq<char>,
    pub vibe: Option<Seq<char>>,
    pub created_at: Timestamp,
    pub lifecycle: LifecycleView,
}

impl View for Ping {
    type V = PingView;

    open spec fn view(&self) -> PingView {
        PingView {
            id: self.id,
            initiator: self.initiator,
            group: self.group,
            activity_type: self.activity_type@,
            rough_timing: self.rough_timing@,
            vibe: match self.vibe {
                Some(v) => Some(v@),
                None => None,
            },
            created_at: self.created_at,
            lifecycle: self.lifecycle@,
        }
    }
}

impl DeepView for Ping {
    type V = PingView;

    open spec fn deep_view(&self) -> PingView {
        self.view()
    }
}

impl Clone for Ping {
    fn clone(&self) -> (r: Self)
        ensures
            r@ == self@,
    {
        Ping {
            id: self.id,
            initiator: self.initiator,
            group: self.group,
            activity_type: self.activity_type.clone(),
            rough_timing: self.rough_timing.clone(),
            vibe: clone_opt_string(&self.vibe),
            created_at: self.created_at,
            lifecycle: self.lifecycle.clone(),
        }
    }
}

/// Clones an optional string; the copy is equal.
pub fn clone_opt_string(v: &Option<String>) -> (r: Option<String>)
    ensures
        r == v,
{
    match v {
        Some(s) => Some(s.clone()),
        None => None,
    }
}

/// The validated fields a new ping is created from.
#[derive(Debug)]
pub struct CreatePingRequest {
    pub initiator: Id,
    pub group: Id,
    pub activity_type: String,
    pub rough_timing: String,
    pub vibe: Option<String>,
}

/// Identifies the caller asking to cancel a ping.
#[derive(Debug, Clone, Copy, PartialEq, Eq, Structural)]
pub struct CancelPingRequest {
    pub user_id: Id,
}

/// Identifies the caller asking to trigger matching.
#[derive(Debug, Clone, Copy, PartialEq, Eq, Structural)]
pub struct TriggerMatchRequest {
    pub user_id: Id,
}

impl Ping {
    /// Stamps a fresh identifier and the current time onto a validated
    /// request; the ping starts in the `PingSent` phase. The identifier and
    /// timestamp are drawn from outside the core, so nothing is promised of
    /// them.
    pub fn new(request: CreatePingRequest) -> (r: Self)
        ensures
            r.initiator == request.initiator,
            r.group == request.group,
            r.activity_type@ == request.activity_type@,
            r.rough_timing@ == request.rough_timing@,
            r@.vibe == (match request.vibe {
                Some(v) => Some(v@),
                None => None::<Seq<char>>,
            }),
            r.lifecycle@ == LifecycleView::PingSent,
    {
        Ping {
            id: fresh_id(),
            initiator: request.initiator,
            group: request.group,
            activity_type: request.activity_type,
            rough_timing: request.rough_timing,
            vibe: request.vibe,
            created_at: now_millis(),
            lifecycle: PingLifecycle::PingSent,
        }
    }

    /// Adds a response: the first one moves the ping from `PingSent` to
    /// `Gathering`; later ones append while gathering. In any other phase the
    /// ping is left unchanged (callers guard with `can_add_response`).
    pub fn add_response(&mut self, response: Response)
        ensures
            final(self)@.id == old(self)@.id,
            final(self)@.initiator == old(self)@.initiator,
            final(self)@.group == old(self)@.group,
            final(self)@.activity_type == old(self)@.activity_type,
            final(self)@.rough_timing == old(self)@.rough_timing,
            final(self)@.vibe == old(self)@.vibe,
            final(self)@.created_at == old(self)@.created_at,
            old(self)@.lifecycle.can_add_response() ==> final(self)@.lifecycle
                == (LifecycleView::Gathering {
                responses: old(self)@.lifecycle.responses().push(response@),
            }),
            !old(self)@.lifecycle.can_add_response() ==> final(self)@.lifecycle == old(
                self,
            )@.lifecycle,
    {
        let mut taken = PingLifecycle::PingSent;
        core::mem::swap(&mut taken, &mut self.lifecycle);
        match taken {
            PingLifecycle::PingSent => {
                let mut responses: Vec<Response> = Vec::new();
                responses.push(response);
                proof {
                    assert(responses.deep_view() =~= Seq::<ResponseView>::empty().push(
                        response@,
                    ));
                }
                self.lifecycle = PingLifecycle::Gathering { responses };
            },
            PingLifecycle::Gathering { mut responses } => {
                let ghost before = responses.deep_view();
                responses.push(response);
                proof {
                    assert(responses.deep_view() =~= before.push(response@));
                }
                self.lifecycle = PingLifecycle::Gathering { responses };
            },
            other => {
                self.lifecycle = other;
            },
        }
    }

    /// The accumulated responses of this ping.
    pub fn responses(&self) -> (r: Vec<Response>)
        ensures
            r.deep_view() == self@.lifecycle.responses(),
    {
        self.lifecycle.responses()
    }

    /// The response `user_id` gave, if any: the first one in the list.
    pub fn find_response(&self, user_id: Id) -> (r: Option<&Response>)
        ensures
            r matches Some(resp) ==> exists|i: int|
                {
                    &&& 0 <= i < self@.lifecycle.responses().len()
                    &&& #[trigger] self@.lifecycle.responses()[i] == resp@
                    &&& resp.user == user_id
                    &&& forall|j: int|
                        0 <= j < i ==> self@.lifecycle.responses()[j].user != user_id
                },
            r is None ==> forall|i: int|
                0 <= i < self@.lifecycle.responses().len()
                    ==> self@.lifecycle.responses()[i].user != user_id,
    {
        let responses = match self.responses_ref() {
            Some(v) => v,
            None => {
                return None;
            },
        };
        let mut k: usize = 0;
        while k < responses.len()
            invariant
                k <= responses@.len(),
                responses.deep_view() == self@.lifecycle.responses(),
                forall|i: int| 0 <= i < k ==> responses.deep_view()[i].user != user_id,
            decreases responses@.len() - k,
        {
            if responses[k].user == user_id {
                proof {
                    let dv = responses.deep_view();
                    assert(self@.lifecycle.responses()[k as int] == dv[k as int]);
                }
                return Some(&responses[k]);
            }
            k = k + 1;
        }
        None
    }

    /// A borrow of the response list, or `None` before any response arrived.
    fn responses_ref(&self) -> (r: Option<&Vec<Response>>)
        ensures
            r matches Some(v) ==> v.deep_view() == self@.lifecycle.responses(),
            r is None ==> self@.lifecycle.responses() == Seq::<ResponseView>::empty(),
    {
        match &self.lifecycle {
            PingLifecycle::PingSent => None,
            PingLifecycle::Gathering { responses } => Some(responses),
            PingLifecycle::Matching { responses, .. } => Some(responses),
            PingLifecycle::VenueConfirmed { responses, .. } => Some(responses),
            PingLifecycle::ActiveHangout { responses, .. } => Some(responses),
            PingLifecycle::Complete { responses, .. } => Some(responses),
            PingLifecycle::Cancelled { responses } => Some(responses),
            PingLifecycle::NoMatch { responses } => Some(responses),
        }
    }

    /// Whether `user_id` already responded to this ping.
    pub fn has_user_responded(&self, user_id: Id) -> (r: bool)
        ensures
            r == exists|i: int|
                0 <= i < self@.lifecycle.responses().len() && self@.lifecycle.responses()[i].user
                    == user_id,
    {
        match self.find_response(user_id) {
            Some(_) => true,
            None => false,
        }
    }

    /// Copies of the responses whose answer is positive, in order.
    pub fn positive_responses(&self) -> (r: Vec<Response>)
        ensures
            r.deep_view() == self@.lifecycle.responses().filter(|resp: ResponseView| resp.answer),
    {
        match self.responses_ref() {
            Some(responses) => positive_of(responses),
            None => {
                let r: Vec<Response> = Vec::new();
                proof {
                    reveal(Seq::filter);
                    assert(r.deep_view() =~= Seq::<ResponseView>::empty().filter(
                        |resp: ResponseView| resp.answer,
                    ));
                }
                r
            },
        }
    }
}

/// Copies the positively-answered responses of `v`, in order.
pub fn positive_of(v: &Vec<Response>) -> (r: Vec<Response>)
    ensures
        r.deep_view() == v.deep_view().filter(|resp: ResponseView| resp.answer),
{
    broadcast use vstd::seq_lib::group_filter_ensures;

    let mut r: Vec<Response> = Vec::new();
    let mut k: usize = 0;
    while k < v.len()
        invariant
            k <= v@.len(),
            r.deep_view() == v.deep_view().take(k as int).filter(
                |resp: ResponseView| resp.answer,
            ),
        decreases v@.len() - k,
    {
        let ghost prefix = v.deep_view().take(k as int);
        proof {
            assert(v.deep_view().take(k as int + 1) =~= prefix.push(v.deep_view()[k as int]));
            reveal(Seq::filter);
            assert(prefix.push(v.deep_view()[k as int]).drop_last() =~= prefix);
        }
        if v[k].answer {
            r.push(v[k].clone());
            proof {
                assert(r.deep_view() =~= prefix.filter(|resp: ResponseView| resp.answer).push(
                    v.deep_view()[k as int],
                ));
            }
        }
        k = k + 1;
    }
    proof {
        assert(v.deep_view().take(v@.len() as int) =~= v.deep_view());
    }
    r
}

impl CreatePingRequest {
    /// Whether every field satisfies its length bound: activity and timing 1
    /// to 50 characters, the optional vibe at most 100.
    pub open spec fn valid(self) -> bool {
        &&& 1 <= self.activity_type@.len() <= 50
        &&& 1 <= self.rough_timing@.len() <= 50
        &&& (self.vibe matches Some(v) ==> v@.len() <= 100)
    }

    pub fn validate(&self) -> (r: Result<(), AppError>)
        ensures
            r is Ok <==> self.valid(),
            r matches Err(e) ==> e is Validation,
    {
        let n = self.activity_type.as_str().unicode_len();
        if n < 1 || n > 50 {
            return Err(
                AppError::Validation("activity_type must be 1 to 50 characters".to_owned()),
            );
        }
        let n = self.rough_timing.as_str().unicode_len();
        if n < 1 || n > 50 {
            return Err(
                AppError::Validation("rough_timing must be 1 to 50 characters".to_owned()),
            );
        }
        if let Some(vibe) = &self.vibe {
            let n = vibe.as_str().unicode_len();
            if n > 100 {
                return Err(
                    AppError::Validation("vibe must be at most 100 characters".to_owned()),
                );
            }
        }
        Ok(())
    }
}

impl Ping {
    /// The response with identifier `response_id`, if any: the first one in
    /// the list.
    pub fn find_response_by_id(&self, response_id: Id) -> (r: Option<&Response>)
        ensures
            r matches Some(resp) ==> exists|i: int|
                {
                    &&& 0 <= i < self@.lifecycle.responses().len()
                    &&& #[trigger] self@.lifecycle.responses()[i] == resp@
                    &&& resp.id == response_id
                    &&& forall|j: int|
                        0 <= j < i ==> self@.lifecycle.responses()[j].id != response_id
                },
            r is None ==> forall|i: int|
                0 <= i < self@.lifecycle.responses().len()
                    ==> self@.lifecycle.responses()[i].id != response_id,
    {
        let responses = match self.responses_ref() {
            Some(v) => v,
            None => {
                return None;
            },
        };
        let mut k: usize = 0;
        while k < responses.len()
            invariant
                k <= responses@.len(),
                responses.deep_view() == self@.lifecycle.responses(),
                forall|i: int| 0 <= i < k ==> responses.deep_view()[i].id != response_id,
            decreases responses@.len() - k,
        {
            if responses[k].id == response_id {
                proof {
                    let dv = responses.deep_view();
                    assert(self@.lifecycle.responses()[k as int] == dv[k as int]);
                }
                return Some(&responses[k]);
            }
            k = k + 1;
        }
        None
    }

    /// Applies `request` to the response with identifier `response_id`, in
    /// whatever phase the ping is in, and returns a copy of the updated
    /// response; `None` when no such response exists. Every other response
    /// and every other ping field is untouched.
    pub fn apply_response_update(&mut self, response_id: Id, request: UpdateResponseRequest) -> (r:
        Option<Response>)
        ensures
            final(self)@.id == old(self)@.id,
            final(self)@.initiator == old(self)@.initiator,
            final(self)@.group == old(self)@.group,
            final(self)@.activity_type == old(self)@.activity_type,
            final(self)@.rough_timing == old(self)@.rough_timing,
            final(self)@.vibe == old(self)@.vibe,
            final(self)@.created_at == old(self)@.created_at,
            final(self)@.lifecycle.state() == old(self)@.lifecycle.state(),
            final(self)@.lifecycle.hangout() == old(self)@.lifecycle.hangout(),
            final(self)@.lifecycle.match_results() == old(self)@.lifecycle.match_results(),
            r is None ==> final(self)@.lifecycle == old(self)@.lifecycle && forall|i: int|
                0 <= i < old(self)@.lifecycle.responses().len()
                    ==> old(self)@.lifecycle.responses()[i].id != response_id,
            r matches Some(resp) ==> exists|j: int|
                {
                    &&& 0 <= j < old(self)@.lifecycle.responses().len()
                    &&& old(self)@.lifecycle.responses()[j].id == response_id
                    &&& response_updated(
                        old(self)@.lifecycle.responses()[j],
                        request@,
                        resp@,
                    )
                    &&& final(self)@.lifecycle.responses() == old(
                        self,
                    )@.lifecycle.responses().update(j, resp@)
                },
    {
        let mut taken = PingLifecycle::PingSent;
        core::mem::swap(&mut taken, &mut self.lifecycle);
        match taken {
            PingLifecycle::PingSent => {
                self.lifecycle = PingLifecycle::PingSent;
                None
            },
            PingLifecycle::Gathering { mut responses } => {
                let r = update_response_in(&mut responses, response_id, request);
                self.lifecycle = PingLifecycle::Gathering { responses };
                r
            },
            PingLifecycle::Matching { mut responses, match_results } => {
                let r = update_response_in(&mut responses, response_id, request);
                self.lifecycle = PingLifecycle::Matching { responses, match_results };
                r
            },
            PingLifecycle::VenueConfirmed { mut responses, hangout } => {
                let r = update_response_in(&mut responses, response_id, request);
                self.lifecycle = PingLifecycle::VenueConfirmed { responses, hangout };
                r
            },
            PingLifecycle::ActiveHangout { mut responses, hangout } => {
                let r = update_response_in(&mut responses, response_id, request);
                self.lifecycle = PingLifecycle::ActiveHangout { responses, hangout };
                r
            },
            PingLifecycle::Complete { mut responses, hangout } => {
                let r = update_response_in(&mut responses, response_id, request);
                self.lifecycle = PingLifecycle::Complete { responses, hangout };
                r
            },
            PingLifecycle::Cancelled { mut responses } => {
                let r = update_response_in(&mut responses, response_id, request);
                self.lifecycle = PingLifecycle::Cancelled { responses };
                r
            },
            PingLifecycle::NoMatch { mut responses } => {
                let r = update_response_in(&mut responses, response_id, request);
                self.lifecycle = PingLifecycle::NoMatch { responses };
                r
            },
        }
    }

    /// Records a new status for `user_id` in the embedded hangout data, if
    /// this phase carries any; returns whether it did. Everything else is
    /// untouched.
    pub fn update_attendee_status(&mut self, user_id: Id, status: AttendeeStatus) -> (r: bool)
        ensures
            final(self)@.id == old(self)@.id,
            final(self)@.initiator == old(self)@.initiator,
            final(self)@.group == old(self)@.group,
            final(self)@.activity_type == old(self)@.activity_type,
            final(self)@.rough_timing == old(self)@.rough_timing,
            final(self)@.vibe == old(self)@.vibe,
            final(self)@.created_at == old(self)@.created_at,
            final(self)@.lifecycle.state() == old(self)@.lifecycle.state(),
            final(self)@.lifecycle.responses() == old(self)@.lifecycle.responses(),
            final(self)@.lifecycle.match_results() == old(self)@.lifecycle.match_results(),
            r == (old(self)@.lifecycle.hangout() is Some),
            !r ==> final(self)@.lifecycle == old(self)@.lifecycle,
            r ==> {
                let pre = old(self)@.lifecycle.hangout()->0;
                let post = final(self)@.lifecycle.hangout()->0;
                &&& post.confirmed_attendees == pre.confirmed_attendees
                &&& post.timeline == pre.timeline
                &&& (unique_keys(pre.attendee_statuses) ==> {
                    &&& unique_keys(post.attendee_statuses)
                    &&& status_of(post.attendee_statuses, user_id) == Some(status)
                    &&& forall|u: Id|
                        u != user_id ==> status_of(post.attendee_statuses, u) == status_of(
                            pre.attendee_statuses,
                            u,
                        )
                })
            },
    {
        let mut taken = PingLifecycle::PingSent;
        core::mem::swap(&mut taken, &mut self.lifecycle);
        match taken {
            PingLifecycle::VenueConfirmed { responses, mut hangout } => {
                hangout.update_attendee_status(user_id, status);
                self.lifecycle = PingLifecycle::VenueConfirmed { responses, hangout };
                true
            },
            PingLifecycle::ActiveHangout { responses, mut hangout } => {
                hangout.update_attendee_status(user_id, status);
                self.lifecycle = PingLifecycle::ActiveHangout { responses, hangout };
                true
            },
            PingLifecycle::Complete { responses, mut hangout } => {
                hangout.update_attendee_status(user_id, status);
                self.lifecycle = PingLifecycle::Complete { responses, hangout };
                true
            },
            other => {
                self.lifecycle = other;
                false
            },
        }
    }
}

/// Applies `request` to the first response with identifier `response_id` in
/// `v`, returning a copy of the updated response.
fn update_response_in(v: &mut Vec<Response>, response_id: Id, request: UpdateResponseRequest) -> (r:
    Option<Response>)
    ensures
        r is None ==> final(v).deep_view() == old(v).deep_view() && forall|i: int|
            0 <= i < old(v).deep_view().len() ==> old(v).deep_view()[i].id != response_id,
        r matches Some(resp) ==> exists|j: int|
            {
                &&& 0 <= j < old(v).deep_view().len()
                &&& old(v).deep_view()[j].id == response_id
                &&& response_updated(old(v).deep_view()[j], request@, resp@)
                &&& final(v).deep_view() == old(v).deep_view().update(j, resp@)
            },
{
    let ghost orig = v.deep_view();
    let mut k: usize = 0;
    while k < v.len()
        invariant
            orig == old(v).deep_view(),
            v.deep_view() == orig,
            k <= orig.len(),
            forall|i: int| 0 <= i < k ==> orig[i].id != response_id,
        decreases orig.len() - k,
    {
        if v[k].id == response_id {
            let mut resp = v[k].clone();
            resp.update(request);
            let out = resp.clone();
            let ghost res_view = resp@;
            let ghost pre = v@;
            v.set(k, resp);
            proof {
                assert forall|j: int| 0 <= j < v.deep_view().len() implies v.deep_view()[j]
                    == orig.update(k as int, res_view)[j] by {
                    if j != k {
                        assert(v@[j] == pre[j]);
                        assert(pre[j].deep_view() == orig[j]);
                    }
                }
                assert(v.deep_view() =~= orig.update(k as int, res_view));
            }
            return Some(out);
        }
        k = k + 1;
    }
    None
}

} // verus!
