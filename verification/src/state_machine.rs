//! The lifecycle state machine: guards decide which transitions are legal for
//! which caller, transitions perform them with the correct data carry-over.
//!
//! Guards are pure and never mutate; every violation surfaces as a typed
//! error. Authorization is checked before state, so a non-initiator always
//! gets `Forbidden` whatever the current phase. Transitions assume their guard
//! already passed and leave the ping unchanged when the phase does not match.

use vstd::prelude::*;
use vstd::string::StringExecFns;

use crate::ids::Id;
use crate::models::error::AppError;
use crate::models::hangout::{
    all_pending_for, unique_keys, Hangout, HangoutData, HangoutStatus, MatchResults, Timeline,
};
use crate::models::ping::{LifecycleView, Ping, PingLifecycle, PingView};
use crate::models::response::{Response, ResponseView};

verus! {

/// Everything of a ping except its lifecycle is untouched by a transition.
pub open spec fn same_ping_except_lifecycle(pre: PingView, post: PingView) -> bool {
    &&& post.id == pre.id
    &&& post.initiator == pre.initiator
    &&& post.group == pre.group
    &&& post.activity_type == pre.activity_type
    &&& post.rough_timing == pre.rough_timing
    &&& post.vibe == pre.vibe
    &&& post.created_at == pre.created_at
}

/// Guards and transitions over the ping lifecycle.
pub struct StateMachine;

impl StateMachine {
    /// A response may be added only while freshly sent or gathering.
    pub fn can_add_response(ping: &Ping) -> (r: Result<(), AppError>)
        ensures
            r is Ok <==> ping@.lifecycle.can_add_response(),
            r matches Err(e) ==> e is Conflict,
    {
        if !ping.lifecycle.can_add_response() {
            return Err(AppError::Conflict(conflict_message("Cannot add response", &ping.lifecycle)));
        }
        Ok(())
    }

    /// Matching may be triggered only by the initiator, and only while
    /// gathering; a non-initiator is refused before the phase is looked at.
    pub fn can_trigger_match(ping: &Ping, user_id: Id) -> (r: Result<(), AppError>)
        ensures
            r is Ok <==> (user_id == ping.initiator && ping@.lifecycle.can_trigger_match()),
            (r matches Err(e) && e is Forbidden) <==> user_id != ping.initiator,
            (r matches Err(e) && e is Conflict) <==> (user_id == ping.initiator
                && !ping@.lifecycle.can_trigger_match()),
    {
        if ping.initiator != user_id {
            return Err(AppError::Forbidden("Only initiator can trigger matching".to_owned()));
        }
        if !ping.lifecycle.can_trigger_match() {
            return Err(AppError::Conflict(conflict_message("Cannot trigger match", &ping.lifecycle)));
        }
        Ok(())
    }

    /// A venue may be confirmed only in the matching phase.
    pub fn can_confirm(ping: &Ping) -> (r: Result<(), AppError>)
        ensures
            r is Ok <==> ping@.lifecycle.can_confirm(),
            r matches Err(e) ==> e is Conflict,
    {
        if !ping.lifecycle.can_confirm() {
            return Err(AppError::Conflict(conflict_message("Cannot confirm", &ping.lifecycle)));
        }
        Ok(())
    }

    /// The hangout may start only once the venue is confirmed.
    pub fn can_activate(ping: &Ping) -> (r: Result<(), AppError>)
        ensures
            r is Ok <==> ping@.lifecycle.can_activate(),
            r matches Err(e) ==> e is Conflict,
    {
        if !ping.lifecycle.can_activate() {
            return Err(AppError::Conflict(conflict_message("Cannot activate", &ping.lifecycle)));
        }
        Ok(())
    }

    /// The hangout may finish only while it is active.
    pub fn can_complete(ping: &Ping) -> (r: Result<(), AppError>)
        ensures
            r is Ok <==> ping@.lifecycle.can_complete(),
            r matches Err(e) ==> e is Conflict,
    {
        if !ping.lifecycle.can_complete() {
            return Err(AppError::Conflict(conflict_message("Cannot complete", &ping.lifecycle)));
        }
        Ok(())
    }

    /// Cancelling is legal only for the initiator and only from a
    /// non-terminal phase: a non-initiator gets `Forbidden` even when the
    /// phase would otherwise allow it, and the initiator gets `Conflict` in a
    /// terminal phase.
    pub fn can_cancel(ping: &Ping, user_id: Id) -> (r: Result<(), AppError>)
        ensures
            r is Ok <==> (user_id == ping.initiator && ping@.lifecycle.can_cancel()),
            (r matches Err(e) && e is Forbidden) <==> user_id != ping.initiator,
            (r matches Err(e) && e is Conflict) <==> (user_id == ping.initiator
                && !ping@.lifecycle.can_cancel()),
    {
        if ping.initiator != user_id {
            return Err(AppError::Forbidden("Only initiator can cancel ping".to_owned()));
        }
        if !ping.lifecycle.can_cancel() {
            return Err(AppError::Conflict(conflict_message("Cannot cancel", &ping.lifecycle)));
        }
        Ok(())
    }

    /// A hangout entity may be activated only while confirmed.
    pub fn can_activate_hangout(hangout: &Hangout) -> (r: Result<(), AppError>)
        ensures
            r is Ok <==> hangout@.status == HangoutStatus::Confirmed,
            r matches Err(e) ==> e is Conflict,
    {
        match hangout.status {
            HangoutStatus::Confirmed => Ok(()),
            _ => Err(AppError::Conflict("Hangout is not in confirmed state".to_owned())),
        }
    }

    /// A hangout entity may be completed only while active.
    pub fn can_complete_hangout(hangout: &Hangout) -> (r: Result<(), AppError>)
        ensures
            r is Ok <==> hangout@.status == HangoutStatus::Active,
            r matches Err(e) ==> e is Conflict,
    {
        match hangout.status {
            HangoutStatus::Active => Ok(()),
            _ => Err(AppError::Conflict("Hangout is not in active state".to_owned())),
        }
    }

    /// The one-shot fork out of gathering: with a match the ping moves to
    /// `Matching` carrying the same responses plus the results; without one it
    /// moves to the terminal `NoMatch`, still carrying the same responses.
    /// In any other phase the ping is unchanged.
    pub fn transition_to_matching(ping: &mut Ping, match_results: MatchResults)
        ensures
            same_ping_except_lifecycle(old(ping)@, final(ping)@),
            (old(ping)@.lifecycle is Gathering && match_results.has_match) ==> final(ping)@.lifecycle == (LifecycleView::Matching {
                responses: old(ping)@.lifecycle.responses(),
                match_results,
            }),
            (old(ping)@.lifecycle is Gathering && !match_results.has_match) ==> final(ping)@.lifecycle == (LifecycleView::NoMatch {
                responses: old(ping)@.lifecycle.responses(),
            }),
            !(old(ping)@.lifecycle is Gathering) ==> final(ping)@.lifecycle == old(ping)@.lifecycle,
    {
        let mut taken = PingLifecycle::PingSent;
        core::mem::swap(&mut taken, &mut ping.lifecycle);
        match taken {
            PingLifecycle::Gathering { responses } => {
                if match_results.has_match {
                    ping.lifecycle = PingLifecycle::Matching { responses, match_results };
                } else {
                    ping.lifecycle = PingLifecycle::NoMatch { responses };
                }
            },
            other => {
                ping.lifecycle = other;
            },
        }
    }

    /// Matching to venue-confirmed, embedding the hangout data the caller
    /// computed from the current positive responses. In any other phase the
    /// ping is unchanged and the hangout data is discarded.
    pub fn transition_to_venue_confirmed(ping: &mut Ping, hangout: HangoutData)
        ensures
            same_ping_except_lifecycle(old(ping)@, final(ping)@),
            old(ping)@.lifecycle is Matching ==> final(ping)@.lifecycle
                == (LifecycleView::VenueConfirmed {
                responses: old(ping)@.lifecycle.responses(),
                hangout: hangout@,
            }),
            !(old(ping)@.lifecycle is Matching) ==> final(ping)@.lifecycle == old(ping)@.lifecycle,
    {
        let mut taken = PingLifecycle::PingSent;
        core::mem::swap(&mut taken, &mut ping.lifecycle);
        match taken {
            PingLifecycle::Matching { responses, .. } => {
                ping.lifecycle = PingLifecycle::VenueConfirmed { responses, hangout };
            },
            other => {
                ping.lifecycle = other;
            },
        }
    }

    /// Venue-confirmed to active, carrying responses and hangout forward
    /// unchanged. In any other phase the ping is unchanged.
    pub fn transition_to_active(ping: &mut Ping)
        ensures
            same_ping_except_lifecycle(old(ping)@, final(ping)@),
            old(ping)@.lifecycle is VenueConfirmed ==> final(ping)@.lifecycle
                == (LifecycleView::ActiveHangout {
                responses: old(ping)@.lifecycle.responses(),
                hangout: old(ping)@.lifecycle.hangout()->0,
            }),
            !(old(ping)@.lifecycle is VenueConfirmed) ==> final(ping)@.lifecycle == old(ping)@.lifecycle,
    {
        let mut taken = PingLifecycle::PingSent;
        core::mem::swap(&mut taken, &mut ping.lifecycle);
        match taken {
            PingLifecycle::VenueConfirmed { responses, hangout } => {
                ping.lifecycle = PingLifecycle::ActiveHangout { responses, hangout };
            },
            other => {
                ping.lifecycle = other;
            },
        }
    }

    /// Active to the terminal complete, carrying responses and hangout
    /// forward unchanged. In any other phase the ping is unchanged.
    pub fn transition_to_complete(ping: &mut Ping)
        ensures
            same_ping_except_lifecycle(old(ping)@, final(ping)@),
            old(ping)@.lifecycle is ActiveHangout ==> final(ping)@.lifecycle
                == (LifecycleView::Complete {
                responses: old(ping)@.lifecycle.responses(),
                hangout: old(ping)@.lifecycle.hangout()->0,
            }),
            !(old(ping)@.lifecycle is ActiveHangout) ==> final(ping)@.lifecycle == old(ping)@.lifecycle,
    {
        let mut taken = PingLifecycle::PingSent;
        core::mem::swap(&mut taken, &mut ping.lifecycle);
        match taken {
            PingLifecycle::ActiveHangout { responses, hangout } => {
                ping.lifecycle = PingLifecycle::Complete { responses, hangout };
            },
            other => {
                ping.lifecycle = other;
            },
        }
    }

    /// Any phase to the terminal cancelled, keeping only the accumulated
    /// responses; match results and hangout data, if any, are discarded.
    pub fn transition_to_cancelled(ping: &mut Ping)
        ensures
            same_ping_except_lifecycle(old(ping)@, final(ping)@),
            final(ping)@.lifecycle == (LifecycleView::Cancelled {
                responses: old(ping)@.lifecycle.responses(),
            }),
    {
        let mut taken = PingLifecycle::PingSent;
        core::mem::swap(&mut taken, &mut ping.lifecycle);
        match taken {
            PingLifecycle::PingSent => {
                let responses: Vec<Response> = Vec::new();
                proof {
                    assert(responses.deep_view() =~= Seq::<ResponseView>::empty());
                }
                ping.lifecycle = PingLifecycle::Cancelled { responses };
            },
            PingLifecycle::Gathering { responses } => {
                ping.lifecycle = PingLifecycle::Cancelled { responses };
            },
            PingLifecycle::Matching { responses, .. } => {
                ping.lifecycle = PingLifecycle::Cancelled { responses };
            },
            PingLifecycle::VenueConfirmed { responses, .. } => {
                ping.lifecycle = PingLifecycle::Cancelled { responses };
            },
            PingLifecycle::ActiveHangout { responses, .. } => {
                ping.lifecycle = PingLifecycle::Cancelled { responses };
            },
            PingLifecycle::Complete { responses, .. } => {
                ping.lifecycle = PingLifecycle::Cancelled { responses };
            },
            PingLifecycle::Cancelled { responses } => {
                ping.lifecycle = PingLifecycle::Cancelled { responses };
            },
            PingLifecycle::NoMatch { responses } => {
                ping.lifecycle = PingLifecycle::Cancelled { responses };
            },
        }
    }

    /// Freezes the attendee set from the ping's current positive responses
    /// and defaults every attendee's status to `Pending` over the caller's
    /// timeline.
    pub fn create_hangout_data(ping: &Ping, timeline: Timeline) -> (r: HangoutData)
        ensures
            r@.confirmed_attendees == ping@.lifecycle.responses().filter(
                |resp: ResponseView| resp.answer,
            ).map_values(|resp: ResponseView| resp.user),
            r@.timeline == timeline,
            all_pending_for(r@.confirmed_attendees, r@.attendee_statuses),
            unique_keys(r@.attendee_statuses),
    {
        let positive = ping.positive_responses();
        let mut attendees: Vec<Id> = Vec::new();
        let mut k: usize = 0;
        while k < positive.len()
            invariant
                k <= positive@.len(),
                attendees@.len() == k,
                forall|j: int| 0 <= j < k ==> #[trigger] attendees@[j] == positive.deep_view()[j].user,
            decreases positive@.len() - k,
        {
            attendees.push(positive[k].user);
            k = k + 1;
        }
        proof {
            assert(attendees@ =~= positive.deep_view().map_values(
                |resp: ResponseView| resp.user,
            ));
        }
        HangoutData::new(attendees, timeline)
    }
}

/// Builds "<action> when ping is in <state> state" without allocing more than
/// needed.
fn conflict_message(action: &str, lifecycle: &PingLifecycle) -> (r: String)
    ensures
        r@ == action@ + " when ping is in "@ + state_name_seq(lifecycle@) + " state"@,
{
    let name = lifecycle.state_name();
    proof {
        assert(name@ == state_name_seq(lifecycle@));
    }
    action.to_owned().concat(" when ping is in ").concat(name).concat(" state")
}

/// The wire name of a lifecycle phase.
pub open spec fn state_name_seq(l: LifecycleView) -> Seq<char> {
    match l {
        LifecycleView::PingSent => "ping_sent"@,
        LifecycleView::Gathering { .. } => "gathering"@,
        LifecycleView::Matching { .. } => "matching"@,
        LifecycleView::VenueConfirmed { .. } => "venue_confirmed"@,
        LifecycleView::ActiveHangout { .. } => "active_hangout"@,
        LifecycleView::Complete { .. } => "complete"@,
        LifecycleView::Cancelled { .. } => "cancelled"@,
        LifecycleView::NoMatch { .. } => "no_match"@,
    }
}

} // verus!
