//! Ping lifecycle operations: creation, lookup, the guarded transitions, and
//! attendee status updates on the embedded hangout data.

use vstd::prelude::*;

use crate::ids::Id;
use crate::matching::MatchingEngine;
use crate::models::error::AppError;
use crate::models::hangout::{
    status_of, unique_keys, ConfirmHangoutRequest, MatchResults, UpdateAttendeeStatusRequest,
};
use crate::models::ping::{
    CancelPingRequest, CreatePingRequest, LifecycleView, Ping, TriggerMatchRequest,
};
use crate::state::AppState;
use crate::state_machine::StateMachine;

verus! {

/// Creates a ping in the `PingSent` phase; the initiator must belong to the
/// target group.
pub fn create_ping(state: &AppState, request: CreatePingRequest) -> (r: Result<Ping, AppError>)
    requires
        state.wf(),
    ensures
        r matches Err(e) ==> e is Validation || e is NotFound || e is Forbidden,
        (r matches Err(e) && e is Validation) <==> !request.valid(),
        r matches Ok(p) ==> {
            &&& p@.lifecycle is PingSent
            &&& p.initiator == request.initiator
            &&& p.group == request.group
            &&& p@.activity_type == request.activity_type@
            &&& p@.rough_timing == request.rough_timing@
        },
{
    match request.validate() {
        Ok(()) => {},
        Err(e) => {
            return Err(e);
        },
    }
    let group = match state.groups.get(request.group) {
        Some(g) => g,
        None => {
            return Err(AppError::NotFound("Group".to_owned()));
        },
    };
    if !group.is_member(request.initiator) {
        return Err(AppError::Forbidden("User is not a member of the group".to_owned()));
    }
    let ping = Ping::new(request);
    let copy = ping.clone();
    state.pings.insert(ping.id, ping);
    Ok(copy)
}

/// A copy of the ping with identifier `id` from the observed table.
pub fn get_ping(state: &AppState, id: Id) -> (r: Result<Ping, AppError>)
    requires
        state.wf(),
    ensures
        r matches Err(e) ==> e is NotFound,
{
    match state.pings.get(id) {
        Some(ping) => Ok(ping),
        None => Err(AppError::NotFound("Ping".to_owned())),
    }
}

/// Cancels the ping: legal only for the initiator and only from a
/// non-terminal phase, as judged on the loaded copy.
pub fn cancel_ping(state: &AppState, id: Id, request: CancelPingRequest) -> (r: Result<
    Ping,
    AppError,
>)
    requires
        state.wf(),
    ensures
        r matches Err(e) ==> e is NotFound || e is Forbidden || e is Conflict,
        r matches Ok(p) ==> p@.lifecycle is Cancelled,
{
    let ping = match state.pings.get(id) {
        Some(p) => p,
        None => {
            return Err(AppError::NotFound("Ping".to_owned()));
        },
    };
    match StateMachine::can_cancel(&ping, request.user_id) {
        Ok(()) => {},
        Err(e) => {
            return Err(e);
        },
    }
    let mutator = |p: Ping| -> (q: Ping)
        ensures
            q@.lifecycle is Cancelled,
        {
            let mut q = p;
            StateMachine::transition_to_cancelled(&mut q);
            q
        };
    match state.pings.update(id, mutator) {
        Some(updated) => Ok(updated),
        None => Err(AppError::NotFound("Ping".to_owned())),
    }
}

/// Runs the matching engine over the loaded copy's responses and performs the
/// one-shot fork out of gathering; legal only for the initiator while
/// gathering.
pub fn trigger_match(state: &AppState, id: Id, request: TriggerMatchRequest) -> (r: Result<
    Ping,
    AppError,
>)
    requires
        state.wf(),
    ensures
        r matches Err(e) ==> e is NotFound || e is Forbidden || e is Conflict,
        r matches Ok(p) ==> !(p@.lifecycle is Gathering),
{
    let ping = match state.pings.get(id) {
        Some(p) => p,
        None => {
            return Err(AppError::NotFound("Ping".to_owned()));
        },
    };
    match StateMachine::can_trigger_match(&ping, request.user_id) {
        Ok(()) => {},
        Err(e) => {
            return Err(e);
        },
    }
    let match_results = MatchingEngine::calculate_match(&ping);
    let mutator = |p: Ping| -> (q: Ping)
        ensures
            (p@.lifecycle is Gathering && match_results.has_match) ==> q@.lifecycle
                == (LifecycleView::Matching {
                responses: p@.lifecycle.responses(),
                match_results,
            }),
            (p@.lifecycle is Gathering && !match_results.has_match) ==> q@.lifecycle
                == (LifecycleView::NoMatch { responses: p@.lifecycle.responses() }),
            !(q@.lifecycle is Gathering),
        {
            let mut q = p;
            StateMachine::transition_to_matching(&mut q, match_results);
            q
        };
    match state.pings.update(id, mutator) {
        Some(updated) => Ok(updated),
        None => Err(AppError::NotFound("Ping".to_owned())),
    }
}

/// The stored match results of the ping, or, where the lifecycle does not
/// carry any, the results of re-running the matching engine over the loaded
/// copy's responses. The loaded copy is not nameable across the lock, so the
/// tie between it and the result cannot stand in a contract here; the
/// recomputation itself is `calculate_match`, whose contract pins the result
/// exactly, and `lemma_matching_idempotent` says a recomputation over an
/// unchanged response list reproduces the stored result.
pub fn get_match_results(state: &AppState, id: Id) -> (r: Result<MatchResults, AppError>)
    requires
        state.wf(),
    ensures
        r matches Err(e) ==> e is NotFound,
{
    let ping = match state.pings.get(id) {
        Some(p) => p,
        None => {
            return Err(AppError::NotFound("Ping".to_owned()));
        },
    };
    match ping.lifecycle.match_results() {
        Some(mr) => Ok(*mr),
        None => Ok(MatchingEngine::calculate_match(&ping)),
    }
}

/// Confirms a venue: freezes the attendee set from the loaded copy's positive
/// responses under the organizer's timeline and moves the ping to
/// `VenueConfirmed`; legal only while matching.
pub fn confirm_hangout(state: &AppState, id: Id, request: ConfirmHangoutRequest) -> (r: Result<
    Ping,
    AppError,
>)
    requires
        state.wf(),
    ensures
        r matches Err(e) ==> e is NotFound || e is Conflict,
        r matches Ok(p) ==> !(p@.lifecycle is Matching),
{
    let ping = match state.pings.get(id) {
        Some(p) => p,
        None => {
            return Err(AppError::NotFound("Ping".to_owned()));
        },
    };
    match StateMachine::can_confirm(&ping) {
        Ok(()) => {},
        Err(e) => {
            return Err(e);
        },
    }
    let hangout_data = StateMachine::create_hangout_data(&ping, request.timeline);
    let ghost hd = hangout_data@;
    let mutator = |p: Ping| -> (q: Ping)
        ensures
            p@.lifecycle is Matching ==> q@.lifecycle == (LifecycleView::VenueConfirmed {
                responses: p@.lifecycle.responses(),
                hangout: hd,
            }),
            !(q@.lifecycle is Matching),
        {
            let mut q = p;
            StateMachine::transition_to_venue_confirmed(&mut q, hangout_data);
            q
        };
    match state.pings.update(id, mutator) {
        Some(updated) => Ok(updated),
        None => Err(AppError::NotFound("Ping".to_owned())),
    }
}

/// Starts the hangout: `VenueConfirmed` to `ActiveHangout`, carrying the
/// hangout data forward unchanged; legal only once the venue is confirmed.
pub fn activate_ping(state: &AppState, id: Id) -> (r: Result<Ping, AppError>)
    requires
        state.wf(),
    ensures
        r matches Err(e) ==> e is NotFound || e is Conflict,
        r matches Ok(p) ==> !(p@.lifecycle is VenueConfirmed),
{
    let ping = match state.pings.get(id) {
        Some(p) => p,
        None => {
            return Err(AppError::NotFound("Ping".to_owned()));
        },
    };
    match StateMachine::can_activate(&ping) {
        Ok(()) => {},
        Err(e) => {
            return Err(e);
        },
    }
    let mutator = |p: Ping| -> (q: Ping)
        ensures
            !(q@.lifecycle is VenueConfirmed),
        {
            let mut q = p;
            StateMachine::transition_to_active(&mut q);
            q
        };
    match state.pings.update(id, mutator) {
        Some(updated) => Ok(updated),
        None => Err(AppError::NotFound("Ping".to_owned())),
    }
}

/// Finishes the hangout: `ActiveHangout` to the terminal `Complete`, carrying
/// the hangout data forward unchanged; legal only while active.
pub fn complete_ping(state: &AppState, id: Id) -> (r: Result<Ping, AppError>)
    requires
        state.wf(),
    ensures
        r matches Err(e) ==> e is NotFound || e is Conflict,
        r matches Ok(p) ==> !(p@.lifecycle is ActiveHangout),
{
    let ping = match state.pings.get(id) {
        Some(p) => p,
        None => {
            return Err(AppError::NotFound("Ping".to_owned()));
        },
    };
    match StateMachine::can_complete(&ping) {
        Ok(()) => {},
        Err(e) => {
            return Err(e);
        },
    }
    let mutator = |p: Ping| -> (q: Ping)
        ensures
            !(q@.lifecycle is ActiveHangout),
        {
            let mut q = p;
            StateMachine::transition_to_complete(&mut q);
            q
        };
    match state.pings.update(id, mutator) {
        Some(updated) => Ok(updated),
        None => Err(AppError::NotFound("Ping".to_owned())),
    }
}

/// Records a new status for one attendee in the ping's embedded hangout data;
/// the loaded copy must carry hangout data and list the user as an attendee.
pub fn update_attendee_status(
    state: &AppState,
    ping_id: Id,
    user_id: Id,
    request: UpdateAttendeeStatusRequest,
) -> (r: Result<Ping, AppError>)
    requires
        state.wf(),
    ensures
        r matches Err(e) ==> e is NotFound || e is Conflict,
{
    let ping = match state.pings.get(ping_id) {
        Some(p) => p,
        None => {
            return Err(AppError::NotFound("Ping".to_owned()));
        },
    };
    let hangout = match ping.lifecycle.hangout() {
        Some(h) => h,
        None => {
            return Err(AppError::Conflict("Ping does not have an active hangout".to_owned()));
        },
    };
    if !hangout.is_attendee(user_id) {
        return Err(AppError::NotFound("Attendee".to_owned()));
    }
    let status = request.status;
    let mutator = |p: Ping| -> (q: Ping)
        ensures
            q@.lifecycle.hangout() is Some ==> ((p@.lifecycle.hangout() matches Some(h)
                && unique_keys(h.attendee_statuses)) ==> status_of(
                q@.lifecycle.hangout()->0.attendee_statuses,
                user_id,
            ) == Some(status)),
        {
            let mut q = p;
            q.update_attendee_status(user_id, status);
            q
        };
    match state.pings.update(ping_id, mutator) {
        Some(updated) => Ok(updated),
        None => Err(AppError::NotFound("Ping".to_owned())),
    }
}

} // verus!
