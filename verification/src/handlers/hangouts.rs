//! Hangout entity operations, and the cross-collection sync that propagates a
//! hangout's progress into the owning ping's lifecycle.

use vstd::prelude::*;

use crate::ids::Id;
use crate::models::error::AppError;
use crate::models::hangout::{
    status_of, unique_keys, Hangout, HangoutStatus, UpdateAttendeeStatusRequest,
};
use crate::models::ping::Ping;
use crate::state::AppState;
use crate::state_machine::StateMachine;

verus! {

/// A copy of the hangout with identifier `id` from the observed table.
pub fn get_hangout(state: &AppState, id: Id) -> (r: Result<Hangout, AppError>)
    requires
        state.wf(),
    ensures
        r matches Err(e) ==> e is NotFound,
{
    match state.hangouts.get(id) {
        Some(hangout) => Ok(hangout),
        None => Err(AppError::NotFound("Hangout".to_owned())),
    }
}

/// Starts the hangout entity (legal only while confirmed, judged on the
/// loaded copy) and propagates the change into the owning ping.
pub fn activate_hangout(state: &AppState, id: Id) -> (r: Result<Hangout, AppError>)
    requires
        state.wf(),
    ensures
        r matches Err(e) ==> e is NotFound || e is Conflict,
        r matches Ok(h) ==> h@.status == HangoutStatus::Active,
{
    let hangout = match state.hangouts.get(id) {
        Some(h) => h,
        None => {
            return Err(AppError::NotFound("Hangout".to_owned()));
        },
    };
    match StateMachine::can_activate_hangout(&hangout) {
        Ok(()) => {},
        Err(e) => {
            return Err(e);
        },
    }
    let mutator = |h: Hangout| -> (q: Hangout)
        ensures
            q@.status == HangoutStatus::Active,
        {
            let mut q = h;
            q.activate();
            q
        };
    let updated = match state.hangouts.update(id, mutator) {
        Some(h) => h,
        None => {
            return Err(AppError::NotFound("Hangout".to_owned()));
        },
    };
    sync_ping_state_from_hangout(state, &updated);
    Ok(updated)
}

/// Finishes the hangout entity (legal only while active, judged on the loaded
/// copy) and propagates the change into the owning ping.
pub fn complete_hangout(state: &AppState, id: Id) -> (r: Result<Hangout, AppError>)
    requires
        state.wf(),
    ensures
        r matches Err(e) ==> e is NotFound || e is Conflict,
        r matches Ok(h) ==> h@.status == HangoutStatus::Complete,
{
    let hangout = match state.hangouts.get(id) {
        Some(h) => h,
        None => {
            return Err(AppError::NotFound("Hangout".to_owned()));
        },
    };
    match StateMachine::can_complete_hangout(&hangout) {
        Ok(()) => {},
        Err(e) => {
            return Err(e);
        },
    }
    let mutator = |h: Hangout| -> (q: Hangout)
        ensures
            q@.status == HangoutStatus::Complete,
        {
            let mut q = h;
            q.complete();
            q
        };
    let updated = match state.hangouts.update(id, mutator) {
        Some(h) => h,
        None => {
            return Err(AppError::NotFound("Hangout".to_owned()));
        },
    };
    sync_ping_state_from_hangout(state, &updated);
    Ok(updated)
}

/// Records a new status for one attendee of the hangout entity; the loaded
/// copy must list the user as an attendee.
pub fn update_attendee_status(
    state: &AppState,
    hangout_id: Id,
    user_id: Id,
    request: UpdateAttendeeStatusRequest,
) -> (r: Result<Hangout, AppError>)
    requires
        state.wf(),
    ensures
        r matches Err(e) ==> e is NotFound,
{
    let hangout = match state.hangouts.get(hangout_id) {
        Some(h) => h,
        None => {
            return Err(AppError::NotFound("Hangout".to_owned()));
        },
    };
    if !hangout.is_attendee(user_id) {
        return Err(AppError::NotFound("Attendee".to_owned()));
    }
    let status = request.status;
    let mutator = |h: Hangout| -> (q: Hangout)
        ensures
            unique_keys(h@.attendee_statuses) ==> status_of(q@.attendee_statuses, user_id)
                == Some(status),
        {
            let mut q = h;
            q.update_attendee_status(user_id, status);
            q
        };
    match state.hangouts.update(hangout_id, mutator) {
        Some(updated) => Ok(updated),
        None => Err(AppError::NotFound("Hangout".to_owned())),
    }
}

/// Propagates a hangout's progress into the owning ping's lifecycle: an
/// active hangout activates the ping, a complete one completes it. This is a
/// cross-collection operation with explicit ordering — the hangout was
/// already updated, the ping follows — and is deliberately not atomic: a
/// concurrent reader of the ping may observe the older lifecycle after the
/// hangout has advanced.
pub fn sync_ping_state_from_hangout(state: &AppState, hangout: &Hangout)
    requires
        state.wf(),
{
    match hangout.status {
        HangoutStatus::Active => {
            let mutator = |p: Ping| -> (q: Ping)
                ensures
                    !(q@.lifecycle is VenueConfirmed),
                {
                    let mut q = p;
                    StateMachine::transition_to_active(&mut q);
                    q
                };
            state.pings.update(hangout.ping, mutator);
        },
        HangoutStatus::Complete => {
            let mutator = |p: Ping| -> (q: Ping)
                ensures
                    !(q@.lifecycle is ActiveHangout),
                {
                    let mut q = p;
                    StateMachine::transition_to_complete(&mut q);
                    q
                };
            state.pings.update(hangout.ping, mutator);
        },
        HangoutStatus::Confirmed => {},
    }
}

} // verus!
