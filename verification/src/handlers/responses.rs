//! Response handling: one answer per member per ping, created while the ping
//! gathers and updatable only by its owner.

use vstd::prelude::*;

use crate::ids::Id;
use crate::models::error::AppError;
use crate::models::response::{CreateResponseRequest, Response, UpdateResponseRequest};
use crate::models::ping::Ping;
use crate::state::AppState;
use crate::state_machine::StateMachine;

verus! {

/// Records a member's answer to a ping. The ping must accept responses, the
/// user must not have answered before (judged on the loaded copy), and must
/// belong to the ping's group.
pub fn create_response(state: &AppState, ping_id: Id, request: CreateResponseRequest) -> (r:
    Result<Response, AppError>)
    requires
        state.wf(),
    ensures
        r matches Err(e) ==> e is BadRequest || e is NotFound || e is Conflict || e is Forbidden,
        (r matches Err(e) && e is BadRequest) <==> !(request.distance_ok()
            && request.availability_ok()),
        r matches Ok(resp) ==> {
            &&& resp.user == request.user
            &&& resp.answer == request.answer
            &&& resp.availability == request.availability
        },
{
    match request.validate_preferences() {
        Ok(()) => {},
        Err(e) => {
            return Err(e);
        },
    }
    let ping = match state.pings.get(ping_id) {
        Some(p) => p,
        None => {
            return Err(AppError::NotFound("Ping".to_owned()));
        },
    };
    match StateMachine::can_add_response(&ping) {
        Ok(()) => {},
        Err(e) => {
            return Err(e);
        },
    }
    if ping.has_user_responded(request.user) {
        return Err(AppError::Conflict("User has already responded to this ping".to_owned()));
    }
    let group = match state.groups.get(ping.group) {
        Some(g) => g,
        None => {
            return Err(AppError::NotFound("Group".to_owned()));
        },
    };
    if !group.is_member(request.user) {
        return Err(AppError::Forbidden("User is not a member of the group".to_owned()));
    }
    let response = Response::new(request);
    let copy = response.clone();
    let ghost resp_view = response@;
    let mutator = |p: Ping| -> (q: Ping)
        ensures
            p@.lifecycle.can_add_response() ==> q@.lifecycle.responses() == p
                @.lifecycle.responses().push(resp_view),
        {
            let mut q = p;
            q.add_response(response);
            q
        };
    state.pings.update(ping_id, mutator);
    Ok(copy)
}

/// Applies a partial update to an existing response: the ping must still
/// accept response changes, and only the response's owner may change it.
pub fn update_response(
    state: &AppState,
    ping_id: Id,
    response_id: Id,
    request: UpdateResponseRequest,
) -> (r: Result<Response, AppError>)
    requires
        state.wf(),
    ensures
        r matches Err(e) ==> e is NotFound || e is Conflict || e is Forbidden,
        r matches Ok(resp) ==> resp.id == response_id,
{
    let ping = match state.pings.get(ping_id) {
        Some(p) => p,
        None => {
            return Err(AppError::NotFound("Ping".to_owned()));
        },
    };
    match StateMachine::can_add_response(&ping) {
        Ok(()) => {},
        Err(e) => {
            return Err(e);
        },
    }
    let owner_ok = match ping.find_response_by_id(response_id) {
        Some(existing) => existing.user == request.user,
        None => {
            return Err(AppError::NotFound("Response".to_owned()));
        },
    };
    if !owner_ok {
        return Err(AppError::Forbidden("User can only update their own response".to_owned()));
    }
    let mutator = |p: Ping| -> (q: Ping)
        ensures
            q@.lifecycle.state() == p@.lifecycle.state(),
        {
            let mut q = p;
            q.apply_response_update(response_id, request);
            q
        };
    let updated_ping = match state.pings.update(ping_id, mutator) {
        Some(p) => p,
        None => {
            return Err(AppError::NotFound("Ping".to_owned()));
        },
    };
    match updated_ping.find_response_by_id(response_id) {
        Some(resp) => Ok(resp.clone()),
        None => Err(AppError::NotFound("Response".to_owned())),
    }
}

} // verus!
