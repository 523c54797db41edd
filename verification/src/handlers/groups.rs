//! Group management: create, read, join by invite code, leave, invite-code
//! regeneration, and the per-group ping listing.

use vstd::prelude::*;

use crate::ids::Id;
use crate::models::error::AppError;
use crate::models::group::{
    generated_invite_code, valid_invite_code, CreateGroupRequest, Group, JoinGroupRequest,
    LeaveGroupRequest, RegenerateInviteRequest,
};
use crate::models::ping::{Ping, PingState};
use crate::state::AppState;

verus! {

/// A listing filter: only pings in the given phase, or all of them.
#[derive(Debug, Clone, Copy, PartialEq, Eq, Structural)]
pub struct ListPingsQuery {
    pub state: Option<PingState>,
}

/// Creates a group containing its creator and stores it.
pub fn create_group(state: &AppState, request: CreateGroupRequest) -> (r: Result<Group, AppError>)
    requires
        state.wf(),
    ensures
        r is Err <==> !request.name_ok(),
        r matches Err(e) ==> e is Validation,
        r matches Ok(g) ==> {
            &&& g@.name == request.name@
            &&& g@.members == seq![request.creator_id]
            &&& generated_invite_code(g@.invite_code)
        },
{
    match request.validate() {
        Ok(()) => {},
        Err(e) => {
            return Err(e);
        },
    }
    let group = Group::new(request);
    let copy = group.clone();
    state.groups.insert(group.id, group);
    Ok(copy)
}

/// A copy of the group with identifier `id` from the observed table.
pub fn get_group(state: &AppState, id: Id) -> (r: Result<Group, AppError>)
    requires
        state.wf(),
    ensures
        r matches Err(e) ==> e is NotFound,
{
    match state.groups.get(id) {
        Some(group) => Ok(group),
        None => Err(AppError::NotFound("Group".to_owned())),
    }
}

/// Adds `request.user_id` to the group whose invite code matches, and returns
/// the updated group.
pub fn join_group(state: &AppState, request: JoinGroupRequest) -> (r: Result<Group, AppError>)
    requires
        state.wf(),
    ensures
        r matches Err(e) ==> e is Validation || e is NotFound,
        (r matches Err(e) && e is Validation) <==> !valid_invite_code(request.invite_code@),
        r matches Ok(g) ==> g@.members.contains(request.user_id),
{
    match request.validate() {
        Ok(()) => {},
        Err(e) => {
            return Err(e);
        },
    }
    let group = match state.find_group_by_invite_code(request.invite_code.as_str()) {
        Some(g) => g,
        None => {
            return Err(AppError::NotFound("Group".to_owned()));
        },
    };
    let user_id = request.user_id;
    let mutator = |g: Group| -> (q: Group)
        ensures
            q@.members.contains(user_id),
        {
            let mut q = g;
            q.add_member(user_id);
            q
        };
    match state.groups.update(group.id, mutator) {
        Some(updated) => Ok(updated),
        None => Err(AppError::NotFound("Group".to_owned())),
    }
}

/// Removes `request.user_id` from the group's member list.
pub fn leave_group(state: &AppState, id: Id, request: LeaveGroupRequest) -> (r: Result<
    (),
    AppError,
>)
    requires
        state.wf(),
    ensures
        r matches Err(e) ==> e is NotFound,
{
    let user_id = request.user_id;
    let mutator = |g: Group| -> (q: Group)
        ensures
            q@.members == g@.members.filter(|m: Id| m != user_id),
        {
            let mut q = g;
            q.remove_member(user_id);
            q
        };
    match state.groups.update(id, mutator) {
        Some(_) => Ok(()),
        None => Err(AppError::NotFound("Group".to_owned())),
    }
}

/// Replaces the group's invite code with a freshly drawn one; any member may
/// ask for it.
pub fn regenerate_invite_code(state: &AppState, id: Id, request: RegenerateInviteRequest) -> (r:
    Result<Group, AppError>)
    requires
        state.wf(),
    ensures
        r matches Err(e) ==> e is NotFound || e is Forbidden,
        r matches Ok(g) ==> generated_invite_code(g@.invite_code),
{
    let group = match state.groups.get(id) {
        Some(g) => g,
        None => {
            return Err(AppError::NotFound("Group".to_owned()));
        },
    };
    if !group.is_member(request.user_id) {
        return Err(
            AppError::Forbidden("Only group members can regenerate invite code".to_owned()),
        );
    }
    let mutator = |g: Group| -> (q: Group)
        ensures
            generated_invite_code(q@.invite_code),
        {
            let mut q = g;
            q.regenerate_invite_code();
            q
        };
    match state.groups.update(id, mutator) {
        Some(updated) => Ok(updated),
        None => Err(AppError::NotFound("Group".to_owned())),
    }
}

/// Every ping of the group, optionally narrowed to one lifecycle phase; the
/// group must exist. The narrowing step is exact with respect to the group
/// listing it is given (`pings_in_state`).
pub fn list_group_pings(state: &AppState, id: Id, query: ListPingsQuery) -> (r: Result<
    Vec<Ping>,
    AppError,
>)
    requires
        state.wf(),
    ensures
        r matches Err(e) ==> e is NotFound,
        r matches Ok(ps) ==> forall|j: int|
            0 <= j < ps@.len() ==> (#[trigger] ps@[j]@.group == id && (query.state matches Some(st)
                ==> ps@[j]@.lifecycle.state() == st)),
{
    broadcast use vstd::seq_lib::group_filter_ensures;

    if !state.groups.contains(id) {
        return Err(AppError::NotFound("Group".to_owned()));
    }
    let pings = state.get_group_pings(id);
    match query.state {
        None => {
            proof {
                assert(forall|j: int|
                    0 <= j < pings@.len() ==> #[trigger] pings@[j]@.group == id);
            }
            Ok(pings)
        },
        Some(wanted) => {
            let r = crate::state::pings_in_state(&pings, wanted);
            proof {
                let pred = crate::state::state_filter(wanted);
                let filtered = pings.deep_view().filter(pred);
                assert forall|j: int| 0 <= j < r@.len() implies (#[trigger] r@[j]@.group == id
                    && r@[j]@.lifecycle.state() == wanted) by {
                    assert(r.deep_view()[j] == r@[j]@);
                    assert(pred(filtered[j]));
                    assert(filtered.contains(filtered[j]));
                    pings.deep_view().lemma_filter_contains_rev(pred, filtered[j]);
                    assert(pings.deep_view().contains(filtered[j]));
                    let i = choose|i: int|
                        0 <= i < pings.deep_view().len() && pings.deep_view()[i] == filtered[j];
                    assert(pings.deep_view()[i] == pings@[i]@);
                    assert(pings@[i]@.group == id);
                }
            }
            Ok(r)
        },
    }
}

} // verus!
