//! User management: create, read, update, delete, and group listing.

use vstd::prelude::*;

use crate::ids::Id;
use crate::models::error::AppError;
use crate::models::group::Group;
use crate::models::user::{name_length_ok, CreateUserRequest, UpdateUserRequest, User};
use crate::state::AppState;

verus! {

/// Creates a user from a validated request and stores it.
pub fn create_user(state: &AppState, request: CreateUserRequest) -> (r: Result<User, AppError>)
    requires
        state.wf(),
    ensures
        r is Err <==> !name_length_ok(request.name@),
        r matches Err(e) ==> e is Validation,
        r matches Ok(u) ==> u@.name == request.name@,
{
    match request.validate() {
        Ok(()) => {},
        Err(e) => {
            return Err(e);
        },
    }
    let user = User::new(request);
    let copy = user.clone();
    state.users.insert(user.id, user);
    Ok(copy)
}

/// A copy of the user with identifier `id` from the observed table.
pub fn get_user(state: &AppState, id: Id) -> (r: Result<User, AppError>)
    requires
        state.wf(),
    ensures
        r matches Err(e) ==> e is NotFound,
{
    match state.users.get(id) {
        Some(user) => Ok(user),
        None => Err(AppError::NotFound("User".to_owned())),
    }
}

/// Applies the present fields of `request` to the stored user and returns the
/// result.
pub fn update_user(state: &AppState, id: Id, request: UpdateUserRequest) -> (r: Result<
    User,
    AppError,
>)
    requires
        state.wf(),
    ensures
        r matches Err(e) ==> e is Validation || e is NotFound,
        (r matches Err(e) && e is Validation) <==> !(request.name matches Some(n)
            ==> name_length_ok(n@)),
        r matches Ok(u) ==> (request.name matches Some(n) ==> u@.name == n@),
{
    match request.validate() {
        Ok(()) => {},
        Err(e) => {
            return Err(e);
        },
    }
    let ghost req_name = request.name;
    let mutator = |u: User| -> (q: User)
        ensures
            (req_name matches Some(n) ==> q@.name == n@),
        {
            let mut q = u;
            q.update(request);
            q
        };
    match state.users.update(id, mutator) {
        Some(updated) => Ok(updated),
        None => Err(AppError::NotFound("User".to_owned())),
    }
}

/// Removes the user with identifier `id` from the observed table.
pub fn delete_user(state: &AppState, id: Id) -> (r: Result<(), AppError>)
    requires
        state.wf(),
    ensures
        r matches Err(e) ==> e is NotFound,
{
    match state.users.remove(id) {
        Some(_) => Ok(()),
        None => Err(AppError::NotFound("User".to_owned())),
    }
}

/// Every group of the observed table that `id` belongs to; the user must
/// exist.
pub fn list_user_groups(state: &AppState, id: Id) -> (r: Result<Vec<Group>, AppError>)
    requires
        state.wf(),
    ensures
        r matches Err(e) ==> e is NotFound,
        r matches Ok(gs) ==> forall|j: int|
            0 <= j < gs@.len() ==> #[trigger] gs@[j]@.members.contains(id),
{
    if !state.users.contains(id) {
        return Err(AppError::NotFound("User".to_owned()));
    }
    Ok(state.get_user_groups(id))
}

} // verus!
