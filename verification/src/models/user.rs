//! Users: identity plus display data and optional defaults for responses.

use vstd::prelude::*;
use vstd::string::StrSliceExecFns;

use crate::ids::{fresh_id, Id};
use crate::models::error::AppError;
use crate::models::ping::clone_opt_string;
use crate::models::response::clone_opt_string_vec;

verus! {

/// A point on the map, in microdegrees of latitude and longitude.
#[derive(Debug, Clone, Copy, PartialEq, Eq, Structural)]
pub struct Location {
    pub lat: i64,
    pub lng: i64,
}

/// A user's standing defaults. Distances are carried in meters.
#[derive(Debug)]
pub struct UserPreferences {
    pub default_distance: Option<i64>,
    pub favorite_areas: Option<Vec<String>>,
    pub home_location: Option<Location>,
}

/// The mathematical value of a `UserPreferences`.
pub struct UserPreferencesView {
    pub default_distance: Option<i64>,
    pub favorite_areas: Option<Seq<Seq<char>>>,
    pub home_location: Option<Location>,
}

impl View for UserPreferences {
    type V = UserPreferencesView;

    open spec fn view(&self) -> UserPreferencesView {
        UserPreferencesView {
            default_distance: self.default_distance,
            favorite_areas: match self.favorite_areas {
                Some(v) => Some(v.deep_view()),
                None => None,
            },
            home_location: self.home_location,
        }
    }
}

impl Clone for UserPreferences {
    fn clone(&self) -> (r: Self)
        ensures
            r@ == self@,
    {
        UserPreferences {
            default_distance: self.default_distance,
            favorite_areas: clone_opt_string_vec(&self.favorite_areas),
            home_location: self.home_location,
        }
    }
}

impl Default for UserPreferences {
    fn default() -> (r: Self)
        ensures
            r.default_distance is None,
            r.favorite_areas is None,
            r.home_location is None,
    {
        UserPreferences { default_distance: None, favorite_areas: None, home_location: None }
    }
}

/// A user of the system.
#[derive(Debug)]
pub struct User {
    pub id: Id,
    pub name: String,
    pub avatar: Option<String>,
    pub preferences: Option<UserPreferences>,
}

/// The mathematical value of a `User`.
pub struct UserView {
    pub id: Id,
    pub name: Seq<char>,
    pub avatar: Option<Seq<char>>,
    pub preferences: Option<UserPreferencesView>,
}

impl View for User {
    type V = UserView;

    open spec fn view(&self) -> UserView {
        UserView {
            id: self.id,
            name: self.name@,
            avatar: match self.avatar {
                Some(a) => Some(a@),
                None => None,
            },
            preferences: match self.preferences {
                Some(p) => Some(p@),
                None => None,
            },
        }
    }
}

impl Clone for User {
    fn clone(&self) -> (r: Self)
        ensures
            r@ == self@,
    {
        User {
            id: self.id,
            name: self.name.clone(),
            avatar: clone_opt_string(&self.avatar),
            preferences: match &self.preferences {
                Some(p) => Some(p.clone()),
                None => None,
            },
        }
    }
}

/// The validated fields a new user is created from.
#[derive(Debug)]
pub struct CreateUserRequest {
    pub name: String,
    pub avatar: Option<String>,
    pub preferences: Option<UserPreferences>,
}

/// A partial update to a user; absent fields stay unchanged.
#[derive(Debug)]
pub struct UpdateUserRequest {
    pub name: Option<String>,
    pub avatar: Option<String>,
    pub preferences: Option<UserPreferences>,
}

/// Whether a display name satisfies its length bound.
pub open spec fn name_length_ok(name: Seq<char>) -> bool {
    1 <= name.len() <= 100
}

impl CreateUserRequest {
    pub fn validate(&self) -> (r: Result<(), AppError>)
        ensures
            r is Ok <==> name_length_ok(self.name@),
            r matches Err(e) ==> e is Validation,
    {
        let n = self.name.as_str().unicode_len();
        if n < 1 || n > 100 {
            return Err(AppError::Validation("name must be 1 to 100 characters".to_owned()));
        }
        Ok(())
    }
}

impl UpdateUserRequest {
    pub fn validate(&self) -> (r: Result<(), AppError>)
        ensures
            r is Ok <==> (self.name matches Some(n) ==> name_length_ok(n@)),
            r matches Err(e) ==> e is Validation,
    {
        if let Some(name) = &self.name {
            let n = name.as_str().unicode_len();
            if n < 1 || n > 100 {
                return Err(AppError::Validation("name must be 1 to 100 characters".to_owned()));
            }
        }
        Ok(())
    }
}

impl User {
    /// Stamps a fresh identifier onto a validated request. The identifier is
    /// drawn from outside the core, so nothing is promised of it.
    pub fn new(request: CreateUserRequest) -> (r: Self)
        ensures
            r@.name == request.name@,
            r@.avatar == (match request.avatar {
                Some(a) => Some(a@),
                None => None::<Seq<char>>,
            }),
            r@.preferences == (match request.preferences {
                Some(p) => Some(p@),
                None => None::<UserPreferencesView>,
            }),
    {
        User {
            id: fresh_id(),
            name: request.name,
            avatar: request.avatar,
            preferences: request.preferences,
        }
    }

    /// Applies the present fields of `request`, leaving absent ones
    /// unchanged.
    pub fn update(&mut self, request: UpdateUserRequest)
        ensures
            final(self)@.id == old(self)@.id,
            request.name matches Some(n) ==> final(self)@.name == n@,
            request.name is None ==> final(self)@.name == old(self)@.name,
            request.avatar matches Some(a) ==> final(self)@.avatar == Some(a@),
            request.avatar is None ==> final(self)@.avatar == old(self)@.avatar,
            request.preferences matches Some(p) ==> final(self)@.preferences == Some(p@),
            request.preferences is None ==> final(self)@.preferences == old(self)@.preferences,
    {
        if let Some(name) = request.name {
            self.name = name;
        }
        if let Some(avatar) = request.avatar {
            self.avatar = Some(avatar);
        }
        if let Some(prefs) = request.preferences {
            self.preferences = Some(prefs);
        }
    }
}

} // verus!
