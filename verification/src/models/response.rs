//! Responses: one group member's answer to a ping, plus optional availability
//! and preferences.

use vstd::prelude::*;

use crate::ids::{fresh_id, Id};
use crate::models::error::AppError;
use crate::time::{now_millis, Timestamp};

verus! {

/// A free-time window. Well-formed when `earliest` is strictly before
/// `latest`.
#[derive(Debug, Clone, Copy, PartialEq, Eq, Structural)]
pub struct Availability {
    pub earliest: Timestamp,
    pub latest: Timestamp,
}

impl Availability {
    /// The invariant a stored window satisfies.
    pub open spec fn well_formed(self) -> bool {
        self.earliest < self.latest
    }

    pub fn validate_times(&self) -> (r: Result<(), AppError>)
        ensures
            r is Ok <==> self.well_formed(),
            r matches Err(e) ==> e is BadRequest,
    {
        if self.latest <= self.earliest {
            return Err(AppError::BadRequest("latest must be after earliest".to_owned()));
        }
        Ok(())
    }
}

/// Optional location preferences attached to a response. Distances are carried
/// in meters.
#[derive(Debug)]
pub struct ResponsePreferences {
    pub max_distance: Option<i64>,
    pub preferred_areas: Option<Vec<String>>,
    pub excluded_areas: Option<Vec<String>>,
}

/// The mathematical value of a `ResponsePreferences`.
pub struct PreferencesView {
    pub max_distance: Option<i64>,
    pub preferred_areas: Option<Seq<Seq<char>>>,
    pub excluded_areas: Option<Seq<Seq<char>>>,
}

impl View for ResponsePreferences {
    type V = PreferencesView;

    open spec fn view(&self) -> PreferencesView {
        PreferencesView {
            max_distance: self.max_distance,
            preferred_areas: match self.preferred_areas {
                Some(v) => Some(v.deep_view()),
                None => None,
            },
            excluded_areas: match self.excluded_areas {
                Some(v) => Some(v.deep_view()),
                None => None,
            },
        }
    }
}

impl DeepView for ResponsePreferences {
    type V = PreferencesView;

    open spec fn deep_view(&self) -> PreferencesView {
        self.view()
    }
}

impl Clone for ResponsePreferences {
    fn clone(&self) -> (r: Self)
        ensures
            r@ == self@,
    {
        ResponsePreferences {
            max_distance: self.max_distance,
            preferred_areas: clone_opt_string_vec(&self.preferred_areas),
            excluded_areas: clone_opt_string_vec(&self.excluded_areas),
        }
    }
}

impl Default for ResponsePreferences {
    fn default() -> (r: Self)
        ensures
            r.max_distance is None,
            r.preferred_areas is None,
            r.excluded_areas is None,
    {
        ResponsePreferences { max_distance: None, preferred_areas: None, excluded_areas: None }
    }
}

/// One member's answer to a ping. At most one response per user per ping is
/// enforced at creation time by the service layer.
#[derive(Debug)]
pub struct Response {
    pub id: Id,
    pub user: Id,
    pub answer: bool,
    pub availability: Option<Availability>,
    pub preferences: Option<ResponsePreferences>,
    pub updated_at: Timestamp,
}

/// The mathematical value of a `Response`.
pub struct ResponseView {
    pub id: Id,
    pub user: Id,
    pub answer: bool,
    pub availability: Option<Availability>,
    pub preferences: Option<PreferencesView>,
    pub updated_at: Timestamp,
}

impl View for Response {
    type V = ResponseView;

    open spec fn view(&self) -> ResponseView {
        ResponseView {
            id: self.id,
            user: self.user,
            answer: self.answer,
            availability: self.availability,
            preferences: match self.preferences {
                Some(p) => Some(p@),
                None => None,
            },
            updated_at: self.updated_at,
        }
    }
}

impl DeepView for Response {
    type V = ResponseView;

    open spec fn deep_view(&self) -> ResponseView {
        self.view()
    }
}

impl Clone for Response {
    fn clone(&self) -> (r: Self)
        ensures
            r@ == self@,
    {
        Response {
            id: self.id,
            user: self.user,
            answer: self.answer,
            availability: self.availability,
            preferences: match &self.preferences {
                Some(p) => Some(p.clone()),
                None => None,
            },
            updated_at: self.updated_at,
        }
    }
}

#[derive(Debug)]
pub struct CreateResponseRequest {
    pub user: Id,
    pub answer: bool,
    pub availability: Option<Availability>,
    pub preferences: Option<ResponsePreferences>,
}

#[derive(Debug)]
pub struct UpdateResponseRequest {
    pub user: Id,
    pub answer: Option<bool>,
    pub availability: Option<Availability>,
    pub preferences: Option<ResponsePreferences>,
}

/// The mathematical value of an `UpdateResponseRequest`.
pub struct UpdateResponseRequestView {
    pub user: Id,
    pub answer: Option<bool>,
    pub availability: Option<Availability>,
    pub preferences: Option<PreferencesView>,
}

impl View for UpdateResponseRequest {
    type V = UpdateResponseRequestView;

    open spec fn view(&self) -> UpdateResponseRequestView {
        UpdateResponseRequestView {
            user: self.user,
            answer: self.answer,
            availability: self.availability,
            preferences: match self.preferences {
                Some(p) => Some(p@),
                None => None,
            },
        }
    }
}

impl Clone for UpdateResponseRequest {
    fn clone(&self) -> (r: Self)
        ensures
            r@ == self@,
    {
        UpdateResponseRequest {
            user: self.user,
            answer: self.answer,
            availability: self.availability,
            preferences: match &self.preferences {
                Some(p) => Some(p.clone()),
                None => None,
            },
        }
    }
}

/// How an update request transforms one response: present fields replace,
/// absent fields persist, identity is kept.
pub open spec fn response_updated(
    pre: ResponseView,
    req: UpdateResponseRequestView,
    post: ResponseView,
) -> bool {
    &&& post.id == pre.id
    &&& post.user == pre.user
    &&& (req.answer matches Some(a) ==> post.answer == a)
    &&& (req.answer is None ==> post.answer == pre.answer)
    &&& (req.availability is Some ==> post.availability == req.availability)
    &&& (req.availability is None ==> post.availability == pre.availability)
    &&& (req.preferences is Some ==> post.preferences == req.preferences)
    &&& (req.preferences is None ==> post.preferences == pre.preferences)
}

impl CreateResponseRequest {
    /// Whether the optional distance preference is acceptable.
    pub open spec fn distance_ok(self) -> bool {
        self.preferences matches Some(p) ==> (p.max_distance matches Some(d) ==> d >= 0)
    }

    /// Whether the optional availability window is acceptable.
    pub open spec fn availability_ok(self) -> bool {
        self.availability matches Some(a) ==> a.well_formed()
    }

    pub fn validate_preferences(&self) -> (r: Result<(), AppError>)
        ensures
            r is Ok <==> self.distance_ok() && self.availability_ok(),
            r matches Err(e) ==> e is BadRequest,
    {
        if let Some(prefs) = &self.preferences {
            if let Some(distance) = prefs.max_distance {
                if distance < 0 {
                    return Err(
                        AppError::BadRequest("max_distance must be non-negative".to_owned()),
                    );
                }
            }
        }
        if let Some(availability) = &self.availability {
            availability.validate_times()?;
        }
        Ok(())
    }
}

impl Response {
    /// Stamps a fresh identifier and the current time onto a validated
    /// request. The identifier and timestamp are drawn from outside the core,
    /// so nothing is promised of them.
    pub fn new(request: CreateResponseRequest) -> (r: Self)
        ensures
            r.user == request.user,
            r.answer == request.answer,
            r.availability == request.availability,
            r@.preferences == (match request.preferences {
                Some(p) => Some(p@),
                None => None::<PreferencesView>,
            }),
    {
        Response {
            id: fresh_id(),
            user: request.user,
            answer: request.answer,
            availability: request.availability,
            preferences: request.preferences,
            updated_at: now_millis(),
        }
    }

    /// Applies the present fields of `request`, leaving absent ones unchanged,
    /// and re-stamps the update time.
    pub fn update(&mut self, request: UpdateResponseRequest)
        ensures
            response_updated(old(self)@, request@, final(self)@),
    {
        if let Some(answer) = request.answer {
            self.answer = answer;
        }
        if request.availability.is_some() {
            self.availability = request.availability;
        }
        if request.preferences.is_some() {
            self.preferences = request.preferences;
        }
        self.updated_at = now_millis();
    }
}

/// Clones a vector of strings; the copy holds equal strings.
pub fn clone_string_vec(v: &Vec<String>) -> (r: Vec<String>)
    ensures
        r@ == v@,
{
    let mut r: Vec<String> = Vec::new();
    let mut k: usize = 0;
    while k < v.len()
        invariant
            k <= v@.len(),
            r@ == v@.take(k as int),
        decreases v@.len() - k,
    {
        r.push(v[k].clone());
        proof {
            assert(r@ =~= v@.take(k as int + 1));
        }
        k = k + 1;
    }
    proof {
        assert(v@.take(v@.len() as int) =~= v@);
    }
    r
}

/// Clones an optional vector of strings; the copy holds equal strings.
pub fn clone_opt_string_vec(v: &Option<Vec<String>>) -> (r: Option<Vec<String>>)
    ensures
        v matches Some(inner) ==> (r matches Some(ri) && ri@ == inner@),
        v is None ==> r is None,
{
    match v {
        Some(inner) => Some(clone_string_vec(inner)),
        None => None,
    }
}

} // verus!
