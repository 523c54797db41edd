//! Groups: a named member list with a shareable invite code.
//!
//! Codes are always generated as 8 alphanumeric characters, while join
//! validation accepts 6 to 8; both behaviors are kept deliberately.

use vstd::prelude::*;
use vstd::string::StrSliceExecFns;

use crate::ids::{fresh_id, Id};
use crate::models::error::AppError;
use crate::text::push_char;

verus! {

/// Whether `c` is an ASCII letter or digit.
pub open spec fn is_alnum_char(c: char) -> bool {
    ||| 65 <= c as u32 <= 90
    ||| 97 <= c as u32 <= 122
    ||| 48 <= c as u32 <= 57
}

/// Whether `s` is accepted as an invite code: 6 to 8 alphanumeric characters.
pub open spec fn valid_invite_code(s: Seq<char>) -> bool {
    &&& 6 <= s.len() <= 8
    &&& forall|i: int| 0 <= i < s.len() ==> is_alnum_char(#[trigger] s[i])
}

/// Whether `s` has the shape of a freshly generated code: exactly 8
/// alphanumeric characters.
pub open spec fn generated_invite_code(s: Seq<char>) -> bool {
    &&& s.len() == 8
    &&& forall|i: int| 0 <= i < s.len() ==> is_alnum_char(#[trigger] s[i])
}

/// Every freshly generated code passes join validation: generation produces
/// 8 characters, validation accepts 6 to 8.
pub proof fn lemma_generated_codes_validate(s: Seq<char>)
    requires
        generated_invite_code(s),
    ensures
        valid_invite_code(s),
{
}

/// Checks the join-validation pattern: 6 to 8 characters, letters and digits
/// only.
pub fn is_valid_invite_code(code: &str) -> (r: bool)
    ensures
        r == valid_invite_code(code@),
{
    let n = code.unicode_len();
    if n < 6 || n > 8 {
        return false;
    }
    let mut k: usize = 0;
    while k < n
        invariant
            n == code@.len(),
            k <= n,
            forall|i: int| 0 <= i < k ==> is_alnum_char(#[trigger] code@[i]),
        decreases n - k,
    {
        let c = code.get_char(k);
        let u = c as u32;
        if !((65 <= u && u <= 90) || (97 <= u && u <= 122) || (48 <= u && u <= 57)) {
            return false;
        }
        k = k + 1;
    }
    true
}

/// Relies on `rand::random_range` over `0..bound`: the drawn value lies in
/// the (non-empty) range. Nothing else is promised of it.
#[verifier::external_body]
fn random_below(bound: usize) -> (r: usize)
    requires
        bound > 0,
    ensures
        r < bound,
{
    rand::random_range(0..bound)
}

/// The letter or digit at position `idx` of the code alphabet
/// `A..Z a..z 0..9`.
fn code_char(idx: usize) -> (r: char)
    requires
        idx < 62,
    ensures
        is_alnum_char(r),
{
    if idx < 26 {
        (65 + idx as u8) as char
    } else if idx < 52 {
        (97 + (idx - 26) as u8) as char
    } else {
        (48 + (idx - 52) as u8) as char
    }
}

/// Draws a fresh 8-character alphanumeric invite code.
pub fn generate_invite_code() -> (r: String)
    ensures
        generated_invite_code(r@),
{
    let mut code = String::new();
    let mut k: usize = 0;
    while k < 8
        invariant
            k <= 8,
            code@.len() == k,
            forall|i: int| 0 <= i < k ==> is_alnum_char(#[trigger] code@[i]),
        decreases 8 - k,
    {
        let idx = random_below(62);
        let c = code_char(idx);
        push_char(&mut code, c);
        k = k + 1;
    }
    code
}

/// Whether `members` holds no id twice.
pub open spec fn unique_ids(members: Seq<Id>) -> bool {
    forall|i: int, j: int| 0 <= i < j < members.len() ==> members[i] != members[j]
}

/// A group of users that pings are sent to.
#[derive(Debug)]
pub struct Group {
    pub id: Id,
    pub name: String,
    pub members: Vec<Id>,
    pub invite_code: String,
}

/// The mathematical value of a `Group`.
pub struct GroupView {
    pub id: Id,
    pub name: Seq<char>,
    pub members: Seq<Id>,
    pub invite_code: Seq<char>,
}

impl View for Group {
    type V = GroupView;

    open spec fn view(&self) -> GroupView {
        GroupView {
            id: self.id,
            name: self.name@,
            members: self.members@,
            invite_code: self.invite_code@,
        }
    }
}

impl DeepView for Group {
    type V = GroupView;

    open spec fn deep_view(&self) -> GroupView {
        self.view()
    }
}

impl Clone for Group {
    fn clone(&self) -> (r: Self)
        ensures
            r@ == self@,
    {
        Group {
            id: self.id,
            name: self.name.clone(),
            members: crate::models::hangout::clone_id_vec(&self.members),
            invite_code: self.invite_code.clone(),
        }
    }
}

/// The validated fields a new group is created from.
#[derive(Debug)]
pub struct CreateGroupRequest {
    pub name: String,
    pub creator_id: Id,
}

/// A request to join a group by invite code.
#[derive(Debug)]
pub struct JoinGroupRequest {
    pub user_id: Id,
    pub invite_code: String,
}

/// A request to leave a group.
#[derive(Debug, Clone, Copy, PartialEq, Eq, Structural)]
pub struct LeaveGroupRequest {
    pub user_id: Id,
}

/// A request to replace a group's invite code.
#[derive(Debug, Clone, Copy, PartialEq, Eq, Structural)]
pub struct RegenerateInviteRequest {
    pub user_id: Id,
}

impl CreateGroupRequest {
    /// Whether the group name satisfies its length bound.
    pub open spec fn name_ok(self) -> bool {
        1 <= self.name@.len() <= 100
    }

    pub fn validate(&self) -> (r: Result<(), AppError>)
        ensures
            r is Ok <==> self.name_ok(),
            r matches Err(e) ==> e is Validation,
    {
        let n = self.name.as_str().unicode_len();
        if n < 1 || n > 100 {
            return Err(AppError::Validation("name must be 1 to 100 characters".to_owned()));
        }
        Ok(())
    }
}

impl JoinGroupRequest {
    pub fn validate(&self) -> (r: Result<(), AppError>)
        ensures
            r is Ok <==> valid_invite_code(self.invite_code@),
            r matches Err(e) ==> e is Validation,
    {
        if !is_valid_invite_code(self.invite_code.as_str()) {
            return Err(
                AppError::Validation("invite_code must be 6 to 8 letters or digits".to_owned()),
            );
        }
        Ok(())
    }
}

impl Group {
    /// Creates a group containing just its creator, under a freshly drawn
    /// invite code. The identifier is drawn from outside the core, so nothing
    /// is promised of it.
    pub fn new(request: CreateGroupRequest) -> (r: Self)
        ensures
            r@.name == request.name@,
            r@.members == seq![request.creator_id],
            generated_invite_code(r@.invite_code),
            unique_ids(r@.members),
    {
        let mut members: Vec<Id> = Vec::new();
        members.push(request.creator_id);
        proof {
            assert(members@ =~= seq![request.creator_id]);
        }
        Group {
            id: fresh_id(),
            name: request.name,
            members,
            invite_code: generate_invite_code(),
        }
    }

    /// Adds `user_id` unless already present; membership stays set-like.
    pub fn add_member(&mut self, user_id: Id)
        ensures
            final(self)@.id == old(self)@.id,
            final(self)@.name == old(self)@.name,
            final(self)@.invite_code == old(self)@.invite_code,
            old(self)@.members.contains(user_id) ==> final(self)@.members == old(self)@.members,
            !old(self)@.members.contains(user_id) ==> final(self)@.members == old(
                self,
            )@.members.push(user_id),
            unique_ids(old(self)@.members) ==> unique_ids(final(self)@.members),
            final(self)@.members.contains(user_id),
    {
        if !crate::models::hangout::contains_id(&self.members, user_id) {
            let ghost before = self.members@;
            self.members.push(user_id);
            proof {
                if unique_ids(before) {
                    assert forall|i: int, j: int|
                        0 <= i < j < self.members@.len() implies self.members@[i]
                        != self.members@[j] by {
                        if j < before.len() {
                            assert(before[i] != before[j]);
                        } else {
                            assert(!before.contains(self.members@[j]));
                            assert(before[i] == self.members@[i]);
                        }
                    }
                }
                assert(self.members@[self.members@.len() - 1] == user_id);
            }
        } else {
            proof {
                assert(self@.members.contains(user_id));
            }
        }
    }

    /// Removes every occurrence of `user_id` from the member list.
    pub fn remove_member(&mut self, user_id: Id)
        ensures
            final(self)@.id == old(self)@.id,
            final(self)@.name == old(self)@.name,
            final(self)@.invite_code == old(self)@.invite_code,
            final(self)@.members == old(self)@.members.filter(|m: Id| m != user_id),
    {
        broadcast use vstd::seq_lib::group_filter_ensures;

        let ghost orig = self.members@;
        let mut kept: Vec<Id> = Vec::new();
        let mut k: usize = 0;
        while k < self.members.len()
            invariant
                orig == old(self)@.members,
                self.members@ == orig,
                k <= orig.len(),
                kept@ == orig.take(k as int).filter(|m: Id| m != user_id),
            decreases orig.len() - k,
        {
            let ghost prefix = orig.take(k as int);
            proof {
                assert(orig.take(k as int + 1) =~= prefix.push(orig[k as int]));
                reveal(Seq::filter);
                assert(prefix.push(orig[k as int]).drop_last() =~= prefix);
            }
            let m = self.members[k];
            if m != user_id {
                kept.push(m);
            }
            k = k + 1;
        }
        proof {
            assert(orig.take(orig.len() as int) =~= orig);
        }
        self.members = kept;
    }

    /// Replaces the invite code with a freshly drawn one.
    pub fn regenerate_invite_code(&mut self)
        ensures
            final(self)@.id == old(self)@.id,
            final(self)@.name == old(self)@.name,
            final(self)@.members == old(self)@.members,
            generated_invite_code(final(self)@.invite_code),
    {
        self.invite_code = generate_invite_code();
    }

    /// Whether `user_id` belongs to the group: a linear scan.
    pub fn is_member(&self, user_id: Id) -> (r: bool)
        ensures
            r == self@.members.contains(user_id),
    {
        crate::models::hangout::contains_id(&self.members, user_id)
    }
}

} // verus!
