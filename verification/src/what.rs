//! What an intent proposes: an optional activity, mood and group size, each
//! left open when the proposer is flexible.

use vstd::prelude::*;

verus! {

/// The kind of activity proposed.
#[derive(Debug, Clone, Copy, PartialEq, Eq, Structural)]
pub enum Activity {
    Coffee,
    Lunch,
    Drinks,
    Dinner,
    BoardGame,
}

/// The feel of the gathering: quick, low key, lively or quiet.
#[derive(Debug, Clone, Copy, PartialEq, Eq, Structural)]
pub enum Mood {
    Quick,
    Chill,
    Energetic,
    Quiet,
}

/// How many people the proposer has in mind, organizer included.
#[derive(Debug, Clone, Copy, PartialEq, Eq, Structural)]
pub enum GroupSize {
    OneOnOne,
    Small,
    Large,
    Party,
}

/// The proposal: every field optional, `None` meaning "anything goes".
#[derive(Debug, Clone, Copy, PartialEq, Eq, Structural)]
pub struct What {
    pub activity: Option<Activity>,
    pub mood: Option<Mood>,
    pub group_size: Option<GroupSize>,
}

/// The display name of an activity.
pub open spec fn activity_label(a: Activity) -> Seq<char> {
    match a {
        Activity::Coffee => "Coffee"@,
        Activity::Lunch => "Lunch"@,
        Activity::Drinks => "Drinks"@,
        Activity::Dinner => "Dinner"@,
        Activity::BoardGame => "BoardGame"@,
    }
}

/// The display name of a mood.
pub open spec fn mood_label(m: Mood) -> Seq<char> {
    match m {
        Mood::Quick => "Quick"@,
        Mood::Chill => "Chill"@,
        Mood::Energetic => "Energetic"@,
        Mood::Quiet => "Quiet"@,
    }
}

/// The display name of a group size.
pub open spec fn group_size_label(g: GroupSize) -> Seq<char> {
    match g {
        GroupSize::OneOnOne => "OneOnOne"@,
        GroupSize::Small => "Small"@,
        GroupSize::Large => "Large"@,
        GroupSize::Party => "Party"@,
    }
}

impl Activity {
    /// The display name of this activity.
    pub fn label(&self) -> (r: &'static str)
        ensures
            r@ == activity_label(*self),
    {
        match self {
            Activity::Coffee => "Coffee",
            Activity::Lunch => "Lunch",
            Activity::Drinks => "Drinks",
            Activity::Dinner => "Dinner",
            Activity::BoardGame => "BoardGame",
        }
    }
}

impl Mood {
    /// The display name of this mood.
    pub fn label(&self) -> (r: &'static str)
        ensures
            r@ == mood_label(*self),
    {
        match self {
            Mood::Quick => "Quick",
            Mood::Chill => "Chill",
            Mood::Energetic => "Energetic",
            Mood::Quiet => "Quiet",
        }
    }
}

impl GroupSize {
    /// The display name of this group size.
    pub fn label(&self) -> (r: &'static str)
        ensures
            r@ == group_size_label(*self),
    {
        match self {
            GroupSize::OneOnOne => "OneOnOne",
            GroupSize::Small => "Small",
            GroupSize::Large => "Large",
            GroupSize::Party => "Party",
        }
    }
}

impl What {
    /// A fully flexible proposal.
    pub fn new() -> (r: Self)
        ensures
            r.activity is None,
            r.mood is None,
            r.group_size is None,
    {
        What { activity: None, mood: None, group_size: None }
    }

    /// Pins the activity.
    pub fn with_activity(self, activity: Activity) -> (r: Self)
        ensures
            r == (What { activity: Some(activity), ..self }),
    {
        What { activity: Some(activity), ..self }
    }

    /// Pins the mood.
    pub fn with_mood(self, mood: Mood) -> (r: Self)
        ensures
            r == (What { mood: Some(mood), ..self }),
    {
        What { mood: Some(mood), ..self }
    }

    /// Pins the group size.
    pub fn with_group_size(self, group_size: GroupSize) -> (r: Self)
        ensures
            r == (What { group_size: Some(group_size), ..self }),
    {
        What { group_size: Some(group_size), ..self }
    }
}

impl Default for What {
    fn default() -> (r: Self)
        ensures
            r.activity is None,
            r.mood is None,
            r.group_size is None,
    {
        What::new()
    }
}

} // verus!
