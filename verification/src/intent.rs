//! The intent flow: a proposal moves from wanting through pinging into either
//! gathering answers or scheduling concrete windows, each phase a type of its
//! own so that illegal transitions do not compile.

use vstd::prelude::*;

use crate::text::{dec_digits, u64_to_string};
use crate::what::{activity_label, group_size_label, mood_label, What};
use crate::when::Availability;
use crate::who::{pending_of, Gathering, Participant, ParticipantView};
use vstd::string::StringExecFns;

verus! {

/// The phase before anything was decided.
#[derive(Debug, Clone, Copy, PartialEq, Eq, Structural)]
pub struct Wanting;

/// The phase where friends are being pinged about a proposal.
#[derive(Debug)]
pub struct Pinging {
    pub what: What,
    pub recipients: Vec<Participant>,
}

/// The phase where concrete availability windows are being collected.
#[derive(Debug)]
pub struct Scheduling {
    pub availabilities: Vec<Availability>,
}

/// The phase where a vote on the proposal has concluded.
#[derive(Debug, Clone, Copy, PartialEq, Eq, Structural)]
pub struct Voting {
    pub passed: bool,
}

/// What the pinging phase says about itself.
pub open spec fn pinging_itinerary(w: What) -> Seq<char> {
    "Pinging friends about "@ + (match w.activity {
        Some(a) => activity_label(a),
        None => "any activity"@,
    }) + " with a "@ + (match w.mood {
        Some(m) => mood_label(m),
        None => "any"@,
    }) + " mood, preferring "@ + (match w.group_size {
        Some(g) => group_size_label(g) + " group"@,
        None => "any size group"@,
    }) + "."@
}

/// What the scheduling phase says about itself.
pub open spec fn scheduling_itinerary(window_count: nat) -> Seq<char> {
    if window_count == 0 {
        "Scheduling with flexible availability."@
    } else {
        "Scheduling with "@ + dec_digits(window_count) + " availability windows."@
    }
}

/// What the gathering phase says about itself.
pub open spec fn gathering_itinerary(
    interested: nat,
    pending: nat,
    unavailable: nat,
) -> Seq<char> {
    "Gathering responses: "@ + dec_digits(interested) + " interested, "@ + dec_digits(pending)
        + " pending, "@ + dec_digits(unavailable) + " unavailable"@
}

impl Wanting {
    /// Describes this phase.
    pub fn itinerary(&self) -> (r: String)
        ensures
            r@ == "Currently wanting to start an intent."@,
    {
        "Currently wanting to start an intent.".to_owned()
    }
}

impl Pinging {
    /// Describes this phase: the proposal, with "any" standing in for every
    /// open field.
    pub fn itinerary(&self) -> (r: String)
        ensures
            r@ == pinging_itinerary(self.what),
    {
        let activity = match &self.what.activity {
            Some(a) => a.label(),
            None => "any activity",
        };
        let mood = match &self.what.mood {
            Some(m) => m.label(),
            None => "any",
        };
        let out = "Pinging friends about ".to_owned().concat(activity).concat(
            " with a ",
        ).concat(mood).concat(" mood, preferring ");
        let out = match &self.what.group_size {
            Some(g) => out.concat(g.label()).concat(" group"),
            None => out.concat("any size group"),
        };
        out.concat(".")
    }
}

impl Scheduling {
    /// Describes this phase: flexible when no window was given, else the
    /// window count.
    pub fn itinerary(&self) -> (r: String)
        ensures
            r@ == scheduling_itinerary(self.availabilities@.len()),
    {
        if self.availabilities.len() == 0 {
            "Scheduling with flexible availability.".to_owned()
        } else {
            let count = u64_to_string(self.availabilities.len() as u64);
            "Scheduling with ".to_owned().concat(count.as_str()).concat(
                " availability windows.",
            )
        }
    }
}

impl Voting {
    /// Describes this phase.
    pub fn itinerary(&self) -> (r: String)
        ensures
            self.passed ==> r@ == "Voting has passed."@,
            !self.passed ==> r@ == "Voting has failed."@,
    {
        if self.passed {
            "Voting has passed.".to_owned()
        } else {
            "Voting has failed.".to_owned()
        }
    }
}

impl Gathering {
    /// Describes this phase: how many answered yes, how many are pending and
    /// how many said no.
    pub fn itinerary(&self) -> (r: String)
        ensures
            r@ == gathering_itinerary(
                self@.interested.len(),
                pending_of(self@).len(),
                self@.unavailable.len(),
            ),
    {
        let interested_count = u64_to_string(self.interested.len() as u64);
        let pending = self.pending();
        let pending_count = u64_to_string(pending.len() as u64);
        let unavailable_count = u64_to_string(self.unavailable.len() as u64);
        "Gathering responses: ".to_owned().concat(interested_count.as_str()).concat(
            " interested, ",
        ).concat(pending_count.as_str()).concat(" pending, ").concat(
            unavailable_count.as_str(),
        ).concat(" unavailable")
    }
}

/// A named intent in phase `S`.
#[derive(Debug)]
pub struct Intent<S> {
    pub name: &'static str,
    pub state: S,
}

impl Intent<Wanting> {
    /// Starts a fresh intent in the wanting phase.
    pub fn new(name: &'static str) -> (r: Intent<Wanting>)
        ensures
            r.name == name,
    {
        Intent { name, state: Wanting }
    }

    /// Moves to pinging with a proposal and its recipients.
    pub fn start_pinging(self, what: What, recipients: Vec<Participant>) -> (r: Intent<Pinging>)
        ensures
            r.name == self.name,
            r.state.what == what,
            r.state.recipients.deep_view() == recipients.deep_view(),
    {
        Intent { name: self.name, state: Pinging { what, recipients } }
    }
}

impl Intent<Pinging> {
    /// Moves to gathering: every recipient starts pending.
    pub fn start_gathering(self) -> (r: Intent<Gathering>)
        ensures
            r.name == self.name,
            r.state@.recipients == self.state.recipients.deep_view(),
            r.state@.interested == Seq::<ParticipantView>::empty(),
            r.state@.unavailable == Seq::<ParticipantView>::empty(),
    {
        let gathering = Gathering::new(self.state.recipients);
        Intent { name: self.name, state: gathering }
    }

    /// Moves to scheduling with the given availability windows; an empty list
    /// means fully flexible.
    pub fn schedule(self, availabilities: Vec<Availability>) -> (r: Intent<Scheduling>)
        ensures
            r.name == self.name,
            r.state.availabilities@ == availabilities@,
    {
        Intent { name: self.name, state: Scheduling { availabilities } }
    }
}

impl Intent<Gathering> {
    /// Records that a recipient said yes.
    pub fn add_interested(&mut self, participant: Participant)
        ensures
            final(self).name == old(self).name,
            final(self).state@.recipients == old(self).state@.recipients,
            !old(self).state@.recipients.contains(participant@) ==> (final(self).state@.interested
                == old(self).state@.interested && final(self).state@.unavailable == old(self).state@.unavailable),
            old(self).state@.recipients.contains(participant@) ==> {
                &&& final(self).state@.unavailable == old(self).state@.unavailable.filter(
                    |x: ParticipantView| x != participant@,
                )
                &&& (old(self).state@.interested.contains(participant@) ==> final(self).state@.interested == old(self).state@.interested)
                &&& (!old(self).state@.interested.contains(participant@) ==> final(self).state@.interested == old(self).state@.interested.push(participant@))
            },
    {
        self.state.add_interested(participant);
    }

    /// Records that a recipient said no.
    pub fn mark_unavailable(&mut self, participant: Participant)
        ensures
            final(self).name == old(self).name,
            final(self).state@.recipients == old(self).state@.recipients,
            !old(self).state@.recipients.contains(participant@) ==> (final(self).state@.interested
                == old(self).state@.interested && final(self).state@.unavailable == old(self).state@.unavailable),
            old(self).state@.recipients.contains(participant@) ==> {
                &&& final(self).state@.interested == old(self).state@.interested.filter(
                    |x: ParticipantView| x != participant@,
                )
                &&& (old(self).state@.unavailable.contains(participant@) ==> final(self).state@.unavailable == old(self).state@.unavailable)
                &&& (!old(self).state@.unavailable.contains(participant@) ==> final(self).state@.unavailable == old(self).state@.unavailable.push(participant@))
            },
    {
        self.state.mark_unavailable(participant);
    }

    /// Marks every still-pending recipient unavailable.
    pub fn apply_timeout(&mut self)
        ensures
            final(self).name == old(self).name,
            final(self).state@.recipients == old(self).state@.recipients,
            final(self).state@.interested == old(self).state@.interested,
            final(self).state@.unavailable == old(self).state@.unavailable + pending_of(
                old(self).state@,
            ),
    {
        self.state.apply_timeout();
    }

    /// Copies of those who said yes.
    pub fn interested(&self) -> (r: Vec<Participant>)
        ensures
            r.deep_view() == self.state@.interested,
    {
        crate::who::clone_participants(&self.state.interested)
    }

    /// Copies of those who said no.
    pub fn unavailable(&self) -> (r: Vec<Participant>)
        ensures
            r.deep_view() == self.state@.unavailable,
    {
        crate::who::clone_participants(&self.state.unavailable)
    }

    /// Copies of those who have not answered yet.
    pub fn pending(&self) -> (r: Vec<Participant>)
        ensures
            r.deep_view() == pending_of(self.state@),
    {
        self.state.pending()
    }

    /// Whether every recipient has answered.
    pub fn all_responded(&self) -> (r: bool)
        ensures
            r == (pending_of(self.state@).len() == 0),
    {
        self.state.all_responded()
    }

    /// Whether anyone said yes.
    pub fn has_interested_participants(&self) -> (r: bool)
        ensures
            r == (self.state@.interested.len() > 0),
    {
        self.state.has_interested_participants()
    }

    /// Whether the intent should be abandoned: everyone answered and nobody
    /// is interested.
    pub fn should_fail_intent(&self) -> (r: bool)
        ensures
            r == (self.state@.interested.len() == 0 && pending_of(self.state@).len() == 0),
    {
        self.state.should_fail_intent()
    }
}

} // verus!
