//! Who an intent reaches: participants, and the gathering of their yes/no
//! answers while responses trickle in.

use vstd::prelude::*;

verus! {

/// One person an intent is sent to, identified by name and email.
#[derive(Debug, PartialEq, Eq)]
pub struct Participant {
    pub name: String,
    pub email: String,
}

/// The mathematical value of a `Participant`.
pub struct ParticipantView {
    pub name: Seq<char>,
    pub email: Seq<char>,
}

impl View for Participant {
    type V = ParticipantView;

    open spec fn view(&self) -> ParticipantView {
        ParticipantView { name: self.name@, email: self.email@ }
    }
}

impl DeepView for Participant {
    type V = ParticipantView;

    open spec fn deep_view(&self) -> ParticipantView {
        self.view()
    }
}

impl Clone for Participant {
    fn clone(&self) -> (r: Self)
        ensures
            r@ == self@,
    {
        Participant { name: self.name.clone(), email: self.email.clone() }
    }
}

impl Participant {
    pub fn new(name: &str, email: &str) -> (r: Self)
        ensures
            r@.name == name@,
            r@.email == email@,
    {
        Participant { name: name.to_owned(), email: email.to_owned() }
    }
}

/// Whether `v` holds a participant with the same name and email as `p`.
pub fn contains_participant(v: &Vec<Participant>, p: &Participant) -> (r: bool)
    ensures
        r == v.deep_view().contains(p@),
{
    let mut k: usize = 0;
    while k < v.len()
        invariant
            k <= v@.len(),
            forall|i: int| 0 <= i < k ==> v.deep_view()[i] != p@,
        decreases v@.len() - k,
    {
        let same = v[k].name.eq(&p.name) && v[k].email.eq(&p.email);
        proof {
            assert(v.deep_view()[k as int] == v@[k as int]@);
            assert(same == (v.deep_view()[k as int] == p@));
        }
        if same {
            proof {
                assert(v.deep_view().contains(p@));
            }
            return true;
        }
        k = k + 1;
    }
    proof {
        if v.deep_view().contains(p@) {
            let i = choose|i: int| 0 <= i < v.deep_view().len() && v.deep_view()[i] == p@;
            assert(false);
        }
    }
    false
}

/// Copies a participant list; the copy has the same mathematical value.
pub fn clone_participants(v: &Vec<Participant>) -> (r: Vec<Participant>)
    ensures
        r.deep_view() == v.deep_view(),
{
    let mut r: Vec<Participant> = Vec::new();
    let mut k: usize = 0;
    while k < v.len()
        invariant
            k <= v@.len(),
            r@.len() == k,
            forall|j: int| 0 <= j < k ==> #[trigger] r@[j]@ == v@[j]@,
        decreases v@.len() - k,
    {
        r.push(v[k].clone());
        k = k + 1;
    }
    proof {
        assert forall|j: int| 0 <= j < v@.len() implies r.deep_view()[j] == v.deep_view()[j] by {
            assert(r.deep_view()[j] == r@[j].deep_view());
            assert(v.deep_view()[j] == v@[j].deep_view());
        }
        assert(r.deep_view() =~= v.deep_view());
    }
    r
}


/// Copies `v` without any participant equal to `p`.
pub fn filter_out(v: &Vec<Participant>, p: &Participant) -> (r: Vec<Participant>)
    ensures
        r.deep_view() == v.deep_view().filter(|x: ParticipantView| x != p@),
{
    broadcast use vstd::seq_lib::group_filter_ensures;

    let ghost pred = |x: ParticipantView| x != p@;
    let mut r: Vec<Participant> = Vec::new();
    let mut k: usize = 0;
    while k < v.len()
        invariant
            k <= v@.len(),
            pred == (|x: ParticipantView| x != p@),
            r.deep_view() == v.deep_view().take(k as int).filter(pred),
        decreases v@.len() - k,
    {
        let ghost prefix = v.deep_view().take(k as int);
        proof {
            assert(v.deep_view().take(k as int + 1) =~= prefix.push(v.deep_view()[k as int]));
            reveal(Seq::filter);
            assert(prefix.push(v.deep_view()[k as int]).drop_last() =~= prefix);
        }
        let same = v[k].name.eq(&p.name) && v[k].email.eq(&p.email);
        proof {
            assert(v.deep_view()[k as int] == v@[k as int]@);
            assert(same == (v.deep_view()[k as int] == p@));
            assert((!same) == pred(v.deep_view()[k as int]));
        }
        if !same {
            let ghost rv = r.deep_view();
            r.push(v[k].clone());
            proof {
                assert forall|j: int|
                    0 <= j < r.deep_view().len() implies r.deep_view()[j] == prefix.filter(
                    pred,
                ).push(v.deep_view()[k as int])[j] by {
                    if j < rv.len() {
                        assert(r.deep_view()[j] == rv[j]);
                    } else {
                        assert(r.deep_view()[j] == r@[j].deep_view());
                    }
                }
                assert(r.deep_view() =~= prefix.filter(pred).push(v.deep_view()[k as int]));
            }
        }
        k = k + 1;
    }
    proof {
        assert(v.deep_view().take(v@.len() as int) =~= v.deep_view());
    }
    r
}

/// The recipients of an intent split three ways: those who said yes, those
/// who said no, and (implicitly) those who have not answered yet.
#[derive(Debug)]
pub struct Gathering {
    pub recipients: Vec<Participant>,
    pub interested: Vec<Participant>,
    pub unavailable: Vec<Participant>,
}

/// The mathematical value of a `Gathering`.
pub struct GatheringView {
    pub recipients: Seq<ParticipantView>,
    pub interested: Seq<ParticipantView>,
    pub unavailable: Seq<ParticipantView>,
}

impl View for Gathering {
    type V = GatheringView;

    open spec fn view(&self) -> GatheringView {
        GatheringView {
            recipients: self.recipients.deep_view(),
            interested: self.interested.deep_view(),
            unavailable: self.unavailable.deep_view(),
        }
    }
}

impl Clone for Gathering {
    fn clone(&self) -> (r: Self)
        ensures
            r@ == self@,
    {
        Gathering {
            recipients: clone_participants(&self.recipients),
            interested: clone_participants(&self.interested),
            unavailable: clone_participants(&self.unavailable),
        }
    }
}

/// The recipients who have not answered yet: neither interested nor
/// unavailable.
pub open spec fn pending_of(g: GatheringView) -> Seq<ParticipantView> {
    g.recipients.filter(
        |p: ParticipantView| !g.interested.contains(p) && !g.unavailable.contains(p),
    )
}

impl Gathering {
    /// Starts gathering: everyone is pending.
    pub fn new(recipients: Vec<Participant>) -> (r: Self)
        ensures
            r@.recipients == recipients.deep_view(),
            r@.interested == Seq::<ParticipantView>::empty(),
            r@.unavailable == Seq::<ParticipantView>::empty(),
    {
        let r = Gathering { recipients, interested: Vec::new(), unavailable: Vec::new() };
        proof {
            assert(r@.interested =~= Seq::<ParticipantView>::empty());
            assert(r@.unavailable =~= Seq::<ParticipantView>::empty());
        }
        r
    }

    /// Copies of the recipients who have not answered yet, in recipient
    /// order.
    pub fn pending(&self) -> (r: Vec<Participant>)
        ensures
            r.deep_view() == pending_of(self@),
    {
        broadcast use vstd::seq_lib::group_filter_ensures;

        let ghost pred = |p: ParticipantView|
            !self@.interested.contains(p) && !self@.unavailable.contains(p);
        let mut r: Vec<Participant> = Vec::new();
        let mut k: usize = 0;
        while k < self.recipients.len()
            invariant
                k <= self.recipients@.len(),
                pred == (|p: ParticipantView|
                    !self@.interested.contains(p) && !self@.unavailable.contains(p)),
                r.deep_view() == self@.recipients.take(k as int).filter(pred),
            decreases self.recipients@.len() - k,
        {
            let ghost prefix = self@.recipients.take(k as int);
            proof {
                assert(self@.recipients.take(k as int + 1) =~= prefix.push(
                    self@.recipients[k as int],
                ));
                reveal(Seq::filter);
                assert(prefix.push(self@.recipients[k as int]).drop_last() =~= prefix);
            }
            let candidate = &self.recipients[k];
            proof {
                assert(candidate@ == self@.recipients[k as int]);
            }
            let hit = !contains_participant(&self.interested, candidate)
                && !contains_participant(&self.unavailable, candidate);
            proof {
                assert(hit == pred(self@.recipients[k as int]));
            }
            if hit {
                let ghost rv = r.deep_view();
                r.push(self.recipients[k].clone());
                proof {
                    assert forall|j: int|
                        0 <= j < r.deep_view().len() implies r.deep_view()[j] == prefix.filter(
                        pred,
                    ).push(self@.recipients[k as int])[j] by {
                        if j < rv.len() {
                            assert(r.deep_view()[j] == rv[j]);
                        } else {
                            assert(r.deep_view()[j] == r@[j].deep_view());
                        }
                    }
                    assert(r.deep_view() =~= prefix.filter(pred).push(
                        self@.recipients[k as int],
                    ));
                }
            }
            k = k + 1;
        }
        proof {
            assert(self@.recipients.take(self.recipients@.len() as int) =~= self@.recipients);
        }
        r
    }

    /// Whether every recipient has answered.
    pub fn all_responded(&self) -> (r: bool)
        ensures
            r == (pending_of(self@).len() == 0),
    {
        let pending = self.pending();
        pending.len() == 0
    }

    /// Whether anyone said yes.
    pub fn has_interested_participants(&self) -> (r: bool)
        ensures
            r == (self@.interested.len() > 0),
    {
        self.interested.len() > 0
    }

    /// Whether the intent should be abandoned: everyone answered and nobody
    /// is interested.
    pub fn should_fail_intent(&self) -> (r: bool)
        ensures
            r == (self@.interested.len() == 0 && pending_of(self@).len() == 0),
    {
        self.interested.len() == 0 && self.all_responded()
    }


    /// Records that a recipient said yes: removed from the unavailable list,
    /// added to the interested list unless already there. Someone who is not
    /// a recipient is ignored.
    pub fn add_interested(&mut self, participant: Participant)
        ensures
            final(self)@.recipients == old(self)@.recipients,
            !old(self)@.recipients.contains(participant@) ==> (final(self)@.interested == old(
                self,
            )@.interested && final(self)@.unavailable == old(self)@.unavailable),
            old(self)@.recipients.contains(participant@) ==> {
                &&& final(self)@.unavailable == old(self)@.unavailable.filter(
                    |x: ParticipantView| x != participant@,
                )
                &&& (old(self)@.interested.contains(participant@) ==> final(self)@.interested
                    == old(self)@.interested)
                &&& (!old(self)@.interested.contains(participant@) ==> final(self)@.interested
                    == old(self)@.interested.push(participant@))
            },
    {
        if contains_participant(&self.recipients, &participant) {
            self.unavailable = filter_out(&self.unavailable, &participant);
            if !contains_participant(&self.interested, &participant) {
                let ghost before = self@.interested;
                let ghost pv = participant@;
                self.interested.push(participant);
                proof {
                    assert forall|j: int|
                        0 <= j < self@.interested.len() implies self@.interested[j] == before.push(
                        pv,
                    )[j] by {
                        if j < before.len() {
                            assert(self@.interested[j] == before[j]);
                        } else {
                            assert(self@.interested[j] == self.interested@[j].deep_view());
                        }
                    }
                    assert(self@.interested =~= before.push(pv));
                }
            }
        }
    }

    /// Records that a recipient said no: removed from the interested list,
    /// added to the unavailable list unless already there. Someone who is not
    /// a recipient is ignored.
    pub fn mark_unavailable(&mut self, participant: Participant)
        ensures
            final(self)@.recipients == old(self)@.recipients,
            !old(self)@.recipients.contains(participant@) ==> (final(self)@.interested == old(
                self,
            )@.interested && final(self)@.unavailable == old(self)@.unavailable),
            old(self)@.recipients.contains(participant@) ==> {
                &&& final(self)@.interested == old(self)@.interested.filter(
                    |x: ParticipantView| x != participant@,
                )
                &&& (old(self)@.unavailable.contains(participant@) ==> final(self)@.unavailable
                    == old(self)@.unavailable)
                &&& (!old(self)@.unavailable.contains(participant@) ==> final(self)@.unavailable
                    == old(self)@.unavailable.push(participant@))
            },
    {
        if contains_participant(&self.recipients, &participant) {
            self.interested = filter_out(&self.interested, &participant);
            if !contains_participant(&self.unavailable, &participant) {
                let ghost before = self@.unavailable;
                let ghost pv = participant@;
                self.unavailable.push(participant);
                proof {
                    assert forall|j: int|
                        0 <= j < self@.unavailable.len() implies self@.unavailable[j]
                        == before.push(pv)[j] by {
                        if j < before.len() {
                            assert(self@.unavailable[j] == before[j]);
                        } else {
                            assert(self@.unavailable[j] == self.unavailable@[j].deep_view());
                        }
                    }
                    assert(self@.unavailable =~= before.push(pv));
                }
            }
        }
    }

    /// Marks every still-pending recipient unavailable.
    pub fn apply_timeout(&mut self)
        ensures
            final(self)@.recipients == old(self)@.recipients,
            final(self)@.interested == old(self)@.interested,
            final(self)@.unavailable == old(self)@.unavailable + pending_of(old(self)@),
    {
        let pending = self.pending();
        let ghost base = self@.unavailable;
        let ghost addition = pending.deep_view();
        let mut k: usize = 0;
        while k < pending.len()
            invariant
                addition == pending.deep_view(),
                k <= addition.len(),
                self@.recipients == old(self)@.recipients,
                self@.interested == old(self)@.interested,
                base == old(self)@.unavailable,
                self@.unavailable == base + addition.take(k as int),
            decreases addition.len() - k,
        {
            let ghost before = self@.unavailable;
            let c = pending[k].clone();
            let ghost cv = c@;
            proof {
                assert(cv == addition[k as int]);
            }
            self.unavailable.push(c);
            proof {
                assert forall|j: int|
                    0 <= j < self@.unavailable.len() implies self@.unavailable[j] == (base
                    + addition.take(k as int + 1))[j] by {
                    if j < before.len() {
                        assert(self@.unavailable[j] == before[j]);
                    } else {
                        assert(self@.unavailable[j] == self.unavailable@[j].deep_view());
                        assert(self@.unavailable[j] == cv);
                    }
                }
                assert(before.len() == base.len() + k);
                assert(self@.unavailable.len() == before.len() + 1);
                assert(addition.take(k as int + 1).len() == k + 1);
                assert(self@.unavailable.len() == (base + addition.take(k as int + 1)).len());
                assert(self@.unavailable =~= base + addition.take(k as int + 1));
            }
            k = k + 1;
        }
        proof {
            assert(addition.take(addition.len() as int) =~= addition);
        }
    }
}

} // verus!
