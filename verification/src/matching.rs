//! The matching engine: given a ping's accumulated responses, decides whether
//! the attendees share a common free window, by the classic latest-start /
//! earliest-end intersection rule.
//!
//! A response contributes to matching exactly when its answer is positive and
//! it carries an availability window; a positive answer without availability
//! is kept in the response list but treated like "not interested" here, so
//! `attendee_count` counts contributing responders only.

use vstd::prelude::*;

use crate::ids::Id;
use crate::models::hangout::{MatchResults, TimeOverlap};
use crate::models::ping::Ping;
use crate::models::response::{Availability, Response, ResponseView};
use crate::time::Timestamp;

verus! {

/// Whether a response takes part in the window intersection.
pub open spec fn contributes(r: ResponseView) -> bool {
    r.answer && r.availability is Some
}

/// The window of a contributing response.
pub open spec fn win(r: ResponseView) -> Availability
    recommends
        contributes(r),
{
    r.availability->0
}

/// The intersection of the contributing windows, folded left to right:
/// latest start, earliest end, and the number of contributing responses.
pub struct MatchAcc {
    pub start: Timestamp,
    pub end: Timestamp,
    pub count: int,
}

/// Folds the contributing windows of `rs`; `None` when no response
/// contributes.
pub open spec fn match_acc(rs: Seq<ResponseView>) -> Option<MatchAcc>
    decreases rs.len(),
{
    if rs.len() == 0 {
        None
    } else {
        let rest = match_acc(rs.drop_last());
        let r = rs.last();
        if contributes(r) {
            match rest {
                None => Some(
                    MatchAcc { start: win(r).earliest, end: win(r).latest, count: 1 },
                ),
                Some(a) => Some(
                    MatchAcc {
                        start: if win(r).earliest > a.start {
                            win(r).earliest
                        } else {
                            a.start
                        },
                        end: if win(r).latest < a.end {
                            win(r).latest
                        } else {
                            a.end
                        },
                        count: a.count + 1,
                    },
                ),
            }
        } else {
            rest
        }
    }
}

/// What the matching engine returns for a ping with id `ping_id` and
/// responses `rs`: a match exactly when some response contributes and the
/// latest start lies strictly before the earliest end.
pub open spec fn match_results_spec(ping_id: Id, rs: Seq<ResponseView>) -> MatchResults {
    match match_acc(rs) {
        None => MatchResults { ping_id, overlap: None, has_match: false },
        Some(a) => if a.start < a.end {
            MatchResults {
                ping_id,
                overlap: Some(
                    TimeOverlap { start: a.start, end: a.end, attendee_count: a.count as usize },
                ),
                has_match: true,
            }
        } else {
            MatchResults { ping_id, overlap: None, has_match: false }
        },
    }
}

/// `contributes`, as a function value, for use with sequence and multiset
/// filters.
pub open spec fn contributes_fn() -> spec_fn(ResponseView) -> bool {
    |r: ResponseView| contributes(r)
}

/// How many responses of `rs` contribute to matching.
pub open spec fn contributing_count(rs: Seq<ResponseView>) -> int {
    rs.filter(contributes_fn()).len() as int
}

/// What the folded accumulator is, pointwise: its start is the latest start
/// of any contributing window, its end the earliest end, and its count the
/// number of contributing responses.
pub proof fn lemma_match_acc_characterization(rs: Seq<ResponseView>)
    ensures
        match_acc(rs) is Some <==> exists|i: int| 0 <= i < rs.len() && contributes(#[trigger] rs[i]),
        match_acc(rs) matches Some(a) ==> {
            &&& exists|i: int|
                0 <= i < rs.len() && contributes(#[trigger] rs[i]) && win(rs[i]).earliest
                    == a.start
            &&& forall|i: int|
                0 <= i < rs.len() && contributes(#[trigger] rs[i]) ==> win(rs[i]).earliest
                    <= a.start
            &&& exists|i: int|
                0 <= i < rs.len() && contributes(#[trigger] rs[i]) && win(rs[i]).latest == a.end
            &&& forall|i: int|
                0 <= i < rs.len() && contributes(#[trigger] rs[i]) ==> win(rs[i]).latest >= a.end
            &&& a.count == contributing_count(rs)
            &&& 1 <= a.count <= rs.len()
        },
        match_acc(rs) is None ==> contributing_count(rs) == 0,
    decreases rs.len(),
{
    reveal(Seq::filter);
    if rs.len() == 0 {
    } else {
        let dl = rs.drop_last();
        let last = rs.last();
        let n = rs.len() - 1;
        lemma_match_acc_characterization(dl);
        assert(forall|i: int| 0 <= i < dl.len() ==> #[trigger] dl[i] == rs[i]);
        assert(last == rs[n]);
        if contributes(last) {
            assert(contributes(rs[n]));
            let a = match_acc(rs)->0;
            match match_acc(dl) {
                None => {
                    assert(a.start == win(rs[n]).earliest && a.end == win(rs[n]).latest);
                    assert forall|i: int|
                        0 <= i < rs.len() && contributes(#[trigger] rs[i]) implies win(
                        rs[i],
                    ).earliest <= a.start && win(rs[i]).latest >= a.end by {
                        if i < n {
                            assert(contributes(dl[i]));
                            assert(match_acc(dl) is Some);
                        }
                    }
                    assert(contributing_count(dl) == 0);
                    assert(a.count == contributing_count(rs));
                },
                Some(b) => {
                    if win(last).earliest > b.start {
                        assert(win(rs[n]).earliest == a.start);
                    } else {
                        let i = choose|i: int|
                            0 <= i < dl.len() && contributes(#[trigger] dl[i]) && win(
                                dl[i],
                            ).earliest == b.start;
                        assert(contributes(rs[i]) && win(rs[i]).earliest == a.start);
                    }
                    if win(last).latest < b.end {
                        assert(win(rs[n]).latest == a.end);
                    } else {
                        let i = choose|i: int|
                            0 <= i < dl.len() && contributes(#[trigger] dl[i]) && win(
                                dl[i],
                            ).latest == b.end;
                        assert(contributes(rs[i]) && win(rs[i]).latest == a.end);
                    }
                    assert forall|i: int|
                        0 <= i < rs.len() && contributes(#[trigger] rs[i]) implies win(
                        rs[i],
                    ).earliest <= a.start && win(rs[i]).latest >= a.end by {
                        if i < n {
                            assert(contributes(dl[i]));
                            assert(win(dl[i]).earliest <= b.start);
                            assert(win(dl[i]).latest >= b.end);
                        }
                    }
                    assert(a.count == contributing_count(rs));
                },
            }
        } else {
            assert forall|i: int| 0 <= i < rs.len() && contributes(#[trigger] rs[i]) implies 0 <= i
                < dl.len() && contributes(dl[i]) by {
                assert(i != n);
            }
            if match_acc(dl) is Some {
                let a = match_acc(rs)->0;
                let i = choose|i: int| 0 <= i < dl.len() && contributes(#[trigger] dl[i]);
                assert(contributes(rs[i]));
                let is = choose|i: int|
                    0 <= i < dl.len() && contributes(#[trigger] dl[i]) && win(dl[i]).earliest
                        == a.start;
                assert(contributes(rs[is]) && win(rs[is]).earliest == a.start);
                let ie = choose|i: int|
                    0 <= i < dl.len() && contributes(#[trigger] dl[i]) && win(dl[i]).latest
                        == a.end;
                assert(contributes(rs[ie]) && win(rs[ie]).latest == a.end);
            }
        }
    }
}

/// Sequence filtering and conversion to a multiset commute.
proof fn lemma_seq_filter_to_multiset<A>(s: Seq<A>, p: spec_fn(A) -> bool)
    ensures
        s.filter(p).to_multiset() =~= s.to_multiset().filter(p),
    decreases s.len(),
{
    broadcast use vstd::seq_lib::group_to_multiset_ensures;

    reveal(Seq::filter);
    if s.len() == 0 {
        assert(forall|x: A| !s.contains(x));
        assert(forall|x: A| !s.filter(p).contains(x));
    } else {
        let dl = s.drop_last();
        let last = s.last();
        lemma_seq_filter_to_multiset(dl, p);
        assert(s =~= dl.push(last));
        assert(s.to_multiset() =~= dl.to_multiset().insert(last));
        if p(last) {
            assert(s.filter(p) == dl.filter(p).push(last));
            assert(s.filter(p).to_multiset() =~= dl.filter(p).to_multiset().insert(last));
        }
    }
}

/// Matching is symmetric in input order: permuting the response list does not
/// change the folded accumulator, hence neither `has_match`, the window nor
/// `attendee_count`.
pub proof fn lemma_match_acc_permutation(rs1: Seq<ResponseView>, rs2: Seq<ResponseView>)
    requires
        rs1.to_multiset() == rs2.to_multiset(),
    ensures
        match_acc(rs1) == match_acc(rs2),
{
    broadcast use vstd::seq_lib::group_to_multiset_ensures;

    lemma_match_acc_characterization(rs1);
    lemma_match_acc_characterization(rs2);
    lemma_seq_filter_to_multiset(rs1, contributes_fn());
    lemma_seq_filter_to_multiset(rs2, contributes_fn());
    assert(contributing_count(rs1) == contributing_count(rs2)) by {
        assert(rs1.filter(contributes_fn()).to_multiset().len() == rs2.filter(
            contributes_fn(),
        ).to_multiset().len());
    }
    if match_acc(rs1) is Some {
        let i = choose|i: int| 0 <= i < rs1.len() && contributes(#[trigger] rs1[i]);
        assert(rs1.contains(rs1[i]));
        assert(rs2.to_multiset().count(rs1[i]) > 0);
        assert(rs2.contains(rs1[i]));
        let j = choose|j: int| 0 <= j < rs2.len() && rs2[j] == rs1[i];
        assert(contributes(rs2[j]));
        assert(match_acc(rs2) is Some);
    }
    if match_acc(rs2) is Some {
        let i = choose|i: int| 0 <= i < rs2.len() && contributes(#[trigger] rs2[i]);
        assert(rs2.contains(rs2[i]));
        assert(rs1.to_multiset().count(rs2[i]) > 0);
        assert(rs1.contains(rs2[i]));
        let j = choose|j: int| 0 <= j < rs1.len() && rs1[j] == rs2[i];
        assert(contributes(rs1[j]));
        assert(match_acc(rs1) is Some);
    }
    if match_acc(rs1) is Some {
        let a1 = match_acc(rs1)->0;
        let a2 = match_acc(rs2)->0;
        lemma_bound_transfers(rs1, rs2, a1, a2);
        lemma_bound_transfers(rs2, rs1, a2, a1);
        assert(a1 == a2);
    }
}

/// The extremal window bounds of one ordering bound those of a permutation.
proof fn lemma_bound_transfers(
    rs1: Seq<ResponseView>,
    rs2: Seq<ResponseView>,
    a1: MatchAcc,
    a2: MatchAcc,
)
    requires
        rs1.to_multiset() == rs2.to_multiset(),
        match_acc(rs1) == Some(a1),
        match_acc(rs2) == Some(a2),
    ensures
        a1.start <= a2.start,
        a1.end >= a2.end,
{
    broadcast use vstd::seq_lib::group_to_multiset_ensures;

    lemma_match_acc_characterization(rs1);
    lemma_match_acc_characterization(rs2);
    let i = choose|i: int|
        0 <= i < rs1.len() && contributes(#[trigger] rs1[i]) && win(rs1[i]).earliest == a1.start;
    assert(rs1.contains(rs1[i]));
    assert(rs2.to_multiset().count(rs1[i]) > 0);
    assert(rs2.contains(rs1[i]));
    let j = choose|j: int| 0 <= j < rs2.len() && rs2[j] == rs1[i];
    assert(contributes(rs2[j]) && win(rs2[j]).earliest == a1.start);
    assert(a1.start <= a2.start);
    let i2 = choose|i2: int|
        0 <= i2 < rs1.len() && contributes(#[trigger] rs1[i2]) && win(rs1[i2]).latest == a1.end;
    assert(rs1.contains(rs1[i2]));
    assert(rs2.to_multiset().count(rs1[i2]) > 0);
    assert(rs2.contains(rs1[i2]));
    let j2 = choose|j2: int| 0 <= j2 < rs2.len() && rs2[j2] == rs1[i2];
    assert(contributes(rs2[j2]) && win(rs2[j2]).latest == a1.end);
    assert(a1.end >= a2.end);
}

/// Permuting the response list before running the matching engine changes
/// neither `has_match`, `start`, `end` nor `attendee_count`.
pub proof fn lemma_matching_symmetric(ping_id: Id, rs1: Seq<ResponseView>, rs2: Seq<ResponseView>)
    requires
        rs1.to_multiset() == rs2.to_multiset(),
    ensures
        match_results_spec(ping_id, rs1) == match_results_spec(ping_id, rs2),
{
    lemma_match_acc_permutation(rs1, rs2);
}

/// Running the matching engine twice on the same response list yields
/// identical results: its outcome is a function of the responses alone, so a
/// recomputation over an unchanged response list reproduces the stored
/// result.
pub proof fn lemma_matching_idempotent(
    ping_id: Id,
    rs: Seq<ResponseView>,
    r1: MatchResults,
    r2: MatchResults,
)
    requires
        r1 == match_results_spec(ping_id, rs),
        r2 == match_results_spec(ping_id, rs),
    ensures
        r1 == r2,
{
}

/// The matching engine. A pure function over a ping's responses.
pub struct MatchingEngine;

impl MatchingEngine {
    /// Computes whether, and over what window, the contributing responders'
    /// availability overlaps.
    pub fn calculate_match(ping: &Ping) -> (r: MatchResults)
        ensures
            r == match_results_spec(ping.id, ping@.lifecycle.responses()),
    {
        let responses = ping.responses();
        let ghost rs = ping@.lifecycle.responses();
        let mut start: Timestamp = 0;
        let mut end: Timestamp = 0;
        let mut count: usize = 0;
        let mut found: bool = false;
        let mut k: usize = 0;
        while k < responses.len()
            invariant
                rs == responses.deep_view(),
                k <= rs.len(),
                count <= k,
                !found ==> match_acc(rs.take(k as int)) is None && count == 0,
                found ==> match_acc(rs.take(k as int)) == Some(
                    MatchAcc { start, end, count: count as int },
                ),
            decreases rs.len() - k,
        {
            proof {
                assert(rs.take(k as int + 1).drop_last() =~= rs.take(k as int));
                assert(rs.take(k as int + 1).last() == rs[k as int]);
            }
            let contributing = responses[k].answer && responses[k].availability.is_some();
            proof {
                assert(contributing == contributes(rs[k as int]));
            }
            if contributing {
                let window = match &responses[k].availability {
                    Some(w) => *w,
                    None => unreached(),
                };
                proof {
                    assert(window == win(rs[k as int]));
                }
                if !found {
                    start = window.earliest;
                    end = window.latest;
                    count = 1;
                    found = true;
                } else {
                    if window.earliest > start {
                        start = window.earliest;
                    }
                    if window.latest < end {
                        end = window.latest;
                    }
                    count = count + 1;
                }
            }
            k = k + 1;
        }
        proof {
            assert(rs.take(rs.len() as int) =~= rs);
        }
        if !found {
            return MatchResults { ping_id: ping.id, overlap: None, has_match: false };
        }
        if start >= end {
            return MatchResults { ping_id: ping.id, overlap: None, has_match: false };
        }
        MatchResults {
            ping_id: ping.id,
            overlap: Some(TimeOverlap { start, end, attendee_count: count }),
            has_match: true,
        }
    }
}

} // verus!
