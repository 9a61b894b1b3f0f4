//! What each step of the learning loop decides.
use vstd::prelude::*;

use crate::db::error::DbError;
use crate::db::kle_merge_requests::MergeRequestStatus;
use crate::db::kle_pending_observations::ObservationPendingStatus;
use crate::kle::error::KleError;
use crate::kle::types::{CaptureOutcome, MergeDecision, PendingDecision};

verus! {

/// What capturing an entry does: confidence at or above the novelty
/// threshold stages nothing; below it, the entry is staged and its terms
/// mined. The confidence snapshot is logged either way.
#[derive(Debug, Clone, Copy, PartialEq, Eq, Structural)]
pub enum CapturePlan {
    LeaveUnstaged,
    StageAndMine,
}

pub fn plan_capture(below_novelty_threshold: bool) -> (r: CapturePlan)
    ensures
        below_novelty_threshold <==> r == CapturePlan::StageAndMine,
{
    if below_novelty_threshold {
        CapturePlan::StageAndMine
    } else {
        CapturePlan::LeaveUnstaged
    }
}

/// The outcome reported for a capture: the staged id when staged.
pub fn capture_outcome(plan: CapturePlan, staged_id: i64) -> (r: CaptureOutcome)
    ensures
        plan == CapturePlan::LeaveUnstaged ==> r == CaptureOutcome::ConfidentMatch,
        plan == CapturePlan::StageAndMine ==> r == CaptureOutcome::Staged(staged_id),
{
    match plan {
        CapturePlan::LeaveUnstaged => CaptureOutcome::ConfidentMatch,
        CapturePlan::StageAndMine => CaptureOutcome::Staged(staged_id),
    }
}

/// What resolving a pending observation writes.
#[derive(Debug, Clone, Copy, PartialEq, Eq, Structural)]
pub struct PendingResolution {
    pub new_status: ObservationPendingStatus,
    /// Whether an approval event is logged against the entry hash.
    pub log_approval: bool,
}

/// The status an Admin decision gives a pending observation.
pub open spec fn decided_status(decision: PendingDecision) -> ObservationPendingStatus {
    match decision {
        PendingDecision::Approve => ObservationPendingStatus::Approved,
        PendingDecision::Reject => ObservationPendingStatus::Rejected,
    }
}

/// Resolving a staged observation: only one still `Pending` can be resolved
/// (a missing or already-resolved one is `NotPending`); approving marks it
/// `Approved` and logs an approval, rejecting marks it `Rejected` and logs
/// nothing.
pub fn plan_pending_resolution(
    id: i64,
    current: Option<ObservationPendingStatus>,
    decision: PendingDecision,
) -> (r: Result<PendingResolution, KleError>)
    ensures
        current == Some(ObservationPendingStatus::Pending) ==> (r matches Ok(p) && p.new_status
            == decided_status(decision) && p.log_approval == (decision == PendingDecision::Approve)),
        current != Some(ObservationPendingStatus::Pending) ==> (r matches Err(KleError::NotPending(
            i,
        )) && i == id),
{
    match current {
        Some(ObservationPendingStatus::Pending) => {
            let new_status = match decision {
                PendingDecision::Approve => ObservationPendingStatus::Approved,
                PendingDecision::Reject => ObservationPendingStatus::Rejected,
            };
            let log_approval = match decision {
                PendingDecision::Approve => true,
                PendingDecision::Reject => false,
            };
            Ok(PendingResolution { new_status, log_approval })
        },
        _ => Err(KleError::NotPending(id)),
    }
}

/// Once resolved, a pending observation cannot be resolved again.
pub proof fn lemma_resolution_is_final(decision: PendingDecision)
    ensures
        decided_status(decision) != ObservationPendingStatus::Pending,
{
}

/// What resolving a merge request writes: new statuses for the candidates,
/// in order, and the request's own new status.
#[derive(Debug, Clone, PartialEq)]
pub struct MergeResolution {
    pub candidate_updates: Vec<(i64, ObservationPendingStatus)>,
    pub request_status: MergeRequestStatus,
}

/// The candidate updates a merge decision makes.
pub open spec fn merge_updates(a: i64, b: i64, decision: MergeDecision) -> Seq<
    (i64, ObservationPendingStatus),
> {
    match decision {
        MergeDecision::Merge => seq![(b, ObservationPendingStatus::Merged)],
        MergeDecision::KeepBoth => Seq::empty(),
        MergeDecision::Discard => seq![
            (a, ObservationPendingStatus::Rejected),
            (b, ObservationPendingStatus::Rejected),
        ],
    }
}

/// The status a merge decision gives the request.
pub open spec fn merge_request_outcome(decision: MergeDecision) -> MergeRequestStatus {
    match decision {
        MergeDecision::Merge => MergeRequestStatus::Merged,
        MergeDecision::KeepBoth => MergeRequestStatus::KeptBoth,
        MergeDecision::Discard => MergeRequestStatus::Discarded,
    }
}

/// Resolving a merge request between candidates A and B (`None` when the
/// request does not exist): merging folds B away as `Merged`, keeping both
/// changes no candidate, discarding rejects both; the request takes the
/// matching status.
pub fn plan_merge_resolution(candidates: Option<(i64, i64)>, decision: MergeDecision) -> (r: Result<
    MergeResolution,
    KleError,
>)
    ensures
        match candidates {
            Some((a, b)) => r matches Ok(m) && m.candidate_updates@ == merge_updates(a, b, decision)
                && m.request_status == merge_request_outcome(decision),
            None => r matches Err(KleError::Db(DbError::NotFound)),
        },
{
    let (a, b) = match candidates {
        Some(p) => p,
        None => return Err(KleError::Db(DbError::NotFound)),
    };
    let mut updates: Vec<(i64, ObservationPendingStatus)> = Vec::new();
    let request_status = match decision {
        MergeDecision::Merge => {
            updates.push((b, ObservationPendingStatus::Merged));
            MergeRequestStatus::Merged
        },
        MergeDecision::KeepBoth => MergeRequestStatus::KeptBoth,
        MergeDecision::Discard => {
            updates.push((a, ObservationPendingStatus::Rejected));
            updates.push((b, ObservationPendingStatus::Rejected));
            MergeRequestStatus::Discarded
        },
    };
    assert(updates@ =~= merge_updates(a, b, decision));
    Ok(MergeResolution { candidate_updates: updates, request_status })
}

/// Merging never touches candidate A, and no decision leaves a candidate
/// `Pending` or `Approved`.
pub proof fn lemma_merge_keeps_survivor(a: i64, b: i64, decision: MergeDecision)
    requires
        a != b,
    ensures
        decision == MergeDecision::Merge ==> forall|k: int|
            0 <= k < merge_updates(a, b, decision).len() ==> merge_updates(a, b, decision)[k].0
                != a,
        forall|k: int|
            0 <= k < merge_updates(a, b, decision).len() ==> merge_updates(a, b, decision)[k].1
                != ObservationPendingStatus::Pending && merge_updates(a, b, decision)[k].1
                != ObservationPendingStatus::Approved,
{
}

/// Publishing a staged observation requires it to exist (`NotFound`) and to
/// have been approved (`NotApproved`); a published observation is marked
/// `Merged`.
pub fn check_publishable(pending_id: i64, current: Option<ObservationPendingStatus>) -> (r: Result<
    ObservationPendingStatus,
    KleError,
>)
    ensures
        current is None ==> r matches Err(KleError::Db(DbError::NotFound)),
        (current matches Some(s) && s != ObservationPendingStatus::Approved) ==> (r matches Err(
            KleError::NotApproved(i),
        ) && i == pending_id),
        current == Some(ObservationPendingStatus::Approved) ==> (r matches Ok(s) && s
            == ObservationPendingStatus::Merged),
{
    match current {
        None => Err(KleError::Db(DbError::NotFound)),
        Some(ObservationPendingStatus::Approved) => Ok(ObservationPendingStatus::Merged),
        Some(_) => Err(KleError::NotApproved(pending_id)),
    }
}

/// The pairs `(i, k)` with `i < k < end` whose similarity meets the
/// threshold, in increasing `k`.
pub open spec fn similar_in_row(meets: Seq<Seq<bool>>, i: int, end: int) -> Seq<(int, int)>
    decreases end - i,
{
    if end <= i + 1 {
        Seq::empty()
    } else if meets[i][end - 1] {
        similar_in_row(meets, i, end - 1).push((i, end - 1))
    } else {
        similar_in_row(meets, i, end - 1)
    }
}

/// The pairs `(i, k)` with `i < rows` and `i < k < n` whose similarity meets
/// the threshold, in the order of a nested scan: by `i`, then by `k`.
pub open spec fn similar_pairs(meets: Seq<Seq<bool>>, rows: int, n: int) -> Seq<(int, int)>
    decreases rows,
{
    if rows <= 0 {
        Seq::empty()
    } else {
        similar_pairs(meets, rows - 1, n) + similar_in_row(meets, rows - 1, n)
    }
}

pub open spec fn index_pairs(s: Seq<(usize, usize)>) -> Seq<(int, int)> {
    s.map_values(|p: (usize, usize)| (p.0 as int, p.1 as int))
}

/// Which pending observations to open merge requests for: every pair
/// `(i, k)`, `i < k`, of the compared observations whose similarity meets
/// the threshold (`meets[i][k]`), in the order the pairs are scanned.
pub fn pairs_to_merge(meets: &Vec<Vec<bool>>) -> (r: Vec<(usize, usize)>)
    requires
        forall|i: int| 0 <= i < meets@.len() ==> #[trigger] meets@[i]@.len() == meets@.len(),
    ensures
        index_pairs(r@) == similar_pairs(
            meets@.map_values(|row: Vec<bool>| row@),
            meets@.len() as int,
            meets@.len() as int,
        ),
{
    let ghost m = meets@.map_values(|row: Vec<bool>| row@);
    let n = meets.len();
    let mut out: Vec<(usize, usize)> = Vec::new();
    let mut i: usize = 0;
    while i < n
        invariant
            n == meets@.len(),
            m == meets@.map_values(|row: Vec<bool>| row@),
            forall|a: int| 0 <= a < meets@.len() ==> #[trigger] meets@[a]@.len() == meets@.len(),
            0 <= i <= n,
            index_pairs(out@) == similar_pairs(m, i as int, n as int),
        decreases n - i,
    {
        let mut k: usize = i + 1;
        let ghost before_row = out@;
        assert(similar_in_row(m, i as int, k as int) =~= Seq::<(int, int)>::empty());
        assert(index_pairs(out@) =~= similar_pairs(m, i as int, n as int) + similar_in_row(m, i as int, k as int));
        while k < n
            invariant
                n == meets@.len(),
                m == meets@.map_values(|row: Vec<bool>| row@),
                forall|a: int| 0 <= a < meets@.len() ==> #[trigger] meets@[a]@.len() == meets@.len(),
                0 <= i < n,
                i + 1 <= k <= n,
                index_pairs(out@) == similar_pairs(m, i as int, n as int) + similar_in_row(
                    m,
                    i as int,
                    k as int,
                ),
            decreases n - k,
        {
            let ghost prev = out@;
            assert(m[i as int] == meets@[i as int]@);
            if meets[i][k] {
                out.push((i, k));
                assert(index_pairs(out@) =~= index_pairs(prev).push((i as int, k as int)));
            }
            assert(similar_in_row(m, i as int, k + 1) == if m[i as int][k as int] {
                similar_in_row(m, i as int, k as int).push((i as int, k as int))
            } else {
                similar_in_row(m, i as int, k as int)
            });
            k = k + 1;
        }
        assert(similar_pairs(m, i + 1, n as int) == similar_pairs(m, i as int, n as int)
            + similar_in_row(m, i as int, n as int));
        i = i + 1;
    }
    out
}

/// Every pair chosen is ordered, in range, and meets the threshold.
pub proof fn lemma_similar_pairs_sound(meets: Seq<Seq<bool>>, rows: int, n: int, p: (int, int))
    requires
        similar_pairs(meets, rows, n).contains(p),
    ensures
        0 <= p.0 < rows,
        p.0 < p.1 < n,
        meets[p.0][p.1],
    decreases rows,
{
    if rows > 0 {
        let prev = similar_pairs(meets, rows - 1, n);
        let row = similar_in_row(meets, rows - 1, n);
        let k = choose|k: int| 0 <= k < (prev + row).len() && (prev + row)[k] == p;
        if k < prev.len() {
            assert(prev[k] == p);
            lemma_similar_pairs_sound(meets, rows - 1, n, p);
        } else {
            assert(row[k - prev.len()] == p);
            lemma_similar_in_row_sound(meets, rows - 1, n, p);
        }
    }
}

/// Every ordered pair that meets the threshold is chosen.
pub proof fn lemma_similar_pairs_complete(meets: Seq<Seq<bool>>, rows: int, n: int, a: int, b: int)
    requires
        0 <= a < rows,
        a < b < n,
        meets[a][b],
    ensures
        similar_pairs(meets, rows, n).contains((a, b)),
    decreases rows,
{
    let prev = similar_pairs(meets, rows - 1, n);
    let row = similar_in_row(meets, rows - 1, n);
    if a < rows - 1 {
        lemma_similar_pairs_complete(meets, rows - 1, n, a, b);
        let k = choose|k: int| 0 <= k < prev.len() && prev[k] == (a, b);
        assert((prev + row)[k] == (a, b));
    } else {
        lemma_similar_in_row_complete(meets, a, n, b);
        let k = choose|k: int| 0 <= k < row.len() && row[k] == (a, b);
        assert((prev + row)[prev.len() + k] == (a, b));
    }
}

proof fn lemma_similar_in_row_complete(meets: Seq<Seq<bool>>, i: int, end: int, b: int)
    requires
        i < b < end,
        meets[i][b],
    ensures
        similar_in_row(meets, i, end).contains((i, b)),
    decreases end - i,
{
    let prev = similar_in_row(meets, i, end - 1);
    if b == end - 1 {
        assert(similar_in_row(meets, i, end) == prev.push((i, b)));
        assert(prev.push((i, b))[prev.len() as int] == (i, b));
    } else {
        lemma_similar_in_row_complete(meets, i, end - 1, b);
        let k = choose|k: int| 0 <= k < prev.len() && prev[k] == (i, b);
        if meets[i][end - 1] {
            assert(prev.push((i, end - 1))[k] == (i, b));
        }
    }
}

/// Each unordered pair is chosen at most once: the chosen pairs are distinct,
/// and each is written with its smaller index first.
pub proof fn lemma_each_pair_chosen_once(meets: Seq<Seq<bool>>, n: int)
    ensures
        forall|a: int, b: int|
            0 <= a < b < similar_pairs(meets, n, n).len() ==> #[trigger] similar_pairs(
                meets,
                n,
                n,
            )[a] != #[trigger] similar_pairs(meets, n, n)[b],
        forall|k: int|
            0 <= k < similar_pairs(meets, n, n).len() ==> #[trigger] similar_pairs(meets, n, n)[k].0
                < similar_pairs(meets, n, n)[k].1,
{
    lemma_similar_pairs_increasing(meets, n, n);
}

/// `p` comes before `q` in scan order.
pub open spec fn scanned_before(p: (int, int), q: (int, int)) -> bool {
    p.0 < q.0 || (p.0 == q.0 && p.1 < q.1)
}

proof fn lemma_similar_pairs_increasing(meets: Seq<Seq<bool>>, rows: int, n: int)
    ensures
        forall|a: int, b: int|
            0 <= a < b < similar_pairs(meets, rows, n).len() ==> scanned_before(
                #[trigger] similar_pairs(meets, rows, n)[a],
                #[trigger] similar_pairs(meets, rows, n)[b],
            ),
        forall|k: int|
            0 <= k < similar_pairs(meets, rows, n).len() ==> #[trigger] similar_pairs(
                meets,
                rows,
                n,
            )[k].0 < rows && similar_pairs(meets, rows, n)[k].0 < similar_pairs(meets, rows, n)[k].1,
    decreases rows,
{
    if rows > 0 {
        lemma_similar_pairs_increasing(meets, rows - 1, n);
        lemma_similar_in_row_increasing(meets, rows - 1, n);
        let prev = similar_pairs(meets, rows - 1, n);
        let row = similar_in_row(meets, rows - 1, n);
        let all = similar_pairs(meets, rows, n);
        assert(all == prev + row);
        assert forall|a: int, b: int| 0 <= a < b < all.len() implies scanned_before(
            #[trigger] all[a],
            #[trigger] all[b],
        ) by {
            if b < prev.len() {
                assert(all[a] == prev[a]);
                assert(all[b] == prev[b]);
            } else if a < prev.len() {
                assert(all[a] == prev[a]);
                assert(all[b] == row[b - prev.len()]);
            } else {
                assert(all[a] == row[a - prev.len()]);
                assert(all[b] == row[b - prev.len()]);
            }
        }
        assert forall|k: int| 0 <= k < all.len() implies #[trigger] all[k].0 < rows && all[k].0
            < all[k].1 by {
            if k < prev.len() {
                assert(all[k] == prev[k]);
            } else {
                assert(all[k] == row[k - prev.len()]);
            }
        }
    }
}

proof fn lemma_similar_in_row_increasing(meets: Seq<Seq<bool>>, i: int, end: int)
    ensures
        forall|a: int, b: int|
            0 <= a < b < similar_in_row(meets, i, end).len() ==> #[trigger] similar_in_row(
                meets,
                i,
                end,
            )[a].1 < #[trigger] similar_in_row(meets, i, end)[b].1,
        forall|k: int|
            0 <= k < similar_in_row(meets, i, end).len() ==> #[trigger] similar_in_row(
                meets,
                i,
                end,
            )[k].0 == i && i < similar_in_row(meets, i, end)[k].1 < end,
    decreases end - i,
{
    if end > i + 1 {
        lemma_similar_in_row_increasing(meets, i, end - 1);
        let prev = similar_in_row(meets, i, end - 1);
        let row = similar_in_row(meets, i, end);
        if meets[i][end - 1] {
            assert(row == prev.push((i, end - 1)));
            assert forall|a: int, b: int| 0 <= a < b < row.len() implies #[trigger] row[a].1
                < #[trigger] row[b].1 by {
                assert(row[a] == prev[a]);
                if b < prev.len() {
                    assert(row[b] == prev[b]);
                } else {
                    assert(prev.contains(prev[a]));
                    lemma_similar_in_row_sound(meets, i, end - 1, prev[a]);
                    assert(row[b] == (i, end - 1));
                }
            }
            assert forall|k: int| 0 <= k < row.len() implies #[trigger] row[k].0 == i && i
                < row[k].1 < end by {
                if k < prev.len() {
                    assert(row[k] == prev[k]);
                }
            }
        } else {
            assert(row == prev);
        }
    }
}

proof fn lemma_similar_in_row_sound(meets: Seq<Seq<bool>>, i: int, end: int, p: (int, int))
    requires
        similar_in_row(meets, i, end).contains(p),
    ensures
        p.0 == i,
        i < p.1 < end,
        meets[p.0][p.1],
    decreases end - i,
{
    if end > i + 1 {
        let prev = similar_in_row(meets, i, end - 1);
        if meets[i][end - 1] {
            if p != (i, end - 1) {
                let pushed = prev.push((i, end - 1));
                let k = choose|k: int| 0 <= k < pushed.len() && #[trigger] pushed[k] == p;
                assert(prev[k] == p);
                lemma_similar_in_row_sound(meets, i, end - 1, p);
            }
        } else {
            lemma_similar_in_row_sound(meets, i, end - 1, p);
        }
    }
}

} // verus!
