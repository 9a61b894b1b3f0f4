//! Single-audit analytics: counts by risk level, category, department and
//! Stage 3 outcome, and the ranking of the most common labels.
use vstd::prelude::*;
use vstd::string::StringExecFns;

use crate::db::stage2_assessments::{RiskLevel, Stage2Assessment};
use crate::db::stage3_matches::Stage3MatchStatus;
use crate::text::{lemma_text_lt_order, str_eq, text_less, text_lt};

verus! {

/// Number of assessments at each risk level.
#[derive(Debug, Clone, Copy, PartialEq, Eq, Default)]
pub struct RiskLevelCounts {
    pub low: usize,
    pub medium: usize,
    pub high: usize,
    pub critical: usize,
}

/// Number of Stage 3 rows in each status.
#[derive(Debug, Clone, Copy, PartialEq, Eq, Default)]
pub struct Stage3StatusCounts {
    pub matched: usize,
    pub written: usize,
    pub escalated: usize,
}

/// A label together with how many records carry it.
#[derive(Debug, Clone, PartialEq)]
pub struct LabeledCount {
    pub label: String,
    pub count: usize,
}

/// The value a labelled count stands for.
pub open spec fn count_view(x: LabeledCount) -> (Seq<char>, usize) {
    (x.label@, x.count)
}

pub open spec fn count_views(s: Seq<LabeledCount>) -> Seq<(Seq<char>, usize)> {
    s.map_values(|x: LabeledCount| count_view(x))
}

/// Ranking order of labelled counts: larger counts first, ties broken by
/// the label in ascending byte order.
pub open spec fn ranks_before(a: (Seq<char>, usize), b: (Seq<char>, usize)) -> bool {
    a.1 > b.1 || (a.1 == b.1 && text_lt(a.0, b.0))
}

/// No label occurs twice.
pub open spec fn distinct_labels(s: Seq<(Seq<char>, usize)>) -> bool {
    forall|i: int, j: int| 0 <= i < s.len() && 0 <= j < s.len() && i != j ==> s[i].0 != s[j].0
}

/// `ranks_before` is a strict total order on counts with distinct labels.
pub proof fn lemma_ranks_before_order(
    a: (Seq<char>, usize),
    b: (Seq<char>, usize),
    c: (Seq<char>, usize),
)
    ensures
        !ranks_before(a, a),
        ranks_before(a, b) && ranks_before(b, c) ==> ranks_before(a, c),
        a.0 != b.0 ==> ranks_before(a, b) || ranks_before(b, a),
        ranks_before(a, b) ==> !ranks_before(b, a),
{
    lemma_text_lt_order(a.0, b.0, c.0);
}

/// Rankings put the more common label first; between equally common labels,
/// the one earlier in byte order comes first.
pub proof fn lemma_more_common_ranks_first(a: (Seq<char>, usize), b: (Seq<char>, usize))
    ensures
        a.1 > b.1 ==> ranks_before(a, b),
        ranks_before(a, b) ==> a.1 >= b.1,
        a.1 == b.1 ==> (ranks_before(a, b) <==> text_lt(a.0, b.0)),
{
}

/// In a top ranking, counts never increase down the list.
pub proof fn lemma_top_ranking_most_common_first(
    r: Seq<(Seq<char>, usize)>,
    s: Seq<Option<Seq<char>>>,
    n: nat,
)
    requires
        is_top_ranking(r, s, n),
    ensures
        forall|i: int, j: int| 0 <= i < j < r.len() ==> #[trigger] r[i].1 >= #[trigger] r[j].1,
{
    assert forall|i: int, j: int| 0 <= i < j < r.len() implies #[trigger] r[i].1 >= #[trigger] r[j].1 by {
        lemma_more_common_ranks_first(r[i], r[j]);
    }
}

/// Whether `a` ranks before `b`.
pub fn ranks_ahead(a: &LabeledCount, b: &LabeledCount) -> (r: bool)
    ensures
        r == ranks_before(count_view(*a), count_view(*b)),
{
    if a.count != b.count {
        a.count > b.count
    } else {
        text_less(a.label.as_str(), b.label.as_str())
    }
}

/// The `n` highest-ranked labels, most common first and ties in ascending
/// label order. The input holds each label once, as a tally does.
pub fn top_n(counts: Vec<LabeledCount>, n: usize) -> (r: Vec<LabeledCount>)
    requires
        distinct_labels(count_views(counts@)),
    ensures
        r@.len() == if n < counts@.len() {
            n as int
        } else {
            counts@.len() as int
        },
        forall|i: int, j: int|
            0 <= i < j < r@.len() ==> ranks_before(count_view(r@[i]), count_view(r@[j])),
        forall|i: int, j: int| 0 <= i < j < r@.len() ==> #[trigger] r@[i].count >= #[trigger] r@[j].count,
        forall|i: int|
            0 <= i < r@.len() ==> count_views(counts@).contains(#[trigger] count_view(r@[i])),
        forall|k: int, i: int|
            0 <= k < counts@.len() && 0 <= i < r@.len() && !count_views(r@).contains(
                count_view(counts@[k]),
            ) ==> #[trigger] ranks_before(count_view(r@[i]), count_view(counts@[k])),
        r@.len() < n ==> forall|k: int|
            0 <= k < counts@.len() ==> count_views(r@).contains(#[trigger] count_view(counts@[k])),
{
    let ghost input = count_views(counts@);
    let mut rest = counts;
    let mut out: Vec<LabeledCount> = Vec::new();
    assert forall|k: int| 0 <= k < rest@.len() implies input.contains(
        #[trigger] count_view(rest@[k]),
    ) by {
        assert(input[k] == count_view(rest@[k]));
    }
    while out.len() < n && rest.len() > 0
        invariant
            input.len() == out@.len() + rest@.len(),
            out@.len() <= n,
            distinct_labels(count_views(rest@)),
            forall|i: int, j: int|
                0 <= i < j < out@.len() ==> ranks_before(count_view(out@[i]), count_view(out@[j])),
            forall|i: int, k: int|
                0 <= i < out@.len() && 0 <= k < rest@.len() ==> ranks_before(
                    count_view(out@[i]),
                    count_view(rest@[k]),
                ),
            forall|i: int| 0 <= i < out@.len() ==> input.contains(#[trigger] count_view(out@[i])),
            forall|k: int| 0 <= k < rest@.len() ==> input.contains(#[trigger] count_view(rest@[k])),
            forall|k: int|
                0 <= k < input.len() ==> count_views(out@).contains(#[trigger] input[k])
                    || count_views(rest@).contains(input[k]),
        decreases rest@.len(),
    {
        // Find the highest-ranked remaining entry.
        let mut best: usize = 0;
        let mut j: usize = 1;
        while j < rest.len()
            invariant
                0 <= best < j <= rest@.len(),
                distinct_labels(count_views(rest@)),
                forall|k: int|
                    0 <= k < j && k != best ==> ranks_before(
                        count_view(rest@[best as int]),
                        count_view(#[trigger] rest@[k]),
                    ),
            decreases rest@.len() - j,
        {
            if ranks_ahead(&rest[j], &rest[best]) {
                proof {
                    assert forall|k: int| 0 <= k < j + 1 && k != j implies ranks_before(
                        count_view(rest@[j as int]),
                        count_view(#[trigger] rest@[k]),
                    ) by {
                        if k != best {
                            lemma_ranks_before_order(
                                count_view(rest@[j as int]),
                                count_view(rest@[best as int]),
                                count_view(rest@[k]),
                            );
                        }
                    }
                }
                best = j;
            } else {
                proof {
                    assert(count_views(rest@)[j as int] == count_view(rest@[j as int]));
                    assert(count_views(rest@)[best as int] == count_view(rest@[best as int]));
                    lemma_ranks_before_order(
                        count_view(rest@[best as int]),
                        count_view(rest@[j as int]),
                        count_view(rest@[j as int]),
                    );
                }
            }
            j = j + 1;
        }
        let ghost old_rest = rest@;
        let ghost old_out = out@;
        let item = rest.remove(best);
        proof {
            assert(rest@ == old_rest.remove(best as int));
            assert(count_view(item) == count_view(old_rest[best as int]));
        }
        out.push(item);
        proof {
            assert(out@ == old_out.push(item));
            assert forall|i: int, k: int|
                0 <= i < count_views(rest@).len() && 0 <= k < count_views(rest@).len() && i != k
                    implies count_views(rest@)[i].0 != count_views(rest@)[k].0 by {
                let i0 = if i < best { i } else { i + 1 };
                let k0 = if k < best { k } else { k + 1 };
                assert(count_views(rest@)[i] == count_views(old_rest)[i0]);
                assert(count_views(rest@)[k] == count_views(old_rest)[k0]);
            }
            assert forall|i: int, k: int|
                0 <= i < out@.len() && 0 <= k < rest@.len() implies ranks_before(
                    count_view(out@[i]),
                    count_view(rest@[k]),
                ) by {
                let k0 = if k < best { k } else { k + 1 };
                assert(rest@[k] == old_rest[k0]);
                if i < old_out.len() {
                    assert(out@[i] == old_out[i]);
                } else {
                    assert(out@[i] == item);
                }
            }
            assert forall|i: int, j: int|
                0 <= i < j < out@.len() implies ranks_before(
                    count_view(out@[i]),
                    count_view(out@[j]),
                ) by {
                if j < old_out.len() {
                    assert(out@[i] == old_out[i]);
                    assert(out@[j] == old_out[j]);
                } else {
                    assert(out@[i] == old_out[i]);
                    assert(out@[j] == item);
                }
            }
            assert forall|i: int| 0 <= i < out@.len() implies input.contains(
                #[trigger] count_view(out@[i]),
            ) by {
                if i < old_out.len() {
                    assert(out@[i] == old_out[i]);
                } else {
                    assert(out@[i] == item);
                }
            }
            assert forall|k: int| 0 <= k < rest@.len() implies input.contains(
                #[trigger] count_view(rest@[k]),
            ) by {
                let k0 = if k < best { k } else { k + 1 };
                assert(rest@[k] == old_rest[k0]);
            }
            assert forall|k: int| 0 <= k < input.len() implies count_views(out@).contains(
                #[trigger] input[k],
            ) || count_views(rest@).contains(input[k]) by {
                if count_views(old_out).contains(input[k]) {
                    let i = choose|i: int|
                        0 <= i < count_views(old_out).len() && count_views(old_out)[i]
                            == input[k];
                    assert(count_views(out@)[i] == count_views(old_out)[i]);
                } else {
                    let m = choose|m: int|
                        0 <= m < count_views(old_rest).len() && count_views(old_rest)[m]
                            == input[k];
                    if m == best {
                        assert(count_views(out@)[old_out.len() as int] == count_view(item));
                    } else {
                        let m1 = if m < best { m } else { m - 1 };
                        assert(count_views(rest@)[m1] == count_views(old_rest)[m]);
                    }
                }
            }
        }
    }
    proof {
        assert forall|k: int, i: int|
            0 <= k < counts@.len() && 0 <= i < out@.len() && !count_views(out@).contains(
                count_view(counts@[k]),
            ) implies #[trigger] ranks_before(count_view(out@[i]), count_view(counts@[k])) by {
            assert(input[k] == count_view(counts@[k]));
            let m = choose|m: int|
                0 <= m < count_views(rest@).len() && count_views(rest@)[m] == input[k];
            assert(count_views(rest@)[m] == count_view(rest@[m]));
        }
        assert forall|i: int, j: int| 0 <= i < j < out@.len() implies #[trigger] out@[i].count
            >= #[trigger] out@[j].count by {
            lemma_more_common_ranks_first(count_view(out@[i]), count_view(out@[j]));
        }
        if out@.len() < n {
            assert forall|k: int| 0 <= k < counts@.len() implies count_views(out@).contains(
                #[trigger] count_view(counts@[k]),
            ) by {
                assert(input[k] == count_view(counts@[k]));
            }
        }
    }
    out
}

/// The texts of a list of optional strings.
pub open spec fn opt_texts(s: Seq<Option<String>>) -> Seq<Option<Seq<char>>> {
    s.map_values(
        |o: Option<String>|
            match o {
                Some(x) => Some(x@),
                None => None,
            },
    )
}

/// How many entries of `s` carry label `l`.
pub open spec fn occurrences(s: Seq<Option<Seq<char>>>, l: Seq<char>) -> nat
    decreases s.len(),
{
    if s.len() == 0 {
        0
    } else {
        occurrences(s.drop_last(), l) + if s.last() == Some(l) {
            1nat
        } else {
            0nat
        }
    }
}

/// Position of the entry labelled `l`, if there is one.
pub fn find_label(counts: &Vec<LabeledCount>, l: &str) -> (r: Option<usize>)
    ensures
        r matches Some(j) ==> j < counts@.len() && counts@[j as int].label@ == l@,
        r is None ==> forall|j: int| 0 <= j < counts@.len() ==> counts@[j].label@ != l@,
{
    let mut j: usize = 0;
    while j < counts.len()
        invariant
            0 <= j <= counts@.len(),
            forall|k: int| 0 <= k < j ==> counts@[k].label@ != l@,
        decreases counts@.len() - j,
    {
        if str_eq(counts[j].label.as_str(), l) {
            return Some(j);
        }
        j = j + 1;
    }
    None
}

/// Tallies how many entries carry each label; entries without a label are
/// not counted. Each label appears once, in order of first appearance.
pub fn tally_labels(labels: &Vec<Option<String>>) -> (r: Vec<LabeledCount>)
    ensures
        distinct_labels(count_views(r@)),
        forall|j: int|
            0 <= j < r@.len() ==> #[trigger] r@[j].count == occurrences(
                opt_texts(labels@),
                r@[j].label@,
            ) && r@[j].count > 0,
        forall|l: Seq<char>|
            #[trigger] occurrences(opt_texts(labels@), l) > 0 ==> exists|j: int|
                0 <= j < r@.len() && r@[j].label@ == l,
{
    let ghost all = opt_texts(labels@);
    let mut out: Vec<LabeledCount> = Vec::new();
    let mut i: usize = 0;
    assert(all.take(0) =~= Seq::<Option<Seq<char>>>::empty());
    while i < labels.len()
        invariant
            all == opt_texts(labels@),
            0 <= i <= labels@.len(),
            distinct_labels(count_views(out@)),
            forall|j: int|
                0 <= j < out@.len() ==> #[trigger] out@[j].count == occurrences(
                    all.take(i as int),
                    out@[j].label@,
                ) && out@[j].count > 0 && out@[j].count <= i,
            forall|l: Seq<char>|
                #[trigger] occurrences(all.take(i as int), l) > 0 ==> exists|j: int|
                    0 <= j < out@.len() && out@[j].label@ == l,
        decreases labels@.len() - i,
    {
        let ghost before = all.take(i as int);
        let ghost after = all.take(i + 1);
        let ghost old_out = out@;
        proof {
            assert(after.drop_last() =~= before);
            assert(after.last() == all[i as int]);
        }
        match &labels[i] {
            None => {
                proof {
                    assert(all[i as int] is None);
                    assert forall|l: Seq<char>| occurrences(after, l) == occurrences(before, l) by {}
                }
            },
            Some(label) => {
                proof {
                    assert(all[i as int] == Some(label@));
                }
                match find_label(&out, label.as_str()) {
                    Some(j) => {
                        let c = out[j].count;
                        out.set(j, LabeledCount { label: label.clone(), count: c + 1 });
                        proof {
                            assert forall|a: int, b: int|
                                0 <= a < count_views(out@).len() && 0 <= b < count_views(out@).len()
                                    && a != b implies count_views(out@)[a].0 != count_views(
                                out@,
                            )[b].0 by {
                                assert(count_views(out@)[a].0 == count_views(old_out)[a].0);
                                assert(count_views(out@)[b].0 == count_views(old_out)[b].0);
                            }
                            assert forall|k: int| 0 <= k < out@.len() implies #[trigger] out@[k].count
                                == occurrences(after, out@[k].label@) && out@[k].count > 0
                                && out@[k].count <= i + 1 by {
                                if k != j {
                                    assert(out@[k] == old_out[k]);
                                    assert(count_views(old_out)[k].0 != count_views(old_out)[j as int].0);
                                }
                            }
                            assert forall|l: Seq<char>| #[trigger]
                                occurrences(after, l) > 0 implies exists|k: int|
                                0 <= k < out@.len() && out@[k].label@ == l by {
                                if l == label@ {
                                    assert(out@[j as int].label@ == l);
                                } else {
                                    assert(occurrences(before, l) > 0);
                                    let k = choose|k: int| 0 <= k < old_out.len() && old_out[k].label@ == l;
                                    assert(out@[k].label@ == old_out[k].label@);
                                }
                            }
                        }
                    },
                    None => {
                        out.push(LabeledCount { label: label.clone(), count: 1 });
                        proof {
                            assert(occurrences(before, label@) == 0) by {
                                if occurrences(before, label@) > 0 {
                                    let k = choose|k: int| 0 <= k < old_out.len() && old_out[k].label@ == label@;
                                }
                            }
                            assert forall|a: int, b: int|
                                0 <= a < count_views(out@).len() && 0 <= b < count_views(out@).len()
                                    && a != b implies count_views(out@)[a].0 != count_views(
                                out@,
                            )[b].0 by {
                                if a < old_out.len() {
                                    assert(count_views(out@)[a] == count_views(old_out)[a]);
                                }
                                if b < old_out.len() {
                                    assert(count_views(out@)[b] == count_views(old_out)[b]);
                                }
                            }
                            assert forall|k: int| 0 <= k < out@.len() implies #[trigger] out@[k].count
                                == occurrences(after, out@[k].label@) && out@[k].count > 0
                                && out@[k].count <= i + 1 by {
                                if k < old_out.len() {
                                    assert(out@[k] == old_out[k]);
                                }
                            }
                            assert forall|l: Seq<char>| #[trigger]
                                occurrences(after, l) > 0 implies exists|k: int|
                                0 <= k < out@.len() && out@[k].label@ == l by {
                                if l == label@ {
                                    assert(out@[old_out.len() as int].label@ == l);
                                } else {
                                    assert(occurrences(before, l) > 0);
                                    let k = choose|k: int| 0 <= k < old_out.len() && old_out[k].label@ == l;
                                    assert(out@[k] == old_out[k]);
                                }
                            }
                        }
                    },
                }
            },
        }
        i = i + 1;
    }
    assert(all.take(labels@.len() as int) =~= all);
    out
}

/// `r` lists the `n` highest-ranked labels of `s` with their numbers of
/// occurrences: most common first, ties in ascending label order, and no
/// label left out that would rank above one listed.
pub open spec fn is_top_ranking(r: Seq<(Seq<char>, usize)>, s: Seq<Option<Seq<char>>>, n: nat) -> bool {
    &&& r.len() <= n
    &&& forall|i: int| 0 <= i < r.len() ==> #[trigger] r[i].1 == occurrences(s, r[i].0) && r[i].1 > 0
    &&& forall|i: int, j: int| 0 <= i < j < r.len() ==> ranks_before(r[i], r[j])
    &&& forall|l: Seq<char>|
        #[trigger] occurrences(s, l) > 0 && !(exists|i: int| 0 <= i < r.len() && r[i].0 == l) ==> {
            &&& r.len() == n
            &&& forall|i: int| 0 <= i < r.len() ==> ranks_before(r[i], (l, occurrences(s, l) as usize))
        }
}

/// The `n` most common labels among `labels`, as the analytics charts show them.
pub fn top_labels(labels: &Vec<Option<String>>, n: usize) -> (r: Vec<LabeledCount>)
    ensures
        is_top_ranking(count_views(r@), opt_texts(labels@), n as nat),
{
    let tally = tally_labels(labels);
    let ghost tv = count_views(tally@);
    let r = top_n(tally, n);
    proof {
        let rv = count_views(r@);
        let s = opt_texts(labels@);
        assert forall|i: int| 0 <= i < rv.len() implies #[trigger] rv[i].1 == occurrences(s, rv[i].0) && rv[i].1 > 0 by {
            assert(rv[i] == count_view(r@[i]));
            assert(tv.contains(count_view(r@[i])));
            let j = choose|j: int| 0 <= j < tv.len() && tv[j] == count_view(r@[i]);
            assert(tv[j] == count_view(tally@[j]));
        }
        assert forall|i: int, j: int| 0 <= i < j < rv.len() implies ranks_before(rv[i], rv[j]) by {
            assert(rv[i] == count_view(r@[i]));
            assert(rv[j] == count_view(r@[j]));
        }
        assert forall|l: Seq<char>|
            #[trigger] occurrences(s, l) > 0 && !(exists|i: int| 0 <= i < rv.len() && rv[i].0 == l) implies {
                &&& rv.len() == n
                &&& forall|i: int| 0 <= i < rv.len() ==> ranks_before(rv[i], (l, occurrences(s, l) as usize))
            } by {
            let j = choose|j: int| 0 <= j < tally@.len() && tally@[j].label@ == l;
            assert(tv[j] == count_view(tally@[j]));
            assert(count_view(tally@[j]) == (l, occurrences(s, l) as usize));
            if rv.contains(count_view(tally@[j])) {
                let i = choose|i: int| 0 <= i < rv.len() && rv[i] == count_view(tally@[j]);
                assert(rv[i].0 == l);
            }
            if rv.len() < n {
                assert(rv.contains(count_view(tally@[j])));
            }
            assert forall|i: int| 0 <= i < rv.len() implies ranks_before(rv[i], (l, occurrences(s, l) as usize)) by {
                assert(rv[i] == count_view(r@[i]));
                assert(ranks_before(count_view(r@[i]), count_view(tally@[j])));
            }
        }
    }
    r
}

/// How many of `s` are at level `level`.
pub open spec fn level_count(s: Seq<RiskLevel>, level: RiskLevel) -> nat
    decreases s.len(),
{
    if s.len() == 0 {
        0
    } else {
        level_count(s.drop_last(), level) + if s.last() == level {
            1nat
        } else {
            0nat
        }
    }
}

/// How many of `s` are in status `status`.
pub open spec fn status_count(s: Seq<Stage3MatchStatus>, status: Stage3MatchStatus) -> nat
    decreases s.len(),
{
    if s.len() == 0 {
        0
    } else {
        status_count(s.drop_last(), status) + if s.last() == status {
            1nat
        } else {
            0nat
        }
    }
}

pub open spec fn risk_levels_of(s: Seq<Stage2Assessment>) -> Seq<RiskLevel> {
    s.map_values(|a: Stage2Assessment| a.risk_level)
}

proof fn lemma_level_count_bounded(s: Seq<RiskLevel>, level: RiskLevel)
    ensures
        level_count(s, level) <= s.len(),
    decreases s.len(),
{
    if s.len() > 0 {
        lemma_level_count_bounded(s.drop_last(), level);
    }
}

proof fn lemma_status_count_bounded(s: Seq<Stage3MatchStatus>, status: Stage3MatchStatus)
    ensures
        status_count(s, status) <= s.len(),
    decreases s.len(),
{
    if s.len() > 0 {
        lemma_status_count_bounded(s.drop_last(), status);
    }
}

/// Counts the assessments at each risk level.
pub fn count_risk_levels(assessments: &Vec<Stage2Assessment>) -> (r: RiskLevelCounts)
    ensures
        r.low == level_count(risk_levels_of(assessments@), RiskLevel::Low),
        r.medium == level_count(risk_levels_of(assessments@), RiskLevel::Medium),
        r.high == level_count(risk_levels_of(assessments@), RiskLevel::High),
        r.critical == level_count(risk_levels_of(assessments@), RiskLevel::Critical),
{
    let ghost all = risk_levels_of(assessments@);
    let mut r = RiskLevelCounts { low: 0, medium: 0, high: 0, critical: 0 };
    let mut i: usize = 0;
    assert(all.take(0) =~= Seq::<RiskLevel>::empty());
    while i < assessments.len()
        invariant
            all == risk_levels_of(assessments@),
            0 <= i <= assessments@.len(),
            r.low == level_count(all.take(i as int), RiskLevel::Low),
            r.medium == level_count(all.take(i as int), RiskLevel::Medium),
            r.high == level_count(all.take(i as int), RiskLevel::High),
            r.critical == level_count(all.take(i as int), RiskLevel::Critical),
        decreases assessments@.len() - i,
    {
        proof {
            assert(all.take(i + 1).drop_last() =~= all.take(i as int));
            assert(all.take(i + 1).last() == assessments@[i as int].risk_level);
            lemma_level_count_bounded(all.take(i as int), RiskLevel::Low);
            lemma_level_count_bounded(all.take(i as int), RiskLevel::Medium);
            lemma_level_count_bounded(all.take(i as int), RiskLevel::High);
            lemma_level_count_bounded(all.take(i as int), RiskLevel::Critical);
        }
        match assessments[i].risk_level {
            RiskLevel::Low => r.low = r.low + 1,
            RiskLevel::Medium => r.medium = r.medium + 1,
            RiskLevel::High => r.high = r.high + 1,
            RiskLevel::Critical => r.critical = r.critical + 1,
        }
        i = i + 1;
    }
    assert(all.take(assessments@.len() as int) =~= all);
    r
}

/// Counts the Stage 3 rows in each status.
pub fn count_stage3_statuses(statuses: &Vec<Stage3MatchStatus>) -> (r: Stage3StatusCounts)
    ensures
        r.matched == status_count(statuses@, Stage3MatchStatus::Matched),
        r.written == status_count(statuses@, Stage3MatchStatus::Written),
        r.escalated == status_count(statuses@, Stage3MatchStatus::Escalated),
{
    let mut r = Stage3StatusCounts { matched: 0, written: 0, escalated: 0 };
    let mut i: usize = 0;
    assert(statuses@.take(0) =~= Seq::<Stage3MatchStatus>::empty());
    while i < statuses.len()
        invariant
            0 <= i <= statuses@.len(),
            r.matched == status_count(statuses@.take(i as int), Stage3MatchStatus::Matched),
            r.written == status_count(statuses@.take(i as int), Stage3MatchStatus::Written),
            r.escalated == status_count(statuses@.take(i as int), Stage3MatchStatus::Escalated),
        decreases statuses@.len() - i,
    {
        proof {
            assert(statuses@.take(i + 1).drop_last() =~= statuses@.take(i as int));
            lemma_status_count_bounded(statuses@.take(i as int), Stage3MatchStatus::Matched);
            lemma_status_count_bounded(statuses@.take(i as int), Stage3MatchStatus::Written);
            lemma_status_count_bounded(statuses@.take(i as int), Stage3MatchStatus::Escalated);
        }
        match statuses[i] {
            Stage3MatchStatus::Matched => r.matched = r.matched + 1,
            Stage3MatchStatus::Written => r.written = r.written + 1,
            Stage3MatchStatus::Escalated => r.escalated = r.escalated + 1,
        }
        i = i + 1;
    }
    assert(statuses@.take(statuses@.len() as int) =~= statuses@);
    r
}

/// Every Stage 3 row is counted in exactly one status.
pub proof fn lemma_status_counts_partition(s: Seq<Stage3MatchStatus>)
    ensures
        status_count(s, Stage3MatchStatus::Matched) + status_count(s, Stage3MatchStatus::Written)
            + status_count(s, Stage3MatchStatus::Escalated) == s.len(),
    decreases s.len(),
{
    if s.len() > 0 {
        lemma_status_counts_partition(s.drop_last());
    }
}

/// Every assessment is counted at exactly one risk level.
pub proof fn lemma_level_counts_partition(s: Seq<RiskLevel>)
    ensures
        level_count(s, RiskLevel::Low) + level_count(s, RiskLevel::Medium) + level_count(
            s,
            RiskLevel::High,
        ) + level_count(s, RiskLevel::Critical) == s.len(),
    decreases s.len(),
{
    if s.len() > 0 {
        lemma_level_counts_partition(s.drop_last());
    }
}

/// The integer part of an audit's analytics: everything but the averages and
/// rates, which are ratios of these counts.
#[derive(Debug, Clone, PartialEq)]
pub struct AuditTallies {
    pub total_observations: usize,
    pub assessed_count: usize,
    pub risk_levels: RiskLevelCounts,
    pub top_categories: Vec<LabeledCount>,
    pub top_departments: Vec<LabeledCount>,
    pub stage3_status: Stage3StatusCounts,
    /// Rows resolved for the completion gate: matched plus written.
    pub resolved: usize,
}

pub open spec fn categories_of(s: Seq<Stage2Assessment>) -> Seq<Option<String>> {
    s.map_values(|a: Stage2Assessment| a.category)
}

pub open spec fn departments_of(s: Seq<Stage2Assessment>) -> Seq<Option<String>> {
    s.map_values(|a: Stage2Assessment| a.department)
}

/// How many labels the category and department charts show.
pub const TOP_LABELS: usize = 8;

/// Tallies one audit: its observation count, its Stage 2 assessments and the
/// statuses of its Stage 3 rows.
pub fn tally_audit(
    total_observations: usize,
    assessments: &Vec<Stage2Assessment>,
    statuses: &Vec<Stage3MatchStatus>,
) -> (r: AuditTallies)
    ensures
        r.total_observations == total_observations,
        r.assessed_count == assessments@.len(),
        r.risk_levels.low == level_count(risk_levels_of(assessments@), RiskLevel::Low),
        r.risk_levels.medium == level_count(risk_levels_of(assessments@), RiskLevel::Medium),
        r.risk_levels.high == level_count(risk_levels_of(assessments@), RiskLevel::High),
        r.risk_levels.critical == level_count(risk_levels_of(assessments@), RiskLevel::Critical),
        is_top_ranking(
            count_views(r.top_categories@),
            opt_texts(categories_of(assessments@)),
            TOP_LABELS as nat,
        ),
        is_top_ranking(
            count_views(r.top_departments@),
            opt_texts(departments_of(assessments@)),
            TOP_LABELS as nat,
        ),
        r.stage3_status.matched == status_count(statuses@, Stage3MatchStatus::Matched),
        r.stage3_status.written == status_count(statuses@, Stage3MatchStatus::Written),
        r.stage3_status.escalated == status_count(statuses@, Stage3MatchStatus::Escalated),
        r.resolved == r.stage3_status.matched + r.stage3_status.written,
{
    let mut categories: Vec<Option<String>> = Vec::new();
    let mut departments: Vec<Option<String>> = Vec::new();
    let mut i: usize = 0;
    while i < assessments.len()
        invariant
            0 <= i <= assessments@.len(),
            categories@ == categories_of(assessments@).take(i as int),
            departments@ == departments_of(assessments@).take(i as int),
        decreases assessments@.len() - i,
    {
        categories.push(assessments[i].category.clone());
        departments.push(assessments[i].department.clone());
        proof {
            assert(categories@ =~= categories_of(assessments@).take(i + 1));
            assert(departments@ =~= departments_of(assessments@).take(i + 1));
        }
        i = i + 1;
    }
    assert(categories@ =~= categories_of(assessments@));
    assert(departments@ =~= departments_of(assessments@));
    let stage3_status = count_stage3_statuses(statuses);
    let rows: usize = statuses.len();
    proof {
        lemma_status_counts_partition(statuses@);
        assert(stage3_status.matched + stage3_status.written <= rows);
    }
    AuditTallies {
        total_observations,
        assessed_count: assessments.len(),
        risk_levels: count_risk_levels(assessments),
        top_categories: top_labels(&categories, TOP_LABELS),
        top_departments: top_labels(&departments, TOP_LABELS),
        stage3_status,
        resolved: stage3_status.matched + stage3_status.written,
    }
}

} // verus!
