//! Ranking of documents by relevance score.
//!
//! A score is a double-precision number, carried by the 64 bits that encode it. Scores are
//! compared by the total order of IEEE 754, which places every number, both zeros, the
//! infinities and every NaN. The ranking puts the highest score first and leaves documents with
//! the same score in the order in which they came.

use vstd::prelude::*;

verus! {

/// The bit of a score's encoding that holds the sign; it is set where the score is negative.
pub const SIGN_BIT: u64 = 0x8000_0000_0000_0000;

/// A relevance score: the bits of a double-precision number.
#[derive(Clone, Copy, Debug, PartialEq, Eq, Structural)]
pub struct Score {
    /// The encoding of the number: a sign bit, above a magnitude of 63 bits.
    pub bits: u64,
}

impl Score {
    /// The place of the score in the total order of IEEE 754. The encoding is a sign and a
    /// magnitude: the magnitude itself for a positive score, and below every positive score, the
    /// larger magnitude first, for a negative one.
    pub open spec fn rank(self) -> int {
        if self.bits < SIGN_BIT {
            self.bits as int
        } else {
            SIGN_BIT - self.bits - 1
        }
    }

    /// A number that orders scores as their places in the total order do.
    pub fn key(self) -> (key: i64)
        ensures
            key == self.rank(),
    {
        if self.bits < SIGN_BIT {
            self.bits as i64
        } else {
            let magnitude: u64 = self.bits - SIGN_BIT;
            -1 - magnitude as i64
        }
    }
}

/// The score of one document.
#[derive(Clone, Copy, Debug, PartialEq, Eq, Structural)]
pub struct RerankScore {
    /// Which of the documents the score is of.
    pub index: usize,
    /// How relevant the document is.
    pub relevance_score: Score,
}

impl RerankScore {
    /// The place of the document's score.
    pub open spec fn rank(self) -> int {
        self.relevance_score.rank()
    }
}

/// The scores of `scores` that stand at one place of the order, as they come.
pub open spec fn with_rank(scores: Seq<RerankScore>, rank: int) -> Seq<RerankScore> {
    scores.filter(|score: RerankScore| score.rank() == rank)
}

/// No score is higher than one before it.
pub open spec fn descending(scores: Seq<RerankScore>) -> bool {
    forall|i: int, j: int|
        0 <= i <= j < scores.len() ==> #[trigger] scores[i].rank() >= #[trigger] scores[j].rank()
}

/// `ranked` holds what `scores` holds, the highest score first, equal scores in the order in
/// which `scores` has them.
pub open spec fn ranks(scores: Seq<RerankScore>, ranked: Seq<RerankScore>) -> bool {
    &&& descending(ranked)
    &&& forall|rank: int| #[trigger] with_rank(ranked, rank) == with_rank(scores, rank)
}

/// The ranking of `scores`.
pub open spec fn ranking(scores: Seq<RerankScore>) -> Seq<RerankScore> {
    choose|ranked: Seq<RerankScore>| ranks(scores, ranked)
}

/// The first `top_n` of a ranking; all of it where there is no limit, or fewer.
pub open spec fn top(ranked: Seq<RerankScore>, top_n: Option<usize>) -> Seq<RerankScore> {
    match top_n {
        Some(n) => if n < ranked.len() {
            ranked.take(n as int)
        } else {
            ranked
        },
        None => ranked,
    }
}

proof fn lemma_with_rank_push(scores: Seq<RerankScore>, score: RerankScore, rank: int)
    ensures
        with_rank(scores.push(score), rank) == if score.rank() == rank {
            with_rank(scores, rank).push(score)
        } else {
            with_rank(scores, rank)
        },
{
    reveal(Seq::filter);
    assert(scores.push(score).drop_last() =~= scores);
}

proof fn lemma_with_rank_add(a: Seq<RerankScore>, b: Seq<RerankScore>, rank: int)
    ensures
        with_rank(a + b, rank) == with_rank(a, rank) + with_rank(b, rank),
{
    Seq::filter_distributes_over_add(a, b, |score: RerankScore| score.rank() == rank);
}

proof fn lemma_with_rank_none(scores: Seq<RerankScore>, rank: int)
    requires
        forall|i: int| 0 <= i < scores.len() ==> (#[trigger] scores[i]).rank() != rank,
    ensures
        with_rank(scores, rank) == Seq::<RerankScore>::empty(),
    decreases scores.len(),
{
    reveal(Seq::filter);
    if scores.len() > 0 {
        assert forall|i: int| 0 <= i < scores.drop_last().len() implies (
        #[trigger] scores.drop_last()[i]).rank() != rank by {
            assert(scores.drop_last()[i] == scores[i]);
        }
        lemma_with_rank_none(scores.drop_last(), rank);
    }
    assert(with_rank(scores, rank) =~= Seq::<RerankScore>::empty());
}

/// The last score of a ranking is no higher than any score with which the ranking shares its
/// contents.
proof fn lemma_last_is_lowest(a: Seq<RerankScore>, b: Seq<RerankScore>)
    requires
        descending(a),
        b.len() > 0,
        with_rank(a, b.last().rank()) == with_rank(b, b.last().rank()),
    ensures
        a.len() > 0,
        a.last().rank() <= b.last().rank(),
        with_rank(b, b.last().rank()).last() == b.last(),
{
    let rank = b.last().rank();
    lemma_with_rank_push(b.drop_last(), b.last(), rank);
    assert(b.drop_last().push(b.last()) =~= b);
    assert(with_rank(b, rank).len() > 0);
    if forall|i: int| 0 <= i < a.len() ==> (#[trigger] a[i]).rank() != rank {
        lemma_with_rank_none(a, rank);
    }
    let i = choose|i: int| 0 <= i < a.len() && (#[trigger] a[i]).rank() == rank;
    assert(a[i].rank() >= a[a.len() - 1].rank());
}

/// Two rankings of the same scores are the same: the order of equal scores is fixed.
pub proof fn law_ranking_is_unique(
    scores: Seq<RerankScore>,
    a: Seq<RerankScore>,
    b: Seq<RerankScore>,
)
    requires
        ranks(scores, a),
        ranks(scores, b),
    ensures
        a == b,
{
    assert forall|rank: int| #[trigger] with_rank(a, rank) == with_rank(b, rank) by {
        assert(with_rank(a, rank) == with_rank(scores, rank));
        assert(with_rank(b, rank) == with_rank(scores, rank));
    }
    lemma_same_contents(a, b);
}

proof fn lemma_same_contents(a: Seq<RerankScore>, b: Seq<RerankScore>)
    requires
        descending(a),
        descending(b),
        forall|rank: int| #[trigger] with_rank(a, rank) == with_rank(b, rank),
    ensures
        a == b,
    decreases a.len(),
{
    if b.len() > 0 {
        assert(with_rank(a, b.last().rank()) == with_rank(b, b.last().rank()));
        lemma_last_is_lowest(a, b);
    }
    if a.len() > 0 {
        assert(with_rank(a, a.last().rank()) == with_rank(b, a.last().rank()));
        lemma_last_is_lowest(b, a);
        let last = a.last();
        assert(b.last() == last);
        let a1 = a.drop_last();
        let b1 = b.drop_last();
        assert(a1.push(last) =~= a);
        assert(b1.push(last) =~= b);
        assert forall|rank: int| #[trigger] with_rank(a1, rank) == with_rank(b1, rank) by {
            lemma_with_rank_push(a1, last, rank);
            lemma_with_rank_push(b1, last, rank);
            assert(with_rank(a, rank) == with_rank(b, rank));
            if last.rank() == rank {
                assert(with_rank(a, rank).drop_last() =~= with_rank(a1, rank));
                assert(with_rank(b, rank).drop_last() =~= with_rank(b1, rank));
            }
        }
        assert(descending(a1)) by {
            assert forall|i: int, j: int| 0 <= i <= j < a1.len() implies
                #[trigger] a1[i].rank() >= #[trigger] a1[j].rank() by {
                assert(a[i].rank() >= a[j].rank());
            }
        }
        assert(descending(b1)) by {
            assert forall|i: int, j: int| 0 <= i <= j < b1.len() implies
                #[trigger] b1[i].rank() >= #[trigger] b1[j].rank() by {
                assert(b[i].rank() >= b[j].rank());
            }
        }
        lemma_same_contents(a1, b1);
    } else {
        assert(a =~= b);
    }
}

/// Where `ranked` puts a further score: behind every score that is no lower.
proof fn lemma_place(ranked: Seq<RerankScore>, score: RerankScore) -> (place: int)
    requires
        descending(ranked),
    ensures
        0 <= place <= ranked.len(),
        forall|i: int| 0 <= i < place ==> (#[trigger] ranked[i]).rank() >= score.rank(),
        forall|i: int|
            place <= i < ranked.len() ==> (#[trigger] ranked[i]).rank() < score.rank(),
    decreases ranked.len(),
{
    if ranked.len() == 0 || ranked.last().rank() >= score.rank() {
        assert forall|i: int| 0 <= i < ranked.len() implies (#[trigger] ranked[i]).rank()
            >= score.rank() by {
            assert(ranked[i].rank() >= ranked[ranked.len() - 1].rank());
        }
        ranked.len() as int
    } else {
        let rest = ranked.drop_last();
        assert(descending(rest)) by {
            assert forall|i: int, j: int| 0 <= i <= j < rest.len() implies
                #[trigger] rest[i].rank() >= #[trigger] rest[j].rank() by {
                assert(ranked[i].rank() >= ranked[j].rank());
            }
        }
        let place = lemma_place(rest, score);
        assert forall|i: int| 0 <= i < place implies (#[trigger] ranked[i]).rank()
            >= score.rank() by {
            assert(rest[i] == ranked[i]);
        }
        assert forall|i: int| place <= i < ranked.len() implies (#[trigger] ranked[i]).rank()
            < score.rank() by {
            if i < rest.len() {
                assert(rest[i] == ranked[i]);
            }
        }
        place
    }
}

/// A ranking of `scores`, built by placing one score after another, and the places in `scores`
/// that its scores have come from.
proof fn lemma_ranking_exists(scores: Seq<RerankScore>) -> (built: (Seq<RerankScore>, Seq<int>))
    ensures
        ranks(scores, built.0),
        built.0.len() == scores.len(),
        built.0.to_multiset() == scores.to_multiset(),
        built.1.len() == scores.len(),
        forall|i: int|
            0 <= i < scores.len() ==> 0 <= #[trigger] built.1[i] < scores.len() && built.0[i]
                == scores[built.1[i]],
        forall|k: int| 0 <= k < scores.len() ==> #[trigger] built.1.contains(k),
        forall|i: int, j: int|
            0 <= i < j < scores.len() && built.0[i].rank() == built.0[j].rank()
                ==> #[trigger] built.1[i] < #[trigger] built.1[j],
    decreases scores.len(),
{
    broadcast use vstd::seq_lib::group_to_multiset_ensures;

    if scores.len() == 0 {
        (scores, Seq::empty())
    } else {
        let score = scores.last();
        let rest = scores.drop_last();
        let (before, from) = lemma_ranking_exists(rest);
        let place = lemma_place(before, score);
        let head = before.take(place);
        let tail = before.skip(place);
        let ranked = head.push(score) + tail;
        assert(head + tail =~= before);
        assert(rest.push(score) =~= scores);
        assert forall|rank: int| #[trigger] with_rank(ranked, rank) == with_rank(scores, rank) by {
            lemma_with_rank_add(head.push(score), tail, rank);
            lemma_with_rank_push(head, score, rank);
            lemma_with_rank_add(head, tail, rank);
            lemma_with_rank_push(rest, score, rank);
            assert(with_rank(before, rank) == with_rank(rest, rank));
            if rank == score.rank() {
                assert forall|i: int| 0 <= i < tail.len() implies (#[trigger] tail[i]).rank()
                    != rank by {
                    assert(tail[i] == before[place + i]);
                }
                lemma_with_rank_none(tail, rank);
            }
            assert(with_rank(ranked, rank) =~= with_rank(scores, rank));
        }
        assert forall|i: int, j: int| 0 <= i <= j < ranked.len() implies
            #[trigger] ranked[i].rank() >= #[trigger] ranked[j].rank() by {
            let from_i = if i < place { i } else { i - 1 };
            let from_j = if j < place { j } else { j - 1 };
            if i != place {
                assert(ranked[i] == before[from_i]);
            }
            if j != place {
                assert(ranked[j] == before[from_j]);
            }
            if i != place && j != place {
                assert(before[from_i].rank() >= before[from_j].rank());
            }
        }
        assert(ranked =~= before.insert(place, score));
        assert(scores.to_multiset() == rest.to_multiset().insert(score));
        vstd::seq_lib::to_multiset_insert(before, place, score);
        let order = from.insert(place, rest.len() as int);
        assert forall|i: int| 0 <= i < scores.len() implies 0 <= #[trigger] order[i]
            < scores.len() && ranked[i] == scores[order[i]] by {
            if i < place {
                assert(order[i] == from[i]);
            } else if i > place {
                assert(order[i] == from[i - 1]);
            }
        }
        assert forall|k: int| 0 <= k < scores.len() implies #[trigger] order.contains(k) by {
            if k < rest.len() {
                assert(from.contains(k));
                let i = choose|i: int| 0 <= i < from.len() && from[i] == k;
                assert(order[if i < place { i } else { i + 1 }] == k);
            } else {
                assert(order[place] == k);
            }
        }
        assert forall|i: int, j: int|
            0 <= i < j < scores.len() && ranked[i].rank() == ranked[j].rank() implies
            #[trigger] order[i] < #[trigger] order[j] by {
            let from_i = if i < place { i } else { i - 1 };
            let from_j = if j < place { j } else { j - 1 };
            if i == place {
                assert(ranked[j] == before[from_j]);
            } else if j == place {
                assert(order[i] == from[from_i]);
            } else {
                assert(ranked[i] == before[from_i] && order[i] == from[from_i]);
                assert(ranked[j] == before[from_j] && order[j] == from[from_j]);
            }
        }
        (ranked, order)
    }
}

/// Every list of scores has a ranking, which holds the same scores, each as often, and nothing
/// else.
pub proof fn law_ranking_rearranges(scores: Seq<RerankScore>)
    ensures
        ranks(scores, ranking(scores)),
        ranking(scores).len() == scores.len(),
        ranking(scores).to_multiset() == scores.to_multiset(),
{
    let (ranked, _) = lemma_ranking_exists(scores);
    law_ranking_is_unique(scores, ranked, ranking(scores));
}

/// The ranking goes through the scores in an order that visits every place of the list once, from
/// the highest score to the lowest, and places with the same score from the first to the last.
pub proof fn law_ranking_visits_every_place_once(scores: Seq<RerankScore>) -> (order: Seq<int>)
    ensures
        order.len() == scores.len(),
        ranking(scores).len() == scores.len(),
        order.no_duplicates(),
        forall|k: int| 0 <= k < scores.len() ==> #[trigger] order.contains(k),
        forall|i: int|
            0 <= i < scores.len() ==> 0 <= #[trigger] order[i] < scores.len() && ranking(scores)[i]
                == scores[order[i]],
        forall|i: int, j: int|
            0 <= i < j < scores.len() ==> {
                let earlier = scores[#[trigger] order[i]].relevance_score.rank();
                let later = scores[#[trigger] order[j]].relevance_score.rank();
                earlier > later || (earlier == later && order[i] < order[j])
            },
{
    let (ranked, order) = lemma_ranking_exists(scores);
    law_ranking_is_unique(scores, ranked, ranking(scores));
    assert forall|i: int, j: int| 0 <= i < j < scores.len() implies {
        let earlier = scores[#[trigger] order[i]].relevance_score.rank();
        let later = scores[#[trigger] order[j]].relevance_score.rank();
        earlier > later || (earlier == later && order[i] < order[j])
    } by {
        assert(ranked[i] == scores[order[i]] && ranked[j] == scores[order[j]]);
        assert(ranked[i].rank() >= ranked[j].rank());
    }
    order
}

/// Merges two rankings into the ranking of the scores of `a` followed by those of `b`.
fn merge(a: &Vec<RerankScore>, b: &Vec<RerankScore>) -> (merged: Vec<RerankScore>)
    requires
        descending(a@),
        descending(b@),
    ensures
        ranks(a@ + b@, merged@),
{
    let mut merged: Vec<RerankScore> = Vec::new();
    let mut i: usize = 0;
    let mut j: usize = 0;
    proof {
        assert(a@.take(0) =~= Seq::<RerankScore>::empty());
        assert(b@.take(0) =~= Seq::<RerankScore>::empty());
        assert forall|rank: int| #[trigger] with_rank(merged@, rank) == with_rank(a@.take(0), rank)
            + with_rank(b@.take(0), rank) by {
            lemma_with_rank_none(merged@, rank);
        }
    }
    while i < a.len() || j < b.len()
        invariant
            descending(a@),
            descending(b@),
            i <= a.len(),
            j <= b.len(),
            descending(merged@),
            forall|rank: int| #[trigger]
                with_rank(merged@, rank) == with_rank(a@.take(i as int), rank) + with_rank(
                    b@.take(j as int),
                    rank,
                ),
            forall|k: int, x: int|
                0 <= k < merged.len() && i <= x < a.len() ==> (#[trigger] merged@[k]).rank() >= (
                #[trigger] a@[x]).rank(),
            forall|k: int, y: int|
                0 <= k < merged.len() && j <= y < b.len() ==> (#[trigger] merged@[k]).rank() >= (
                #[trigger] b@[y]).rank(),
            forall|x: int, y: int|
                i <= x < a.len() && 0 <= y < j ==> (#[trigger] b@[y]).rank() > (
                #[trigger] a@[x]).rank(),
        decreases (a.len() - i) + (b.len() - j),
    {
        let ghost before = merged@;
        if j >= b.len() || (i < a.len() && a[i].relevance_score.key() >= b[j].relevance_score.key())
        {
            merged.push(a[i]);
            proof {
                let score = a@[i as int];
                assert(a@.take(i + 1) =~= a@.take(i as int).push(score));
                assert forall|rank: int| #[trigger]
                    with_rank(merged@, rank) == with_rank(a@.take(i + 1), rank) + with_rank(
                        b@.take(j as int),
                        rank,
                    ) by {
                    lemma_with_rank_push(before, score, rank);
                    lemma_with_rank_push(a@.take(i as int), score, rank);
                    assert(with_rank(before, rank) == with_rank(a@.take(i as int), rank)
                        + with_rank(b@.take(j as int), rank));
                    if score.rank() == rank {
                        assert forall|y: int| 0 <= y < j implies (#[trigger] b@.take(
                            j as int,
                        )[y]).rank() != rank by {
                            assert(b@[y].rank() > a@[i as int].rank());
                        }
                        lemma_with_rank_none(b@.take(j as int), rank);
                    }
                    assert(with_rank(merged@, rank) =~= with_rank(a@.take(i + 1), rank)
                        + with_rank(b@.take(j as int), rank));
                }
                assert forall|y: int| j <= y < b.len() implies score.rank() >= (
                #[trigger] b@[y]).rank() by {
                    assert(b@[j as int].rank() >= b@[y].rank());
                }
                assert forall|x: int| i <= x < a.len() implies score.rank() >= (
                #[trigger] a@[x]).rank() by {
                    assert(a@[i as int].rank() >= a@[x].rank());
                }
            }
            i = i + 1;
        } else {
            merged.push(b[j]);
            proof {
                let score = b@[j as int];
                assert(b@.take(j + 1) =~= b@.take(j as int).push(score));
                assert forall|rank: int| #[trigger]
                    with_rank(merged@, rank) == with_rank(a@.take(i as int), rank) + with_rank(
                        b@.take(j + 1),
                        rank,
                    ) by {
                    lemma_with_rank_push(before, score, rank);
                    lemma_with_rank_push(b@.take(j as int), score, rank);
                    assert(with_rank(before, rank) == with_rank(a@.take(i as int), rank)
                        + with_rank(b@.take(j as int), rank));
                    assert(with_rank(merged@, rank) =~= with_rank(a@.take(i as int), rank)
                        + with_rank(b@.take(j + 1), rank));
                }
                assert forall|x: int| i <= x < a.len() implies score.rank() > (
                #[trigger] a@[x]).rank() by {
                    assert(a@[i as int].rank() >= a@[x].rank());
                }
                assert forall|y: int| j <= y < b.len() implies score.rank() >= (
                #[trigger] b@[y]).rank() by {
                    assert(b@[j as int].rank() >= b@[y].rank());
                }
            }
            j = j + 1;
        }
    }
    proof {
        assert(a@.take(i as int) =~= a@);
        assert(b@.take(j as int) =~= b@);
        assert forall|rank: int| #[trigger] with_rank(merged@, rank) == with_rank(a@ + b@, rank) by {
            lemma_with_rank_add(a@, b@, rank);
        }
    }
    merged
}

/// The ranking of the scores from `from` up to `to`.
fn rank_range(scores: &Vec<RerankScore>, from: usize, to: usize) -> (ranked: Vec<RerankScore>)
    requires
        from <= to <= scores.len(),
    ensures
        ranks(scores@.subrange(from as int, to as int), ranked@),
    decreases to - from,
{
    let ghost part = scores@.subrange(from as int, to as int);
    if to - from <= 1 {
        let mut ranked: Vec<RerankScore> = Vec::new();
        if from < to {
            ranked.push(scores[from]);
        }
        assert(ranked@ =~= part);
        ranked
    } else {
        let middle: usize = from + (to - from) / 2;
        let low = rank_range(scores, from, middle);
        let high = rank_range(scores, middle, to);
        let ranked = merge(&low, &high);
        proof {
            let first = scores@.subrange(from as int, middle as int);
            let second = scores@.subrange(middle as int, to as int);
            assert(part =~= first + second);
            assert forall|rank: int| #[trigger] with_rank(ranked@, rank) == with_rank(part, rank) by {
                lemma_with_rank_add(low@, high@, rank);
                lemma_with_rank_add(first, second, rank);
                assert(with_rank(low@, rank) == with_rank(first, rank));
                assert(with_rank(high@, rank) == with_rank(second, rank));
                assert(with_rank(ranked@, rank) == with_rank(low@ + high@, rank));
            }
        }
        ranked
    }
}

/// The ranking of `scores`, cut off after `top_n` of them where there is such a limit.
pub fn rank_scores(scores: &Vec<RerankScore>, top_n: Option<usize>) -> (ranked: Vec<RerankScore>)
    ensures
        ranked@ == top(ranking(scores@), top_n),
{
    let mut ranked = rank_range(scores, 0, scores.len());
    proof {
        assert(scores@.subrange(0, scores@.len() as int) =~= scores@);
        law_ranking_rearranges(scores@);
        law_ranking_is_unique(scores@, ranked@, ranking(scores@));
    }
    if let Some(n) = top_n {
        ranked.truncate(n);
    }
    ranked
}

/// Two scores have the same place in the order only where they are the same number, encoded the
/// same way.
pub proof fn law_distinct_scores_are_ordered(a: Score, b: Score)
    ensures
        a.rank() == b.rank() <==> a == b,
{
}

/// A negative score, be it zero, is below every positive one.
pub proof fn law_negative_below_positive(negative: Score, positive: Score)
    requires
        negative.bits >= 0x8000_0000_0000_0000,
        positive.bits < 0x8000_0000_0000_0000,
    ensures
        negative.rank() < positive.rank(),
{
}

/// Between scores of the same sign the magnitude decides: the larger is higher where they are
/// positive, and lower where they are negative.
pub proof fn law_magnitude_decides(a: Score, b: Score)
    requires
        a.bits < b.bits,
        (a.bits < 0x8000_0000_0000_0000) == (b.bits < 0x8000_0000_0000_0000),
    ensures
        a.bits < 0x8000_0000_0000_0000 ==> a.rank() < b.rank(),
        a.bits >= 0x8000_0000_0000_0000 ==> a.rank() > b.rank(),
{
}

/// A limit keeps the highest scores: as many as it allows, or all there are, and none of those
/// cut off is higher than one that is kept.
pub proof fn law_limit_keeps_the_highest(scores: Seq<RerankScore>, top_n: Option<usize>)
    ensures
        top(ranking(scores), top_n).len() == match top_n {
            Some(n) => if n < scores.len() {
                n as nat
            } else {
                scores.len()
            },
            None => scores.len(),
        },
        top(ranking(scores), top_n).is_prefix_of(ranking(scores)),
        forall|kept: int, cut: int|
            0 <= kept < top(ranking(scores), top_n).len() <= cut < scores.len() ==> (
            #[trigger] top(ranking(scores), top_n)[kept]).rank() >= (
            #[trigger] ranking(scores)[cut]).rank(),
{
    law_ranking_rearranges(scores);
    let ranked = ranking(scores);
    let kept_scores = top(ranked, top_n);
    assert forall|kept: int, cut: int|
        0 <= kept < kept_scores.len() <= cut < scores.len() implies (
    #[trigger] kept_scores[kept]).rank() >= (#[trigger] ranked[cut]).rank() by {
        assert(ranked[kept].rank() >= ranked[cut].rank());
    }
}

/// A larger limit only adds results at the end.
pub proof fn law_larger_limit_extends(scores: Seq<RerankScore>, n: usize, m: usize)
    requires
        n <= m,
    ensures
        top(ranking(scores), Some(n)).is_prefix_of(top(ranking(scores), Some(m))),
        top(ranking(scores), Some(m)).is_prefix_of(top(ranking(scores), None)),
{
}

/// Ranking a ranking changes nothing.
pub proof fn law_ranking_is_idempotent(scores: Seq<RerankScore>)
    ensures
        ranking(ranking(scores)) == ranking(scores),
{
    law_ranking_rearranges(scores);
    law_ranking_rearranges(ranking(scores));
    law_ranking_is_unique(ranking(scores), ranking(scores), ranking(ranking(scores)));
}

/// A limit of `n` leaves the first `n` scores as they stand, one of at least the length leaves all
/// of them, and so does none.
pub proof fn law_limit_cuts_at_the_end(ranked: Seq<RerankScore>, n: usize, i: int)
    requires
        0 <= i < ranked.len(),
    ensures
        top(ranked, None) == ranked,
        n >= ranked.len() ==> top(ranked, Some(n)) == ranked,
        n < ranked.len() ==> top(ranked, Some(n)).len() == n,
        i < n ==> top(ranked, Some(n))[i] == ranked[i],
{
}

} // verus!
