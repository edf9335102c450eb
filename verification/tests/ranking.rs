use vera_serve::ranking::{RerankScore, Score, rank_scores};

fn score(index: usize, relevance_score: f64) -> RerankScore {
    RerankScore { index, relevance_score: Score { bits: relevance_score.to_bits() } }
}

fn indices(scores: &[RerankScore]) -> Vec<usize> {
    scores.iter().map(|score| score.index).collect()
}

fn samples() -> Vec<f64> {
    vec![
        0.0,
        -0.0,
        1.0,
        -1.0,
        0.5,
        -0.5,
        f64::MIN_POSITIVE,
        -f64::MIN_POSITIVE,
        f64::from_bits(1),
        f64::MAX,
        f64::MIN,
        f64::INFINITY,
        f64::NEG_INFINITY,
        f64::NAN,
        -f64::NAN,
        f64::from_bits(0x7ff0_0000_0000_0001),
        f64::from_bits(0xfff0_0000_0000_0001),
        f64::from_bits(u64::MAX),
    ]
}

#[test]
fn keys_order_as_the_total_order_of_doubles() {
    for a in samples() {
        for b in samples() {
            let (key_a, key_b) = (
                Score { bits: a.to_bits() }.key(),
                Score { bits: b.to_bits() }.key(),
            );
            assert_eq!(key_a.cmp(&key_b), a.total_cmp(&b));
        }
    }
    assert_eq!(Score { bits: 0 }.key(), 0);
    assert_eq!(Score { bits: (-0.0f64).to_bits() }.key(), -1);
    assert_eq!(Score { bits: u64::MAX }.key(), i64::MIN);
}

#[test]
fn highest_score_comes_first() {
    let ranked = rank_scores(&vec![score(0, 0.2), score(1, 0.9), score(2, -0.4), score(3, 0.5)], None);
    assert_eq!(indices(&ranked), vec![1, 3, 0, 2]);
    assert_eq!(ranked[0], score(1, 0.9));
}

#[test]
fn equal_scores_keep_their_order() {
    let ranked = rank_scores(
        &vec![score(4, 0.5), score(1, 0.7), score(3, 0.5), score(0, 0.7), score(2, 0.5)],
        None,
    );
    assert_eq!(indices(&ranked), vec![1, 0, 4, 3, 2]);
}

#[test]
fn negative_zero_and_nan_have_their_places() {
    let ranked = rank_scores(
        &vec![score(0, -0.0), score(1, 0.0), score(2, f64::NAN), score(3, -f64::NAN), score(4, -1.0)],
        None,
    );
    assert_eq!(indices(&ranked), vec![2, 1, 0, 4, 3]);
}

#[test]
fn limit_cuts_the_ranking_off() {
    let scores = vec![score(0, 0.1), score(1, 0.3), score(2, 0.2)];
    assert_eq!(indices(&rank_scores(&scores, Some(0))), Vec::<usize>::new());
    assert_eq!(indices(&rank_scores(&scores, Some(1))), vec![1]);
    assert_eq!(indices(&rank_scores(&scores, Some(2))), vec![1, 2]);
    assert_eq!(indices(&rank_scores(&scores, Some(3))), vec![1, 2, 0]);
    assert_eq!(indices(&rank_scores(&scores, Some(usize::MAX))), vec![1, 2, 0]);
    assert_eq!(indices(&rank_scores(&scores, None)), vec![1, 2, 0]);
    assert_eq!(rank_scores(&Vec::new(), Some(5)), Vec::new());
}

#[test]
fn ranking_agrees_with_a_stable_sort() {
    let mut seed: u64 = 42;
    for length in 0..60usize {
        let mut scores = Vec::new();
        for index in 0..length {
            seed = seed.wrapping_mul(6364136223846793005).wrapping_add(1442695040888963407);
            scores.push(score(index, ((seed >> 60) as f64) / 4.0 - 2.0));
        }
        let mut expected = scores.clone();
        expected.sort_by(|a, b| {
            f64::from_bits(b.relevance_score.bits).total_cmp(&f64::from_bits(a.relevance_score.bits))
        });
        let ranked = rank_scores(&scores, None);
        assert_eq!(ranked, expected);
        assert_eq!(rank_scores(&ranked, None), ranked);
    }
}
