use deckgym::random_damage::enumerate_random_damage_outcomes;

/// Probabilities of the outcomes, each count over `n^times`.
fn probabilities(outcomes: &[(u64, Vec<(usize, usize, u32)>)], n: usize, times: usize) -> Vec<f64> {
    let total = (n as f64).powi(times as i32);
    outcomes.iter().map(|(c, _)| *c as f64 / total).collect()
}

#[test]
fn test_one_target_three_hits_single_outcome() {
    let targets = vec![(1, 0)];
    let outcomes = enumerate_random_damage_outcomes(&targets, 3, 50);

    assert_eq!(outcomes.len(), 1);
    let prob = probabilities(&outcomes, 1, 3)[0];
    assert!((prob - 1.0).abs() < 1e-9);
    assert_eq!(outcomes[0].1, vec![(1, 0, 150)]);
}

#[test]
fn test_two_targets_three_hits_outcomes() {
    let targets = vec![(1, 0), (1, 1)];
    let outcomes = enumerate_random_damage_outcomes(&targets, 3, 50);

    assert_eq!(outcomes.len(), 4);
    let probs = probabilities(&outcomes, 2, 3);
    let mut sorted_outcomes: Vec<(f64, Vec<(usize, usize, u32)>)> =
        probs.iter().zip(outcomes.iter()).map(|(p, (_, d))| (*p, d.clone())).collect();
    sorted_outcomes.sort_by(|a, b| a.1.cmp(&b.1));

    let prob_sum: f64 = sorted_outcomes.iter().map(|(p, _)| p).sum();
    assert!((prob_sum - 1.0).abs() < 1e-9);

    let all_to_first = sorted_outcomes.iter().find(|(_, d)| d == &vec![(1, 0, 150)]);
    assert!(all_to_first.is_some());
    assert!((all_to_first.unwrap().0 - 0.125).abs() < 1e-9);

    let two_one = sorted_outcomes
        .iter()
        .find(|(_, d)| d == &vec![(1, 0, 100), (1, 1, 50)]);
    assert!(two_one.is_some());
    assert!((two_one.unwrap().0 - 0.375).abs() < 1e-9);
}

#[test]
fn test_three_targets_single_hit() {
    let targets = vec![(0, 1), (1, 0), (1, 1)];
    let outcomes = enumerate_random_damage_outcomes(&targets, 1, 100);

    assert_eq!(outcomes.len(), 3);
    let probs = probabilities(&outcomes, 3, 1);
    for (prob, (_, damage_dist)) in probs.iter().zip(outcomes.iter()) {
        assert!((prob - 1.0 / 3.0).abs() < 1e-9);
        assert_eq!(damage_dist.len(), 1);
        assert_eq!(damage_dist[0].2, 100);
    }
}

#[test]
fn test_empty_targets() {
    let targets: Vec<(usize, usize)> = vec![];
    let outcomes = enumerate_random_damage_outcomes(&targets, 3, 50);
    assert!(outcomes.is_empty());
}

#[test]
fn test_probability_sum_always_one() {
    for num_targets in 1..=5 {
        for times in 1..=4 {
            let targets: Vec<(usize, usize)> = (0..num_targets).map(|i| (0, i)).collect();
            let outcomes = enumerate_random_damage_outcomes(&targets, times, 10);

            let prob_sum: f64 = probabilities(&outcomes, num_targets, times).iter().sum();
            assert!(
                (prob_sum - 1.0).abs() < 1e-9,
                "Probability sum {} != 1.0 for {} targets, {} times",
                prob_sum,
                num_targets,
                times
            );
        }
    }
}

#[test]
fn random_hits_merge_repeated_targets_in_slot_order() {
    // Two hits on targets given out of order: the distribution lists targets by player, then slot.
    let targets = vec![(1, 2), (0, 3)];
    let outcomes = enumerate_random_damage_outcomes(&targets, 2, 30);
    // Sequences 0..4 in base 2, first hit the low digit: (1,2)(1,2), (0,3)(1,2), (1,2)(0,3), (0,3)(0,3).
    assert_eq!(
        outcomes,
        vec![
            (1, vec![(1, 2, 60)]),
            (2, vec![(0, 3, 30), (1, 2, 30)]),
            (1, vec![(0, 3, 60)]),
        ]
    );
}

#[test]
fn zero_hits_give_one_empty_distribution() {
    let targets = vec![(1, 0), (1, 1)];
    let outcomes = enumerate_random_damage_outcomes(&targets, 0, 40);
    assert_eq!(outcomes, vec![(1, vec![])]);
}
