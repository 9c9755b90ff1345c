use deckgym::outcomes::Outcomes;

#[test]
fn test_binomial_coefficient() {
    assert_eq!(Outcomes::binomial_coefficient(0, 0), 1);
    assert_eq!(Outcomes::binomial_coefficient(1, 0), 1);
    assert_eq!(Outcomes::binomial_coefficient(1, 1), 1);
    assert_eq!(Outcomes::binomial_coefficient(2, 0), 1);
    assert_eq!(Outcomes::binomial_coefficient(2, 1), 2);
    assert_eq!(Outcomes::binomial_coefficient(2, 2), 1);
    assert_eq!(Outcomes::binomial_coefficient(4, 2), 6);
    assert_eq!(Outcomes::binomial_coefficient(5, 3), 10);
    assert_eq!(Outcomes::binomial_coefficient(6, 2), 15);
}

#[test]
fn sequences_with_heads_come_in_bit_order() {
    let seqs = deckgym::outcomes::generate_sequences_with_heads(3, 2);
    assert_eq!(
        seqs,
        vec![vec![true, true, false], vec![true, false, true], vec![false, true, true]]
    );
    assert_eq!(deckgym::outcomes::generate_sequences_with_heads(2, 0), vec![vec![false, false]]);
    assert!(deckgym::outcomes::generate_sequences_with_heads(2, 3).is_empty());
}
