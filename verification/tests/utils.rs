use numwords::utils::int_to_triplets;

#[test]
fn triplets_are_least_significant_first() {
    assert_eq!(int_to_triplets(1234567).unwrap(), vec![567, 234, 1]);
    assert_eq!(int_to_triplets(1000).unwrap(), vec![0, 1]);
    assert_eq!(int_to_triplets(999).unwrap(), vec![999]);
    assert_eq!(int_to_triplets(1).unwrap(), vec![1]);
    assert_eq!(
        int_to_triplets(i64::MAX).unwrap(),
        vec![807, 775, 854, 36, 372, 223, 9]
    );
}

#[test]
fn triplets_of_zero_are_empty() {
    assert_eq!(int_to_triplets(0).unwrap(), Vec::<i64>::new());
}

#[test]
fn triplets_of_negative_values_are_empty() {
    assert_eq!(int_to_triplets(-5).unwrap(), Vec::<i64>::new());
}
