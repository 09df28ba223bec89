use linear_classifiers::online::count_misclassified;

#[test]
fn no_misclassification_when_all_agree() {
    assert_eq!(count_misclassified(&[true, false, true, false], &[true, false, true, false]), 0);
}

#[test]
fn counts_each_disagreement() {
    assert_eq!(count_misclassified(&[true, true, false, false], &[true, false, true, false]), 2);
}

#[test]
fn every_example_wrong() {
    assert_eq!(count_misclassified(&[true, false, true], &[false, true, false]), 3);
}

#[test]
fn empty_epoch_counts_nothing() {
    assert_eq!(count_misclassified(&[], &[]), 0);
}
