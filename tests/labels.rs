use linear_classifiers::labels::{bipolar, bipolar_error};

#[test]
fn bipolar_maps_true_to_plus_one() {
    assert_eq!(bipolar(true), 1);
}

#[test]
fn bipolar_maps_false_to_minus_one() {
    assert_eq!(bipolar(false), -1);
}

#[test]
fn bipolar_error_is_zero_on_agreement() {
    assert_eq!(bipolar_error(true, true), 0);
    assert_eq!(bipolar_error(false, false), 0);
}

#[test]
fn bipolar_error_is_two_on_disagreement() {
    assert_eq!(bipolar_error(true, false), 2);
    assert_eq!(bipolar_error(false, true), -2);
}
