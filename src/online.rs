//! The metric of one epoch of the online (Perceptron) rule.
use vstd::prelude::*;

verus! {

/// How many of the first `n` examples were predicted against their label.
pub open spec fn misclassified(labels: Seq<bool>, predictions: Seq<bool>, n: int) -> nat
    decreases n,
{
    if n <= 0 {
        0
    } else {
        misclassified(labels, predictions, n - 1) + if labels[n - 1] != predictions[n - 1] {
            1nat
        } else {
            0nat
        }
    }
}

/// Counts the examples of an epoch whose thresholded prediction, made with the
/// weights current at that example, disagreed with its label. The online rule
/// updates the weights exactly for these examples, so a count of zero means
/// that the epoch left the weights untouched.
pub fn count_misclassified(labels: &[bool], predictions: &[bool]) -> (r: usize)
    requires
        labels@.len() == predictions@.len(),
    ensures
        r == misclassified(labels@, predictions@, labels@.len() as int),
        r <= labels@.len(),
{
    let mut count: usize = 0;
    let mut i: usize = 0;
    while i < labels.len()
        invariant
            i <= labels@.len(),
            labels@.len() == predictions@.len(),
            count == misclassified(labels@, predictions@, i as int),
            count <= i,
        decreases labels@.len() - i,
    {
        if labels[i] != predictions[i] {
            count += 1;
        }
        i += 1;
    }
    count
}

/// An epoch counts no misclassification exactly when every prediction in it
/// equalled its label.
pub proof fn lemma_zero_count_iff_all_correct(labels: Seq<bool>, predictions: Seq<bool>, n: int)
    requires
        0 <= n <= labels.len(),
        labels.len() == predictions.len(),
    ensures
        misclassified(labels, predictions, n) == 0 <==> forall|i: int|
            0 <= i < n ==> labels[i] == predictions[i],
    decreases n,
{
    if n > 0 {
        lemma_zero_count_iff_all_correct(labels, predictions, n - 1);
    }
}

} // verus!
