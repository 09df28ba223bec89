//! Bipolar encoding of boolean class labels.
use vstd::prelude::*;

verus! {

/// The bipolar value of a label: `true` is `+1`, `false` is `-1`.
pub open spec fn bipolar_of(label: bool) -> int {
    if label {
        1
    } else {
        -1
    }
}

/// Maps a label to its bipolar value, the form in which every error is computed.
pub fn bipolar(label: bool) -> (r: i8)
    ensures
        r == bipolar_of(label),
{
    if label {
        1
    } else {
        -1
    }
}

/// The error of a thresholded prediction in bipolar space:
/// `bipolar(label) - bipolar(predicted)`, which is `-2`, `0` or `2`.
pub fn bipolar_error(label: bool, predicted: bool) -> (r: i8)
    ensures
        r == bipolar_of(label) - bipolar_of(predicted),
        r != 0 <==> label != predicted,
        r == 0 || r == 2 || r == -2,
{
    bipolar(label) - bipolar(predicted)
}

} // verus!
