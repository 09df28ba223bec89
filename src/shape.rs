//! Shape checks made before any training or prediction touches the weights.
use vstd::prelude::*;

verus! {

/// A dataset whose rows and labels do not fit the model.
#[derive(Debug, Clone, Copy, PartialEq, Eq, Structural)]
pub enum ShapeError {
    /// The number of rows differs from the number of labels.
    LabelCount { rows: usize, labels: usize },
    /// Row `row`, the first of the wrong length, has `found` values instead of `expected`.
    RowLength { row: usize, found: usize, expected: usize },
}

/// A feature vector whose length differs from the model's feature count.
#[derive(Debug, Clone, Copy, PartialEq, Eq, Structural)]
pub struct DimensionError {
    pub found: usize,
    pub expected: usize,
}

/// Rows `0..n` of `data` all hold `num_features` values.
pub open spec fn rows_fit<T>(data: Seq<&[T]>, n: int, num_features: nat) -> bool {
    forall|i: int| 0 <= i < n ==> (#[trigger] data[i])@.len() == num_features
}

/// A dataset is well shaped when it has one label per row and every row holds
/// `num_features` values.
pub open spec fn well_shaped<T>(data: Seq<&[T]>, labels: Seq<bool>, num_features: nat) -> bool {
    data.len() == labels.len() && rows_fit(data, data.len() as int, num_features)
}

/// Checks a dataset against the model's feature count. The label count is
/// checked first; otherwise the first row of the wrong length is reported.
pub fn check_shape<T>(data: &[&[T]], labels: &[bool], num_features: usize) -> (r: Result<
    (),
    ShapeError,
>)
    ensures
        r is Ok <==> well_shaped(data@, labels@, num_features as nat),
        data@.len() != labels@.len() <==> r matches Err(ShapeError::LabelCount { .. }),
        r matches Err(ShapeError::LabelCount { rows, labels: n }) ==> rows == data@.len() && n
            == labels@.len(),
        r matches Err(ShapeError::RowLength { row, found, expected }) ==> {
            &&& data@.len() == labels@.len()
            &&& row < data@.len()
            &&& rows_fit(data@, row as int, num_features as nat)
            &&& found == data@[row as int]@.len()
            &&& found != num_features
            &&& expected == num_features
        },
{
    if data.len() != labels.len() {
        return Err(ShapeError::LabelCount { rows: data.len(), labels: labels.len() });
    }
    let mut i: usize = 0;
    while i < data.len()
        invariant
            i <= data@.len(),
            data@.len() == labels@.len(),
            rows_fit(data@, i as int, num_features as nat),
        decreases data@.len() - i,
    {
        let found = data[i].len();
        if found != num_features {
            return Err(ShapeError::RowLength { row: i, found, expected: num_features });
        }
        i += 1;
    }
    Ok(())
}

/// Checks one feature vector against the model's feature count.
pub fn check_dimension<T>(x: &[T], num_features: usize) -> (r: Result<(), DimensionError>)
    ensures
        r is Ok <==> x@.len() == num_features,
        r matches Err(e) ==> e.found == x@.len() && e.expected == num_features,
{
    if x.len() == num_features {
        Ok(())
    } else {
        Err(DimensionError { found: x.len(), expected: num_features })
    }
}

} // verus!
