use vstd::prelude::*;

verus! {

/// The number of feature columns each training sample must have.
pub const FEATURE_COUNT: usize = 3;

/// Why a training request was rejected before any fitting was attempted.
/// Any of these is fatal at startup: the simulation never begins.
#[derive(Clone, Copy, Debug, PartialEq, Eq, Structural)]
pub enum TrainError {
    /// The feature matrix has no rows.
    EmptyData,
    /// The feature matrix does not have exactly `FEATURE_COUNT` columns.
    WrongFeatureCount,
    /// The target vector's length differs from the number of rows.
    TargetMismatch,
}

/// The shapes the training collaborator accepts: at least one sample row,
/// exactly `FEATURE_COUNT` feature columns, and one target per row.
pub open spec fn trainable(rows: int, cols: int, targets: int) -> bool {
    rows >= 1 && cols == FEATURE_COUNT && targets == rows
}

/// Validate the shape of a training request. Returns `Ok` exactly on
/// trainable shapes, and otherwise the first failing check: emptiness, then
/// feature count, then target length.
pub fn check_training_input(rows: usize, cols: usize, targets: usize) -> (r: Result<
    (),
    TrainError,
>)
    ensures
        r is Ok <==> trainable(rows as int, cols as int, targets as int),
        r == Err::<(), TrainError>(TrainError::EmptyData) <==> rows == 0,
        r == Err::<(), TrainError>(TrainError::WrongFeatureCount) <==> (rows >= 1 && cols
            != FEATURE_COUNT),
        r == Err::<(), TrainError>(TrainError::TargetMismatch) <==> (rows >= 1 && cols
            == FEATURE_COUNT && targets != rows),
{
    if rows == 0 {
        Err(TrainError::EmptyData)
    } else if cols != FEATURE_COUNT {
        Err(TrainError::WrongFeatureCount)
    } else if targets != rows {
        Err(TrainError::TargetMismatch)
    } else {
        Ok(())
    }
}

} // verus!
