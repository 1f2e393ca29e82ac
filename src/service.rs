use vstd::prelude::*;

use crate::error::AppError;
use crate::model::Todo;

verus! {

/// What a write to the database means for the request: a failure of the
/// store, no row touched (the todo does not exist), or done.
pub fn affected_outcome(rows_affected: Result<u64, String>) -> (r: Result<(), AppError>)
    ensures
        rows_affected matches Err(detail) ==> r == Err::<(), AppError>(AppError::StorageError(detail)),
        rows_affected == Ok::<u64, String>(0) ==> r == Err::<(), AppError>(AppError::NotFound),
        rows_affected matches Ok(n) && n > 0 ==> r == Ok::<(), AppError>(()),
{
    match rows_affected {
        Err(detail) => Err(AppError::StorageError(detail)),
        Ok(n) => if n == 0 {
            Err(AppError::NotFound)
        } else {
            Ok(())
        },
    }
}

/// What a lookup of one todo means for the request.
pub fn fetched_outcome(found: Result<Option<Todo>, String>) -> (r: Result<Todo, AppError>)
    ensures
        found matches Err(detail) ==> r == Err::<Todo, AppError>(AppError::StorageError(detail)),
        found == Ok::<Option<Todo>, String>(None) ==> r == Err::<Todo, AppError>(AppError::NotFound),
        found matches Ok(Some(t)) ==> r == Ok::<Todo, AppError>(t),
{
    match found {
        Err(detail) => Err(AppError::StorageError(detail)),
        Ok(None) => Err(AppError::NotFound),
        Ok(Some(t)) => Ok(t),
    }
}

/// A store result whose only failure is the store's own.
pub fn stored_outcome<T>(result: Result<T, String>) -> (r: Result<T, AppError>)
    ensures
        result matches Ok(v) ==> r == Ok::<T, AppError>(v),
        result matches Err(detail) ==> r == Err::<T, AppError>(AppError::StorageError(detail)),
{
    match result {
        Ok(v) => Ok(v),
        Err(detail) => Err(AppError::StorageError(detail)),
    }
}

} // verus!
