//! Failures that the storage engine reports to its caller.

use vstd::prelude::*;

verus! {

/// Why an operation on the cache did not take effect.
#[derive(Clone, Copy, Debug, PartialEq, Eq, Structural)]
pub enum StorageError {
    /// The operation needs a live record under the key and there is none.
    NotFound,
    /// The key holds a live record where none may be, or the record's
    /// version differs from the one the caller supplied.
    KeyExists,
    /// A delta was applied to a value that is not an unsigned decimal number.
    ArithOnNonNumeric,
}

/// Result of a storage operation.
pub type StorageResult<T> = Result<T, StorageError>;

} // verus!
