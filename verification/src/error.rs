//! The ways in which an operation on the alarm registry can fail.

use vstd::prelude::*;

verus! {

/// Why an operation failed. No failure ends the process: each is handed to
/// the caller, and the registry is left as the operation's contract says.
#[derive(Clone, Copy, Debug, PartialEq, Eq, Structural)]
pub enum ErrorKind {
    /// A time of day was not written as `HH:MM`.
    InvalidTimeFormat,
    /// No alarm of the registry has the identifier that was given.
    NotFound,
    /// A directory or file could not be created, read or written.
    IoFailure,
    /// The stored document could not be decoded, or the alarms not encoded.
    SerializationFailure,
    /// The lock that guards the registry could not be taken.
    LockFailure,
}

/// What taking the registry's lock gave: the guarded value, or `LockFailure`
/// where the lock could not be taken. `guard` is `None` in that case.
pub fn lock_result<T>(guard: Option<T>) -> (taken: Result<T, ErrorKind>)
    ensures
        taken == match guard {
            Some(value) => Ok::<T, ErrorKind>(value),
            None => Err::<T, ErrorKind>(ErrorKind::LockFailure),
        },
{
    match guard {
        Some(value) => Ok(value),
        None => Err(ErrorKind::LockFailure),
    }
}

} // verus!
