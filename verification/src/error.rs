use vstd::prelude::*;

verus! {

/// Why an operation on the store did not take effect.
#[derive(Clone, Copy, Debug, PartialEq, Eq, Structural)]
pub enum StoreError {
    /// The key was never set.
    KeyNotFound,
    /// The key holds a value of another type than the one asked for.
    TypeMismatch,
    /// The text is not an encoding of a value of the type asked for.
    DecodeError,
    /// The value has no text encoding that decodes back to it.
    EncodeError,
    /// A persistence operation was asked of a store that does not persist.
    PersistenceUnavailable,
    /// The notification sink did not take a notification.
    TransportFailure,
    /// A holder of the entry failed while it had the entry to itself.
    LockPoisoned,
}

} // verus!
