//! The errors of the key schedule.
use vstd::prelude::*;

verus! {

/// Why a key-schedule operation failed.
#[derive(Clone, Copy, Debug, PartialEq, Eq, Structural)]
pub enum Error {
    /// The protocol version is not TLS 1.3.
    UnsupportedVersion,
    /// The cipher suite is not one that the key schedule knows.
    UnsupportedCipher,
    /// A length does not fit the provider's calling convention.
    BoundsError,
    /// The cryptographic provider reported a failure.
    ProviderFailure,
}

/// The result of a key-schedule operation.
pub type Res<T> = Result<T, Error>;

} // verus!
