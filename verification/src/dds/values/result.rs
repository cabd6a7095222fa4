use vstd::prelude::*;

verus! {

/// Why an operation of the application surface failed.
#[derive(Clone, Copy, Debug, PartialEq, Eq, Structural, Hash)]
pub enum Error {
    /// A resource ran out: a channel stayed full for the blocking time, or
    /// the sequence numbers of a writer are used up.
    OutOfResources,
    /// The participant that owns the entity is gone.
    PreconditionNotMet,
    /// A data type could not be serialized.
    Serialization,
    /// A fault inside the middleware.
    Internal,
}

/// The result of an operation of the application surface.
pub type Result<T> = core::result::Result<T, Error>;

} // verus!
