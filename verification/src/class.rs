//! How a failed host call is classified.

use vstd::prelude::*;

verus! {

/// Makes the kinds of I/O error of the standard library, with their names,
/// known to the verifier.
#[verifier::external_type_specification]
pub struct ExErrorKind(std::io::ErrorKind);

/// The classes of failure that the operations tell apart.
#[derive(Clone, Copy, Debug, PartialEq, Eq, Structural)]
pub enum ErrorClass {
    /// The target of a creation is already there.
    AlreadyExists,
    /// The target of a removal is already gone.
    NotFound,
    /// A directory that was to be removed alone still has entries.
    DirectoryNotEmpty,
    /// Anything else: permission denied, an I/O error, an invalid path, a full disk.
    Other,
}

/// The class that a kind of I/O error falls under.
pub open spec fn class_of(kind: std::io::ErrorKind) -> ErrorClass {
    match kind {
        std::io::ErrorKind::AlreadyExists => ErrorClass::AlreadyExists,
        std::io::ErrorKind::NotFound => ErrorClass::NotFound,
        std::io::ErrorKind::DirectoryNotEmpty => ErrorClass::DirectoryNotEmpty,
        _ => ErrorClass::Other,
    }
}

/// Classifies a kind of I/O error.
pub fn classify(kind: std::io::ErrorKind) -> (class: ErrorClass)
    ensures
        class == class_of(kind),
{
    match kind {
        std::io::ErrorKind::AlreadyExists => ErrorClass::AlreadyExists,
        std::io::ErrorKind::NotFound => ErrorClass::NotFound,
        std::io::ErrorKind::DirectoryNotEmpty => ErrorClass::DirectoryNotEmpty,
        _ => ErrorClass::Other,
    }
}

/// A failed host call: its class, and the host's own error, which is carried
/// along untouched.
#[derive(Debug)]
pub struct Failure<E> {
    pub class: ErrorClass,
    pub source: E,
}

impl<E> Failure<E> {
    /// A failure of the given kind.
    pub fn new(kind: std::io::ErrorKind, source: E) -> (failure: Self)
        ensures
            failure.class == class_of(kind),
            failure.source == source,
    {
        Failure { class: classify(kind), source }
    }
}

} // verus!
