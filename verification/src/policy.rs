//! Which classes of failure each operation takes for success.

use vstd::prelude::*;
use crate::class::ErrorClass;
use crate::class::Failure;

verus! {

/// The operations of the library.
#[derive(Clone, Copy, Debug, PartialEq, Eq, Structural)]
pub enum Operation {
    /// Make one directory.
    Mkdir,
    /// Create a new, empty file.
    Mkf,
    /// Create a new, empty file, and before it the directories above it.
    MkfP,
    /// Make a directory and the directories above it.
    MkdirP,
    /// Remove one empty directory.
    Rmdir,
    /// Remove a directory and all that it holds.
    RmdirR,
    /// Remove a file or a symbolic link.
    Rmf,
    /// Remove whatever is at the path.
    Rm,
    /// Tell whether the path is a directory.
    IsDir,
}

/// The classes of failure that an operation takes for success: those under
/// which the state that it was to bring about holds anyway. What was to be
/// created is there; what was to be removed is gone. Removing one directory
/// also lets a directory stand that still has entries. Telling whether a path
/// is a directory permits nothing.
pub open spec fn allowed(op: Operation) -> Set<ErrorClass> {
    match op {
        Operation::Mkdir | Operation::Mkf | Operation::MkfP | Operation::MkdirP => {
            set![ErrorClass::AlreadyExists]
        },
        Operation::Rmdir => set![ErrorClass::NotFound, ErrorClass::DirectoryNotEmpty],
        Operation::RmdirR | Operation::Rmf | Operation::Rm => set![ErrorClass::NotFound],
        Operation::IsDir => Set::empty(),
    }
}

/// Whether `op` takes a failure of class `class` for success.
pub open spec fn permitted(op: Operation, class: ErrorClass) -> bool {
    allowed(op).contains(class)
}

/// Whether `op` takes a failure of class `class` for success.
pub fn is_permitted(op: Operation, class: ErrorClass) -> (yes: bool)
    ensures
        yes == permitted(op, class),
{
    match op {
        Operation::Mkdir | Operation::Mkf | Operation::MkfP | Operation::MkdirP => {
            class == ErrorClass::AlreadyExists
        },
        Operation::Rmdir => {
            class == ErrorClass::NotFound || class == ErrorClass::DirectoryNotEmpty
        },
        Operation::RmdirR | Operation::Rmf | Operation::Rm => class == ErrorClass::NotFound,
        Operation::IsDir => false,
    }
}

impl<E> Failure<E> {
    /// Whether `op` takes this failure for success.
    pub fn permitted_by(&self, op: Operation) -> (yes: bool)
        ensures
            yes == permitted(op, self.class),
    {
        is_permitted(op, self.class)
    }
}

} // verus!
