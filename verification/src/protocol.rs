//! What passes between an operation and the host filesystem.
//!
//! An operation never touches the filesystem. It is a function from an event to
//! a step: it asks the host for one thing at a time and is called again with
//! the host's reply, until it returns its result. The path that the operation
//! is about stays with the caller.

use vstd::prelude::*;
use crate::class::Failure;

verus! {

/// One thing asked of the host, about the path that the operation is called on.
#[derive(Clone, Copy, Debug, PartialEq, Eq, Structural)]
pub enum Request {
    /// Make the directory, and only it.
    CreateDir,
    /// Make the directory and every directory above it that is missing.
    CreateDirAll,
    /// Create a new, empty file; fail if anything is at the path.
    CreateFile,
    /// Remove the directory if it is empty.
    RemoveDir,
    /// Remove the directory and all that it holds.
    RemoveDirAll,
    /// Remove the file or symbolic link.
    RemoveFile,
    /// Does the path have a parent?
    HasParent,
    /// Does the path's parent exist?
    ParentExists,
    /// Make the path's parent and every directory above it that is missing.
    CreateParents,
    /// Is the path itself a symbolic link?
    IsSymlink,
    /// Is the path, symbolic links followed, a regular file?
    IsFile,
    /// Is the path, symbolic links followed, a directory?
    IsDir,
    /// Read where the symbolic link at the path points to.
    ReadLink,
    /// Look up what the link was read to point to: is it a directory?
    TargetIsDir,
}

/// The host's reply to a request.
#[derive(Debug)]
pub enum Reply<E> {
    /// The call was made and succeeded.
    Done,
    /// The answer to a question.
    Flag(bool),
    /// The call failed.
    Failed(Failure<E>),
}

/// What an operation is called with.
#[derive(Debug)]
pub enum Event<E> {
    /// The operation begins.
    Called,
    /// The host has replied to the request that the operation made last.
    Replied(Request, Reply<E>),
}

/// What an operation does next.
#[derive(Debug)]
pub enum Step<T, E> {
    /// Put this request to the host, and come back with its reply.
    Ask(Request),
    /// The operation is over, with this result.
    Return(Result<T, Failure<E>>),
    /// The event is none that the operation awaits.
    Unexpected,
}

impl Request {
    /// A request that can change what is on the host.
    pub open spec fn changes(self) -> bool {
        match self {
            Request::CreateDir
            | Request::CreateDirAll
            | Request::CreateFile
            | Request::RemoveDir
            | Request::RemoveDirAll
            | Request::RemoveFile
            | Request::CreateParents => true,
            _ => false,
        }
    }

    /// A request for a call that may fail.
    pub open spec fn may_fail(self) -> bool {
        self.changes() || self == Request::ReadLink || self == Request::TargetIsDir
    }

    /// A request that is a question, answered by a flag.
    pub open spec fn asks(self) -> bool {
        !self.changes() && self != Request::ReadLink
    }
}

impl<E> Reply<E> {
    /// A reply of a kind that the request can have.
    pub open spec fn fits(self, request: Request) -> bool {
        match self {
            Reply::Done => !request.asks(),
            Reply::Flag(_) => request.asks(),
            Reply::Failed(_) => request.may_fail(),
        }
    }
}

} // verus!
