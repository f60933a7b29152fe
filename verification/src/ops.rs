//! The operations, each as a function from an event to the next step.

use vstd::prelude::*;
use crate::class::Failure;
use crate::permit::absorb;
use crate::permit::absorbed;
use crate::policy::Operation;
use crate::protocol::Event;
use crate::protocol::Reply;
use crate::protocol::Request;
use crate::protocol::Step;

verus! {

/// The step after the host's reply to the one call that decides `op`: the
/// operation returns, and has taken a permitted failure for success.
pub open spec fn settled<E>(op: Operation, reply: Reply<E>) -> Step<(), E> {
    match reply {
        Reply::Done => Step::Return(Ok(())),
        Reply::Failed(failure) => Step::Return(absorbed(op, Err(failure))),
        Reply::Flag(_) => Step::Unexpected,
    }
}

/// The steps of an operation that is one host call: ask for the call, then
/// settle its reply.
pub open spec fn one_call<E>(op: Operation, call: Request, event: Event<E>) -> Step<(), E> {
    match event {
        Event::Called => Step::Ask(call),
        Event::Replied(request, reply) => if request == call {
            settled(op, reply)
        } else {
            Step::Unexpected
        },
    }
}

/// Making one directory.
pub open spec fn mkdir_next<E>(event: Event<E>) -> Step<(), E> {
    one_call(Operation::Mkdir, Request::CreateDir, event)
}

/// Creating a new, empty file.
pub open spec fn mkf_next<E>(event: Event<E>) -> Step<(), E> {
    one_call(Operation::Mkf, Request::CreateFile, event)
}

/// Making a directory and the directories above it.
pub open spec fn mkdir_p_next<E>(event: Event<E>) -> Step<(), E> {
    one_call(Operation::MkdirP, Request::CreateDirAll, event)
}

/// Removing one directory, and nothing in it.
pub open spec fn rmdir_next<E>(event: Event<E>) -> Step<(), E> {
    one_call(Operation::Rmdir, Request::RemoveDir, event)
}

/// Removing a directory and all that it holds.
pub open spec fn rmdir_r_next<E>(event: Event<E>) -> Step<(), E> {
    one_call(Operation::RmdirR, Request::RemoveDirAll, event)
}

/// Removing a file or a symbolic link.
pub open spec fn rmf_next<E>(event: Event<E>) -> Step<(), E> {
    one_call(Operation::Rmf, Request::RemoveFile, event)
}

/// The steps of removing whatever is at a path. A symbolic link or a regular
/// file is removed as a file, and the link is never followed; anything else is
/// removed as a directory, with all that it holds. Either way a path that is
/// not there is no failure.
pub open spec fn rm_next<E>(event: Event<E>) -> Step<(), E> {
    match event {
        Event::Called => Step::Ask(Request::IsSymlink),
        Event::Replied(Request::IsSymlink, Reply::Flag(link)) => Step::Ask(
            if link {
                Request::RemoveFile
            } else {
                Request::IsFile
            },
        ),
        Event::Replied(Request::IsFile, Reply::Flag(file)) => Step::Ask(
            if file {
                Request::RemoveFile
            } else {
                Request::RemoveDirAll
            },
        ),
        Event::Replied(Request::RemoveFile, reply) => settled(Operation::Rm, reply),
        Event::Replied(Request::RemoveDirAll, reply) => settled(Operation::Rm, reply),
        _ => Step::Unexpected,
    }
}

/// The steps of creating a file together with the directories above it. The
/// directories are made only where the path has a parent that is not there; a
/// failure to make them that is not permitted ends the operation, and the file
/// is not created. The file is created new: one that is there stays as it is.
pub open spec fn mkf_p_next<E>(event: Event<E>) -> Step<(), E> {
    match event {
        Event::Called => Step::Ask(Request::HasParent),
        Event::Replied(Request::HasParent, Reply::Flag(has)) => Step::Ask(
            if has {
                Request::ParentExists
            } else {
                Request::CreateFile
            },
        ),
        Event::Replied(Request::ParentExists, Reply::Flag(there)) => Step::Ask(
            if there {
                Request::CreateFile
            } else {
                Request::CreateParents
            },
        ),
        Event::Replied(Request::CreateParents, reply) => match settled(Operation::MkdirP, reply) {
            Step::Return(Ok(())) => Step::Ask(Request::CreateFile),
            other => other,
        },
        Event::Replied(Request::CreateFile, reply) => settled(Operation::MkfP, reply),
        _ => Step::Unexpected,
    }
}

/// The steps of telling whether a path is a directory. A path that the host
/// reports as a directory is one. Of the others only a symbolic link can still
/// be one: the link is read and what it points to is looked up, and a failure
/// of either goes to the caller.
pub open spec fn is_dir_next<E>(event: Event<E>) -> Step<bool, E> {
    match event {
        Event::Called => Step::Ask(Request::IsDir),
        Event::Replied(Request::IsDir, Reply::Flag(dir)) => if dir {
            Step::Return(Ok(true))
        } else {
            Step::Ask(Request::IsSymlink)
        },
        Event::Replied(Request::IsSymlink, Reply::Flag(link)) => if link {
            Step::Ask(Request::ReadLink)
        } else {
            Step::Return(Ok(false))
        },
        Event::Replied(Request::ReadLink, Reply::Done) => Step::Ask(Request::TargetIsDir),
        Event::Replied(Request::ReadLink, Reply::Failed(failure)) => Step::Return(Err(failure)),
        Event::Replied(Request::TargetIsDir, Reply::Flag(dir)) => Step::Return(Ok(dir)),
        Event::Replied(Request::TargetIsDir, Reply::Failed(failure)) => Step::Return(
            Err(failure),
        ),
        _ => Step::Unexpected,
    }
}

fn settle<E>(op: Operation, reply: Reply<E>) -> (step: Step<(), E>)
    ensures
        step == settled(op, reply),
{
    match reply {
        Reply::Done => Step::Return(absorb(op, Ok(()))),
        Reply::Failed(failure) => Step::Return(absorb(op, Err(failure))),
        Reply::Flag(_) => Step::Unexpected,
    }
}

fn call_once<E>(op: Operation, call: Request, event: Event<E>) -> (step: Step<(), E>)
    ensures
        step == one_call(op, call, event),
{
    match event {
        Event::Called => Step::Ask(call),
        Event::Replied(request, reply) => if request == call {
            settle(op, reply)
        } else {
            Step::Unexpected
        },
    }
}

/// Makes one directory. A directory that is there is no failure.
pub fn mkdir<E>(event: Event<E>) -> (step: Step<(), E>)
    ensures
        step == mkdir_next(event),
{
    call_once(Operation::Mkdir, Request::CreateDir, event)
}

/// Creates a new, empty file. A file that is there is no failure, and stays as
/// it is.
pub fn mkf<E>(event: Event<E>) -> (step: Step<(), E>)
    ensures
        step == mkf_next(event),
{
    call_once(Operation::Mkf, Request::CreateFile, event)
}

/// Creates a new, empty file, and before it the directories above it that are
/// missing.
pub fn mkf_p<E>(event: Event<E>) -> (step: Step<(), E>)
    ensures
        step == mkf_p_next(event),
{
    match event {
        Event::Called => Step::Ask(Request::HasParent),
        Event::Replied(Request::HasParent, Reply::Flag(has)) => if has {
            Step::Ask(Request::ParentExists)
        } else {
            Step::Ask(Request::CreateFile)
        },
        Event::Replied(Request::ParentExists, Reply::Flag(there)) => if there {
            Step::Ask(Request::CreateFile)
        } else {
            Step::Ask(Request::CreateParents)
        },
        Event::Replied(Request::CreateParents, reply) => {
            match mkdir_p(Event::Replied(Request::CreateDirAll, reply)) {
                Step::Return(Ok(())) => Step::Ask(Request::CreateFile),
                other => other,
            }
        },
        Event::Replied(Request::CreateFile, reply) => mkf(
            Event::Replied(Request::CreateFile, reply),
        ),
        _ => Step::Unexpected,
    }
}

/// Makes a directory and the directories above it that are missing. A
/// directory that is there is no failure.
pub fn mkdir_p<E>(event: Event<E>) -> (step: Step<(), E>)
    ensures
        step == mkdir_p_next(event),
{
    call_once(Operation::MkdirP, Request::CreateDirAll, event)
}

/// Removes one directory. A directory that is not there is no failure, and
/// neither is one that still has entries: it is left as it is.
pub fn rmdir<E>(event: Event<E>) -> (step: Step<(), E>)
    ensures
        step == rmdir_next(event),
{
    call_once(Operation::Rmdir, Request::RemoveDir, event)
}

/// Removes a file or a symbolic link. A file that is not there is no failure.
pub fn rmf<E>(event: Event<E>) -> (step: Step<(), E>)
    ensures
        step == rmf_next(event),
{
    call_once(Operation::Rmf, Request::RemoveFile, event)
}

/// Removes a directory and all that it holds. A directory that is not there is
/// no failure.
pub fn rmdir_r<E>(event: Event<E>) -> (step: Step<(), E>)
    ensures
        step == rmdir_r_next(event),
{
    call_once(Operation::RmdirR, Request::RemoveDirAll, event)
}

/// Removes whatever is at the path: a symbolic link, a file, or a directory
/// with all that it holds.
pub fn rm<E>(event: Event<E>) -> (step: Step<(), E>)
    ensures
        step == rm_next(event),
{
    match event {
        Event::Called => Step::Ask(Request::IsSymlink),
        Event::Replied(Request::IsSymlink, Reply::Flag(link)) => if link {
            Step::Ask(Request::RemoveFile)
        } else {
            Step::Ask(Request::IsFile)
        },
        Event::Replied(Request::IsFile, Reply::Flag(file)) => if file {
            Step::Ask(Request::RemoveFile)
        } else {
            Step::Ask(Request::RemoveDirAll)
        },
        Event::Replied(Request::RemoveFile, reply) => rmf(
            Event::Replied(Request::RemoveFile, reply),
        ),
        Event::Replied(Request::RemoveDirAll, reply) => rmdir_r(
            Event::Replied(Request::RemoveDirAll, reply),
        ),
        _ => Step::Unexpected,
    }
}

/// Tells whether the path is a directory, symbolic links followed.
pub fn is_dir<E>(event: Event<E>) -> (step: Step<bool, E>)
    ensures
        step == is_dir_next(event),
{
    match event {
        Event::Called => Step::Ask(Request::IsDir),
        Event::Replied(Request::IsDir, Reply::Flag(dir)) => if dir {
            Step::Return(Ok(true))
        } else {
            Step::Ask(Request::IsSymlink)
        },
        Event::Replied(Request::IsSymlink, Reply::Flag(link)) => if link {
            Step::Ask(Request::ReadLink)
        } else {
            Step::Return(Ok(false))
        },
        Event::Replied(Request::ReadLink, Reply::Done) => Step::Ask(Request::TargetIsDir),
        Event::Replied(Request::ReadLink, Reply::Failed(failure)) => Step::Return(Err(failure)),
        Event::Replied(Request::TargetIsDir, Reply::Flag(dir)) => Step::Return(Ok(dir)),
        Event::Replied(Request::TargetIsDir, Reply::Failed(failure)) => Step::Return(
            Err(failure),
        ),
        _ => Step::Unexpected,
    }
}

} // verus!
