//! An operation run to its end against a host.

use vstd::prelude::*;
use crate::ops::is_dir_next;
use crate::ops::mkdir_next;
use crate::ops::mkdir_p_next;
use crate::ops::mkf_next;
use crate::ops::mkf_p_next;
use crate::ops::rm_next;
use crate::ops::rmdir_next;
use crate::ops::rmdir_r_next;
use crate::ops::rmf_next;
use crate::protocol::Event;
use crate::protocol::Reply;
use crate::protocol::Request;
use crate::protocol::Step;

verus! {

/// A host, as far as one run of an operation meets it: what it replies to each
/// request. No operation puts a request twice.
pub type Host<E> = spec_fn(Request) -> Reply<E>;

/// A run of an operation: the requests that it put to the host, in order, and
/// the step at which it stopped.
pub struct Run<T, E> {
    pub asked: Seq<Request>,
    pub end: Step<T, E>,
}

/// The run that begins with `event` and puts at most `limit` requests.
pub open spec fn run_from<T, E>(
    next: spec_fn(Event<E>) -> Step<T, E>,
    host: Host<E>,
    event: Event<E>,
    limit: nat,
) -> Run<T, E>
    decreases limit,
{
    match next(event) {
        Step::Ask(request) if limit > 0 => {
            let rest = run_from(
                next,
                host,
                Event::Replied(request, host(request)),
                (limit - 1) as nat,
            );
            Run { asked: seq![request] + rest.asked, end: rest.end }
        },
        step => Run { asked: Seq::empty(), end: step },
    }
}

/// The most requests that an operation puts in one run.
pub open spec fn longest() -> nat {
    4
}

/// The run of an operation from its call on.
pub open spec fn run<T, E>(next: spec_fn(Event<E>) -> Step<T, E>, host: Host<E>) -> Run<T, E> {
    run_from(next, host, Event::Called, longest())
}

/// The run of making one directory.
pub open spec fn mkdir_run<E>(host: Host<E>) -> Run<(), E> {
    run(|event: Event<E>| mkdir_next(event), host)
}

/// The run of creating a file.
pub open spec fn mkf_run<E>(host: Host<E>) -> Run<(), E> {
    run(|event: Event<E>| mkf_next(event), host)
}

/// The run of creating a file with its parents.
pub open spec fn mkf_p_run<E>(host: Host<E>) -> Run<(), E> {
    run(|event: Event<E>| mkf_p_next(event), host)
}

/// The run of making a directory with its parents.
pub open spec fn mkdir_p_run<E>(host: Host<E>) -> Run<(), E> {
    run(|event: Event<E>| mkdir_p_next(event), host)
}

/// The run of removing one directory.
pub open spec fn rmdir_run<E>(host: Host<E>) -> Run<(), E> {
    run(|event: Event<E>| rmdir_next(event), host)
}

/// The run of removing a directory with all that it holds.
pub open spec fn rmdir_r_run<E>(host: Host<E>) -> Run<(), E> {
    run(|event: Event<E>| rmdir_r_next(event), host)
}

/// The run of removing a file.
pub open spec fn rmf_run<E>(host: Host<E>) -> Run<(), E> {
    run(|event: Event<E>| rmf_next(event), host)
}

/// The run of removing whatever is at the path.
pub open spec fn rm_run<E>(host: Host<E>) -> Run<(), E> {
    run(|event: Event<E>| rm_next(event), host)
}

/// The run of telling whether the path is a directory.
pub open spec fn is_dir_run<E>(host: Host<E>) -> Run<bool, E> {
    run(|event: Event<E>| is_dir_next(event), host)
}

} // verus!
