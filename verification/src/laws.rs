//! What holds of every run of the operations.
//!
//! The laws speak of a host by what it replies. What the host's filesystem
//! holds after a call is the host's affair; what the laws fix is which calls
//! an operation asks for, and what it makes of the replies.

use vstd::prelude::*;
use crate::class::ErrorClass;
use crate::class::Failure;
use crate::ops::settled;
use crate::policy::Operation;
use crate::protocol::Reply;
use crate::protocol::Request;
use crate::protocol::Step;
use crate::run::is_dir_run;
use crate::run::mkdir_p_run;
use crate::run::mkdir_run;
use crate::run::mkf_p_run;
use crate::run::mkf_run;
use crate::run::rm_run;
use crate::run::rmdir_r_run;
use crate::run::rmdir_run;
use crate::run::rmf_run;
use crate::run::run_from;
use crate::run::Host;
use crate::run::Run;

verus! {

/// The host reports that the call was made, or that what it was to create is
/// already there.
pub open spec fn made_or_there<E>(reply: Reply<E>) -> bool {
    match reply {
        Reply::Done => true,
        Reply::Failed(failure) => failure.class == ErrorClass::AlreadyExists,
        Reply::Flag(_) => false,
    }
}

/// The host reports that what the call was to remove is not there.
pub open spec fn gone<E>(reply: Reply<E>) -> bool {
    reply matches Reply::Failed(failure) && failure.class == ErrorClass::NotFound
}

/// The host reports that the directory still has entries.
pub open spec fn populated<E>(reply: Reply<E>) -> bool {
    reply matches Reply::Failed(failure) && failure.class == ErrorClass::DirectoryNotEmpty
}

/// The host answers the question with this flag.
pub open spec fn says<E>(host: Host<E>, question: Request, flag: bool) -> bool {
    host(question) == Reply::<E>::Flag(flag)
}

/// The run put exactly these requests, and ended with this step.
pub open spec fn ran<T, E>(r: Run<T, E>, asked: Seq<Request>, end: Step<T, E>) -> bool {
    r.asked == asked && r.end == end
}

/// The run put exactly these requests, and ended in success.
pub open spec fn succeeded_with<E>(r: Run<(), E>, asked: Seq<Request>) -> bool {
    ran(r, asked, Step::Return(Ok(())))
}

/// Every reply of the host is of a kind that its request can have.
pub open spec fn fitting<E>(host: Host<E>) -> bool {
    forall|request: Request| (#[trigger] host(request)).fits(request)
}

/// The run put at least one request and at most four, and none twice.
pub open spec fn asked_once<T, E>(r: Run<T, E>) -> bool {
    0 < r.asked.len() <= 4 && r.asked.no_duplicates()
}

/// The run of `op` came to a result: the host's reply to the last request,
/// with the failures that `op` permits taken for success.
pub open spec fn decided_by_last<E>(op: Operation, r: Run<(), E>, host: Host<E>) -> bool {
    &&& asked_once(r)
    &&& r.end is Return
    &&& r.end == settled(op, host(r.asked.last()))
}

/// No request of the run can change what is on the host.
pub open spec fn changes_nothing<T, E>(r: Run<T, E>) -> bool {
    forall|i: int| 0 <= i < r.asked.len() ==> !(#[trigger] r.asked[i]).changes()
}

/// Only the last request of the run can change what is on the host.
pub open spec fn changes_last_only<T, E>(r: Run<T, E>) -> bool {
    forall|i: int| 0 <= i < r.asked.len() - 1 ==> !(#[trigger] r.asked[i]).changes()
}

/// Only the last request of the run can change what is on the host, and
/// before it the making of the parents, which the creation of the file then
/// follows at once.
pub open spec fn changes_for_parents_and_file<T, E>(r: Run<T, E>) -> bool {
    forall|i: int|
        0 <= i < r.asked.len() - 1 && (#[trigger] r.asked[i]).changes() ==> r.asked[i]
            == Request::CreateParents && r.asked[i + 1] == Request::CreateFile
}

/// The changes that the run of `op` can make to the host are those that `op`
/// may make.
pub open spec fn changes_in_bounds<E>(op: Operation, r: Run<(), E>) -> bool {
    if op == Operation::MkfP {
        changes_for_parents_and_file(r)
    } else {
        changes_last_only(r)
    }
}

/// The eight operations that return no value, each with its run against one
/// host.
pub open spec fn unit_runs<E>(host: Host<E>) -> Seq<(Operation, Run<(), E>)> {
    seq![
        (Operation::Mkdir, mkdir_run(host)),
        (Operation::Mkf, mkf_run(host)),
        (Operation::MkfP, mkf_p_run(host)),
        (Operation::MkdirP, mkdir_p_run(host)),
        (Operation::Rmdir, rmdir_run(host)),
        (Operation::RmdirR, rmdir_r_run(host)),
        (Operation::Rmf, rmf_run(host)),
        (Operation::Rm, rm_run(host)),
    ]
}

/// Creating is idempotent. An operation that creates succeeds whether the host
/// makes what was asked for or reports it as already there, so a second call
/// succeeds as the first did. Each of the three that are one host call asks
/// for that call and nothing else.
pub proof fn creating_what_is_there_succeeds<E>(host: Host<E>)
    ensures
        made_or_there(host(Request::CreateDir)) ==> succeeded_with(
            mkdir_run(host),
            seq![Request::CreateDir],
        ),
        made_or_there(host(Request::CreateFile)) ==> succeeded_with(
            mkf_run(host),
            seq![Request::CreateFile],
        ),
        made_or_there(host(Request::CreateDirAll)) ==> succeeded_with(
            mkdir_p_run(host),
            seq![Request::CreateDirAll],
        ),
        host(Request::HasParent) is Flag && host(Request::ParentExists) is Flag && made_or_there(
            host(Request::CreateParents),
        ) && made_or_there(host(Request::CreateFile)) ==> mkf_p_run(host).end == Step::<
            (),
            E,
        >::Return(Ok(())),
{
    reveal_with_fuel(run_from, 5);
    assert(mkdir_run(host).asked =~= seq![Request::CreateDir]);
    assert(mkf_run(host).asked =~= seq![Request::CreateFile]);
    assert(mkdir_p_run(host).asked =~= seq![Request::CreateDirAll]);
}

/// Removing is idempotent. Where the host reports that what was to be removed
/// is not there, removing a file, removing a directory with all that it holds
/// and removing whatever is at the path succeed, and none asks the host for a
/// second removal.
pub proof fn removing_what_is_gone_succeeds<E>(host: Host<E>)
    ensures
        gone(host(Request::RemoveFile)) ==> succeeded_with(
            rmf_run(host),
            seq![Request::RemoveFile],
        ),
        gone(host(Request::RemoveDirAll)) ==> succeeded_with(
            rmdir_r_run(host),
            seq![Request::RemoveDirAll],
        ),
        says(host, Request::IsSymlink, false) && says(host, Request::IsFile, false) && gone(
            host(Request::RemoveDirAll),
        ) ==> succeeded_with(
            rm_run(host),
            seq![Request::IsSymlink, Request::IsFile, Request::RemoveDirAll],
        ),
{
    reveal_with_fuel(run_from, 5);
    assert(rmf_run(host).asked =~= seq![Request::RemoveFile]);
    assert(rmdir_r_run(host).asked =~= seq![Request::RemoveDirAll]);
    if says(host, Request::IsSymlink, false) && says(host, Request::IsFile, false) {
        assert(rm_run(host).asked =~= seq![
            Request::IsSymlink,
            Request::IsFile,
            Request::RemoveDirAll,
        ]);
    }
}

/// Removing one directory never asks the host for anything but to remove that
/// directory if it is empty. Where the host reports that the directory still
/// has entries, the operation succeeds all the same: the directory and what it
/// holds were left alone.
pub proof fn rmdir_spares_what_is_inside<E>(host: Host<E>)
    ensures
        rmdir_run(host).asked == seq![Request::RemoveDir],
        populated(host(Request::RemoveDir)) ==> rmdir_run(host).end == Step::<(), E>::Return(
            Ok(()),
        ),
{
    reveal_with_fuel(run_from, 3);
    assert(rmdir_run(host).asked =~= seq![Request::RemoveDir]);
}

/// Creating a file with its parents, where the path has a parent that is not
/// there: the parents are made first, then the file. Once they are there, a
/// further call asks for no directory, and of the file only that it be created
/// new, which the host refuses for a file that exists: the call succeeds and
/// the file stays as it was. A path without a parent has only the file
/// created.
pub proof fn mkf_p_makes_parents_once<E>(host: Host<E>)
    requires
        made_or_there(host(Request::CreateFile)),
    ensures
        says(host, Request::HasParent, true) && says(host, Request::ParentExists, false)
            && made_or_there(host(Request::CreateParents)) ==> succeeded_with(
            mkf_p_run(host),
            seq![
                Request::HasParent,
                Request::ParentExists,
                Request::CreateParents,
                Request::CreateFile,
            ],
        ),
        says(host, Request::HasParent, true) && says(host, Request::ParentExists, true)
            ==> succeeded_with(
            mkf_p_run(host),
            seq![Request::HasParent, Request::ParentExists, Request::CreateFile],
        ),
        says(host, Request::HasParent, false) ==> succeeded_with(
            mkf_p_run(host),
            seq![Request::HasParent, Request::CreateFile],
        ),
{
    reveal_with_fuel(run_from, 5);
    let r = mkf_p_run(host);
    if says(host, Request::HasParent, true) {
        if says(host, Request::ParentExists, false) {
            assert(made_or_there(host(Request::CreateParents)) ==> r.asked =~= seq![
                Request::HasParent,
                Request::ParentExists,
                Request::CreateParents,
                Request::CreateFile,
            ]);
        }
        if says(host, Request::ParentExists, true) {
            assert(r.asked =~= seq![
                Request::HasParent,
                Request::ParentExists,
                Request::CreateFile,
            ]);
        }
    }
    if says(host, Request::HasParent, false) {
        assert(r.asked =~= seq![Request::HasParent, Request::CreateFile]);
    }
}

/// Where the parents of a file cannot be made, and the failure is none that is
/// permitted, creating the file with its parents returns that failure and
/// never asks for the file.
pub proof fn mkf_p_stops_without_parents<E>(host: Host<E>, failure: Failure<E>)
    requires
        says(host, Request::HasParent, true),
        says(host, Request::ParentExists, false),
        host(Request::CreateParents) == Reply::Failed(failure),
        failure.class != ErrorClass::AlreadyExists,
    ensures
        ran(
            mkf_p_run(host),
            seq![Request::HasParent, Request::ParentExists, Request::CreateParents],
            Step::Return(Err(failure)),
        ),
{
    reveal_with_fuel(run_from, 5);
    assert(mkf_p_run(host).asked =~= seq![
        Request::HasParent,
        Request::ParentExists,
        Request::CreateParents,
    ]);
}

/// Removing whatever is at a path goes by what is there. A symbolic link is
/// removed as a file, whatever it points to, and so is a regular file: the
/// host is asked for no other removal. Anything else is removed as a
/// directory, with all that it holds. The one removal that is asked for
/// decides the result.
pub proof fn rm_removes_by_type<E>(host: Host<E>)
    ensures
        says(host, Request::IsSymlink, true) ==> ran(
            rm_run(host),
            seq![Request::IsSymlink, Request::RemoveFile],
            settled(Operation::Rm, host(Request::RemoveFile)),
        ),
        says(host, Request::IsSymlink, false) && says(host, Request::IsFile, true) ==> ran(
            rm_run(host),
            seq![Request::IsSymlink, Request::IsFile, Request::RemoveFile],
            settled(Operation::Rm, host(Request::RemoveFile)),
        ),
        says(host, Request::IsSymlink, false) && says(host, Request::IsFile, false) ==> ran(
            rm_run(host),
            seq![Request::IsSymlink, Request::IsFile, Request::RemoveDirAll],
            settled(Operation::Rm, host(Request::RemoveDirAll)),
        ),
{
    reveal_with_fuel(run_from, 5);
    let r = rm_run(host);
    if says(host, Request::IsSymlink, true) {
        assert(r.asked =~= seq![Request::IsSymlink, Request::RemoveFile]);
    } else if says(host, Request::IsSymlink, false) {
        if says(host, Request::IsFile, true) {
            assert(r.asked =~= seq![Request::IsSymlink, Request::IsFile, Request::RemoveFile]);
        } else if says(host, Request::IsFile, false) {
            assert(r.asked =~= seq![
                Request::IsSymlink,
                Request::IsFile,
                Request::RemoveDirAll,
            ]);
        }
    }
}

/// Telling whether a path is a directory follows symbolic links. A path that
/// the host reports as a directory is one, and one that is neither that nor a
/// symbolic link is none. A symbolic link is a directory exactly if what it
/// points to is one; where the link cannot be read, or what it points to cannot
/// be looked up, the failure is returned, not `false`.
pub proof fn is_dir_follows_links<E>(host: Host<E>)
    ensures
        says(host, Request::IsDir, true) ==> is_dir_run(host).end == Step::<bool, E>::Return(
            Ok(true),
        ),
        says(host, Request::IsDir, false) && says(host, Request::IsSymlink, false) ==> is_dir_run(
            host,
        ).end == Step::<bool, E>::Return(Ok(false)),
        says(host, Request::IsDir, false) && says(host, Request::IsSymlink, true) ==> is_dir_run(
            host,
        ).end == (match (host(Request::ReadLink), host(Request::TargetIsDir)) {
            (Reply::Failed(failure), _) => Step::<bool, E>::Return(Err(failure)),
            (Reply::Done, Reply::Flag(dir)) => Step::Return(Ok(dir)),
            (Reply::Done, Reply::Failed(failure)) => Step::Return(Err(failure)),
            _ => Step::Unexpected,
        }),
{
    reveal_with_fuel(run_from, 5);
}

/// Against a host whose replies fit the requests, each of the eight operations
/// that return no value comes to its result after at most four requests, and
/// puts none twice: nothing is tried again. The result is the host's reply to
/// the last request, with the failures that the operation permits taken for
/// success: a failure that is not permitted comes back as the host gave it.
pub proof fn last_reply_decides<E>(host: Host<E>)
    requires
        fitting(host),
    ensures
        forall|i: int|
            0 <= i < 8 ==> decided_by_last(
                (#[trigger] unit_runs(host)[i]).0,
                unit_runs(host)[i].1,
                host,
            ),
{
    reveal_with_fuel(run_from, 5);
    each_reply_fits(host);
}

/// Against a host whose replies fit the requests, telling whether a path is a
/// directory comes to its result after at most four requests, and puts none
/// twice. It takes no failure for success: where the host fails to read the
/// link, or to look up what it points to, that failure is the result, as the
/// host gave it.
pub proof fn is_dir_hides_no_failure<E>(host: Host<E>)
    requires
        fitting(host),
    ensures
        asked_once(is_dir_run(host)),
        is_dir_run(host).end is Return,
        host(is_dir_run(host).asked.last()) matches Reply::Failed(failure) ==> is_dir_run(
            host,
        ).end == Step::<bool, E>::Return(Err(failure)),
{
    reveal_with_fuel(run_from, 5);
    each_reply_fits(host);
}

/// An operation changes the host by one call at most, the last that it asks
/// for; what comes before are questions. Creating a file with its parents is
/// the one exception, with two calls at most: to make the parents, and to
/// create the file. Telling whether a path is a directory changes nothing.
pub proof fn one_change_at_most<E>(host: Host<E>)
    ensures
        forall|i: int|
            0 <= i < 8 ==> changes_in_bounds(
                (#[trigger] unit_runs(host)[i]).0,
                unit_runs(host)[i].1,
            ),
        changes_nothing(is_dir_run(host)),
{
    reveal_with_fuel(run_from, 5);
}

proof fn each_reply_fits<E>(host: Host<E>)
    requires
        fitting(host),
    ensures
        host(Request::CreateDir).fits(Request::CreateDir),
        host(Request::CreateDirAll).fits(Request::CreateDirAll),
        host(Request::CreateFile).fits(Request::CreateFile),
        host(Request::RemoveDir).fits(Request::RemoveDir),
        host(Request::RemoveDirAll).fits(Request::RemoveDirAll),
        host(Request::RemoveFile).fits(Request::RemoveFile),
        host(Request::HasParent).fits(Request::HasParent),
        host(Request::ParentExists).fits(Request::ParentExists),
        host(Request::CreateParents).fits(Request::CreateParents),
        host(Request::IsSymlink).fits(Request::IsSymlink),
        host(Request::IsFile).fits(Request::IsFile),
        host(Request::IsDir).fits(Request::IsDir),
        host(Request::ReadLink).fits(Request::ReadLink),
        host(Request::TargetIsDir).fits(Request::TargetIsDir),
{
}

} // verus!
