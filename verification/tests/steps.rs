//! Single steps of the operations, on chosen events.

use fshelpers::{
    classify, is_dir, is_permitted, mkdir, mkdir_p, mkf, mkf_p, rm, rmdir, rmdir_r, rmf,
    ErrorClass, Event, Failure, Operation, Reply, Request, Step,
};
use std::io::ErrorKind;

const CLASSES: [ErrorClass; 4] = [
    ErrorClass::AlreadyExists,
    ErrorClass::NotFound,
    ErrorClass::DirectoryNotEmpty,
    ErrorClass::Other,
];

fn failed(class: ErrorClass, source: u32) -> Reply<u32> {
    Reply::Failed(Failure { class, source })
}

/// What `op` does with a failure of `class` as the reply to `request`: `None`
/// where it returns success, the failure's source where it returns the failure.
fn after(
    op: fn(Event<u32>) -> Step<(), u32>,
    request: Request,
    class: ErrorClass,
) -> Option<(ErrorClass, u32)> {
    match op(Event::Replied(request, failed(class, 7))) {
        Step::Return(Ok(())) => None,
        Step::Return(Err(failure)) => Some((failure.class, failure.source)),
        step => panic!("the operation went on: {:?}", step),
    }
}

#[test]
fn classify_tells_three_kinds_apart() {
    assert_eq!(classify(ErrorKind::AlreadyExists), ErrorClass::AlreadyExists);
    assert_eq!(classify(ErrorKind::NotFound), ErrorClass::NotFound);
    assert_eq!(classify(ErrorKind::DirectoryNotEmpty), ErrorClass::DirectoryNotEmpty);
    assert_eq!(classify(ErrorKind::PermissionDenied), ErrorClass::Other);
    assert_eq!(classify(ErrorKind::InvalidInput), ErrorClass::Other);
    assert_eq!(classify(ErrorKind::StorageFull), ErrorClass::Other);
    assert_eq!(classify(ErrorKind::NotADirectory), ErrorClass::Other);
}

#[test]
fn failure_keeps_class_and_source() {
    let failure = Failure::new(ErrorKind::NotFound, "no such file");
    assert_eq!(failure.class, ErrorClass::NotFound);
    assert_eq!(failure.source, "no such file");
    assert!(failure.permitted_by(Operation::Rmf));
    assert!(!failure.permitted_by(Operation::Mkf));
    let failure = Failure::new(ErrorKind::PermissionDenied, 13);
    assert_eq!(failure.class, ErrorClass::Other);
    assert_eq!(failure.source, 13);
}

#[test]
fn creating_permits_already_exists_only() {
    for op in [Operation::Mkdir, Operation::Mkf, Operation::MkfP, Operation::MkdirP] {
        for class in CLASSES {
            assert_eq!(is_permitted(op, class), class == ErrorClass::AlreadyExists);
        }
    }
}

#[test]
fn removing_permits_not_found() {
    for op in [Operation::RmdirR, Operation::Rmf, Operation::Rm] {
        for class in CLASSES {
            assert_eq!(is_permitted(op, class), class == ErrorClass::NotFound);
        }
    }
}

#[test]
fn rmdir_permits_not_found_and_not_empty() {
    assert!(!is_permitted(Operation::Rmdir, ErrorClass::AlreadyExists));
    assert!(is_permitted(Operation::Rmdir, ErrorClass::NotFound));
    assert!(is_permitted(Operation::Rmdir, ErrorClass::DirectoryNotEmpty));
    assert!(!is_permitted(Operation::Rmdir, ErrorClass::Other));
}

#[test]
fn is_dir_permits_nothing() {
    for class in CLASSES {
        assert!(!is_permitted(Operation::IsDir, class));
    }
}

#[test]
fn each_operation_begins_with_its_call() {
    assert!(matches!(mkdir::<u32>(Event::Called), Step::Ask(Request::CreateDir)));
    assert!(matches!(mkf::<u32>(Event::Called), Step::Ask(Request::CreateFile)));
    assert!(matches!(mkdir_p::<u32>(Event::Called), Step::Ask(Request::CreateDirAll)));
    assert!(matches!(rmdir::<u32>(Event::Called), Step::Ask(Request::RemoveDir)));
    assert!(matches!(rmdir_r::<u32>(Event::Called), Step::Ask(Request::RemoveDirAll)));
    assert!(matches!(rmf::<u32>(Event::Called), Step::Ask(Request::RemoveFile)));
    assert!(matches!(mkf_p::<u32>(Event::Called), Step::Ask(Request::HasParent)));
    assert!(matches!(rm::<u32>(Event::Called), Step::Ask(Request::IsSymlink)));
    assert!(matches!(is_dir::<u32>(Event::Called), Step::Ask(Request::IsDir)));
}

#[test]
fn success_of_the_host_is_success() {
    let done = |request| Event::<u32>::Replied(request, Reply::Done);
    assert!(matches!(mkdir(done(Request::CreateDir)), Step::Return(Ok(()))));
    assert!(matches!(mkf(done(Request::CreateFile)), Step::Return(Ok(()))));
    assert!(matches!(mkdir_p(done(Request::CreateDirAll)), Step::Return(Ok(()))));
    assert!(matches!(rmdir(done(Request::RemoveDir)), Step::Return(Ok(()))));
    assert!(matches!(rmdir_r(done(Request::RemoveDirAll)), Step::Return(Ok(()))));
    assert!(matches!(rmf(done(Request::RemoveFile)), Step::Return(Ok(()))));
    assert!(matches!(mkf_p(done(Request::CreateFile)), Step::Return(Ok(()))));
    assert!(matches!(rm(done(Request::RemoveFile)), Step::Return(Ok(()))));
    assert!(matches!(rm(done(Request::RemoveDirAll)), Step::Return(Ok(()))));
}

#[test]
fn a_permitted_failure_becomes_success() {
    assert_eq!(after(mkdir, Request::CreateDir, ErrorClass::AlreadyExists), None);
    assert_eq!(after(mkf, Request::CreateFile, ErrorClass::AlreadyExists), None);
    assert_eq!(after(mkf_p, Request::CreateFile, ErrorClass::AlreadyExists), None);
    assert_eq!(after(mkdir_p, Request::CreateDirAll, ErrorClass::AlreadyExists), None);
    assert_eq!(after(rmdir, Request::RemoveDir, ErrorClass::NotFound), None);
    assert_eq!(after(rmdir, Request::RemoveDir, ErrorClass::DirectoryNotEmpty), None);
    assert_eq!(after(rmdir_r, Request::RemoveDirAll, ErrorClass::NotFound), None);
    assert_eq!(after(rmf, Request::RemoveFile, ErrorClass::NotFound), None);
    assert_eq!(after(rm, Request::RemoveFile, ErrorClass::NotFound), None);
    assert_eq!(after(rm, Request::RemoveDirAll, ErrorClass::NotFound), None);
}

#[test]
fn any_other_failure_comes_back_unchanged() {
    let calls: [(fn(Event<u32>) -> Step<(), u32>, Request, Operation); 10] = [
        (mkdir, Request::CreateDir, Operation::Mkdir),
        (mkf, Request::CreateFile, Operation::Mkf),
        (mkf_p, Request::CreateFile, Operation::MkfP),
        (mkf_p, Request::CreateParents, Operation::MkdirP),
        (mkdir_p, Request::CreateDirAll, Operation::MkdirP),
        (rmdir, Request::RemoveDir, Operation::Rmdir),
        (rmdir_r, Request::RemoveDirAll, Operation::RmdirR),
        (rmf, Request::RemoveFile, Operation::Rmf),
        (rm, Request::RemoveFile, Operation::Rm),
        (rm, Request::RemoveDirAll, Operation::Rm),
    ];
    for (op, request, policy) in calls {
        for class in CLASSES {
            if is_permitted(policy, class) {
                continue;
            }
            assert_eq!(after(op, request, class), Some((class, 7)));
        }
    }
}

#[test]
fn removing_recursively_does_not_permit_not_empty() {
    assert_eq!(
        after(rmdir_r, Request::RemoveDirAll, ErrorClass::DirectoryNotEmpty),
        Some((ErrorClass::DirectoryNotEmpty, 7))
    );
    assert_eq!(
        after(rm, Request::RemoveDirAll, ErrorClass::DirectoryNotEmpty),
        Some((ErrorClass::DirectoryNotEmpty, 7))
    );
}

#[test]
fn rm_asks_what_is_there_before_it_removes() {
    let flag = |request, value| Event::<u32>::Replied(request, Reply::Flag(value));
    assert!(matches!(rm(flag(Request::IsSymlink, true)), Step::Ask(Request::RemoveFile)));
    assert!(matches!(rm(flag(Request::IsSymlink, false)), Step::Ask(Request::IsFile)));
    assert!(matches!(rm(flag(Request::IsFile, true)), Step::Ask(Request::RemoveFile)));
    assert!(matches!(rm(flag(Request::IsFile, false)), Step::Ask(Request::RemoveDirAll)));
}

#[test]
fn mkf_p_makes_parents_only_where_they_are_missing() {
    let flag = |request, value| Event::<u32>::Replied(request, Reply::Flag(value));
    assert!(matches!(mkf_p(flag(Request::HasParent, true)), Step::Ask(Request::ParentExists)));
    assert!(matches!(mkf_p(flag(Request::HasParent, false)), Step::Ask(Request::CreateFile)));
    assert!(matches!(mkf_p(flag(Request::ParentExists, true)), Step::Ask(Request::CreateFile)));
    assert!(matches!(
        mkf_p(flag(Request::ParentExists, false)),
        Step::Ask(Request::CreateParents)
    ));
    assert!(matches!(
        mkf_p::<u32>(Event::Replied(Request::CreateParents, Reply::Done)),
        Step::Ask(Request::CreateFile)
    ));
    assert!(matches!(
        mkf_p(Event::Replied(Request::CreateParents, failed(ErrorClass::AlreadyExists, 1))),
        Step::Ask(Request::CreateFile)
    ));
}

#[test]
fn mkf_p_stops_where_parents_cannot_be_made() {
    for class in [ErrorClass::NotFound, ErrorClass::DirectoryNotEmpty, ErrorClass::Other] {
        assert_eq!(after(mkf_p, Request::CreateParents, class), Some((class, 7)));
    }
}

#[test]
fn is_dir_steps_through_a_link() {
    let flag = |request, value| Event::<u32>::Replied(request, Reply::Flag(value));
    assert!(matches!(is_dir(flag(Request::IsDir, true)), Step::Return(Ok(true))));
    assert!(matches!(is_dir(flag(Request::IsDir, false)), Step::Ask(Request::IsSymlink)));
    assert!(matches!(is_dir(flag(Request::IsSymlink, false)), Step::Return(Ok(false))));
    assert!(matches!(is_dir(flag(Request::IsSymlink, true)), Step::Ask(Request::ReadLink)));
    assert!(matches!(
        is_dir::<u32>(Event::Replied(Request::ReadLink, Reply::Done)),
        Step::Ask(Request::TargetIsDir)
    ));
    assert!(matches!(is_dir(flag(Request::TargetIsDir, true)), Step::Return(Ok(true))));
    assert!(matches!(is_dir(flag(Request::TargetIsDir, false)), Step::Return(Ok(false))));
}

#[test]
fn is_dir_returns_every_failure() {
    for request in [Request::ReadLink, Request::TargetIsDir] {
        for class in CLASSES {
            match is_dir(Event::Replied(request, failed(class, 9))) {
                Step::Return(Err(failure)) => {
                    assert_eq!((failure.class, failure.source), (class, 9))
                }
                step => panic!("no failure: {:?}", step),
            }
        }
    }
}

#[test]
fn a_reply_that_was_not_awaited_is_unexpected() {
    assert!(matches!(
        mkdir::<u32>(Event::Replied(Request::CreateDirAll, Reply::Done)),
        Step::Unexpected
    ));
    assert!(matches!(
        mkdir::<u32>(Event::Replied(Request::CreateDir, Reply::Flag(true))),
        Step::Unexpected
    ));
    assert!(matches!(
        rmdir::<u32>(Event::Replied(Request::RemoveDirAll, Reply::Done)),
        Step::Unexpected
    ));
    assert!(matches!(
        rm::<u32>(Event::Replied(Request::RemoveDir, Reply::Done)),
        Step::Unexpected
    ));
    assert!(matches!(rm::<u32>(Event::Replied(Request::IsFile, Reply::Done)), Step::Unexpected));
    assert!(matches!(
        rm(Event::Replied(Request::IsSymlink, failed(ErrorClass::Other, 1))),
        Step::Unexpected
    ));
    assert!(matches!(
        mkf_p::<u32>(Event::Replied(Request::CreateParents, Reply::Flag(true))),
        Step::Unexpected
    ));
    assert!(matches!(
        mkf_p::<u32>(Event::Replied(Request::CreateDirAll, Reply::Done)),
        Step::Unexpected
    ));
    assert!(matches!(
        is_dir::<u32>(Event::Replied(Request::ReadLink, Reply::Flag(true))),
        Step::Unexpected
    ));
    assert!(matches!(
        is_dir::<u32>(Event::Replied(Request::TargetIsDir, Reply::Done)),
        Step::Unexpected
    ));
    assert!(matches!(
        is_dir::<u32>(Event::Replied(Request::RemoveFile, Reply::Done)),
        Step::Unexpected
    ));
}
