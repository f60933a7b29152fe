//! Telling whether a path is a directory, with the questions put to the
//! filesystem of this machine.

use fshelpers::{is_dir, Event, Failure, Reply, Request, Step};
use std::io::{Error, ErrorKind};
use std::path::{Path, PathBuf};

fn failed(error: Error) -> Reply<Error> {
    Reply::Failed(Failure::new(error.kind(), error))
}

fn answer(path: &Path, target: &mut Option<PathBuf>, request: Request) -> Reply<Error> {
    match request {
        Request::IsDir => Reply::Flag(path.is_dir()),
        Request::IsSymlink => Reply::Flag(path.is_symlink()),
        Request::ReadLink => match path.read_link() {
            Ok(to) => {
                *target = Some(match path.parent() {
                    Some(dir) => dir.join(to),
                    None => to,
                });
                Reply::Done
            }
            Err(error) => failed(error),
        },
        Request::TargetIsDir => match target.as_ref().unwrap().metadata() {
            Ok(found) => Reply::Flag(found.is_dir()),
            Err(error) => failed(error),
        },
        _ => failed(Error::from(ErrorKind::Unsupported)),
    }
}

fn is_dir_at(path: &str) -> Result<bool, Error> {
    let mut target = None;
    let mut step = is_dir(Event::Called);
    loop {
        match step {
            Step::Ask(request) => {
                let reply = answer(Path::new(path), &mut target, request);
                step = is_dir(Event::Replied(request, reply));
            }
            Step::Return(result) => return result.map_err(|failure| failure.source),
            Step::Unexpected => panic!("the operation did not await the reply"),
        }
    }
}

#[test]
fn usr_is_dir() {
    assert!(is_dir_at("/usr").is_ok())
}

#[test]
fn root_is_a_directory() {
    assert_eq!(is_dir_at("/").unwrap(), true);
}

#[test]
fn a_missing_path_is_no_directory() {
    assert_eq!(is_dir_at("/tmp/fshelpers/path/to/test/nonexistent").unwrap(), false);
}
