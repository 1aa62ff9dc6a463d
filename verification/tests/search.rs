use std::io::{Error, ErrorKind};
use std::path::Path;
use tempdir::handle::{Cleanup, TempDir};
use tempdir::search::{Attempt, CreateError, Pending, Step, EXHAUSTED, NUM_RETRIES};

fn pending(step: Step<Error>) -> Pending {
    match step {
        Step::CreateDir(pending) => pending,
        other => panic!("no attempt: {:?}", other),
    }
}

fn is_candidate(path: &str, parent: &str, prefix: &str) -> bool {
    let start = if prefix.is_empty() {
        format!("{}/", parent)
    } else {
        format!("{}/{}.", parent, prefix)
    };
    path.len() == start.len() + 12
        && path.starts_with(&start)
        && path[start.len()..].chars().all(|c| c.is_ascii_alphanumeric())
}

#[test]
fn retry_budget_is_two_to_the_thirty_first() {
    assert_eq!(NUM_RETRIES, 1 << 31);
    assert_eq!(NUM_RETRIES, 2_147_483_648);
}

#[test]
fn exhaustion_has_its_message() {
    assert_eq!(EXHAUSTED, "too many temporary directories already exist");
}

#[test]
fn create_in_tmp_with_prefix() {
    let first = pending(TempDir::new_in("/tmp", "build"));
    let path = first.path().to_string();
    assert!(is_candidate(&path, "/tmp", "build"), "{}", path);
    let mut dir = match first.answer(Attempt::<Error>::Created) {
        Step::Done(dir) => dir,
        other => panic!("no handle: {:?}", other),
    };
    assert_eq!(dir.path(), path);
    assert_eq!(dir.cleanup_dir(), Cleanup::RemoveTree(path));
    assert_eq!(dir.cleanup_dir(), Cleanup::Nothing);
}

#[test]
fn create_in_tmp_without_prefix() {
    let first = pending(TempDir::new_in("/tmp", ""));
    let path = first.path();
    assert!(is_candidate(path, "/tmp", ""), "{}", path);
    let leaf = &path["/tmp/".len()..];
    assert_eq!(leaf.len(), 12);
    assert!(leaf.chars().all(|c| c.is_ascii_alphanumeric()));
    assert!(!leaf.starts_with('.'));
}

#[test]
fn taken_name_is_retried_under_another_name() {
    let first = pending(TempDir::new_in("/tmp", "build"));
    let taken = first.path().to_string();
    let second = pending(first.answer(Attempt::AlreadyExists));
    let path = second.path().to_string();
    assert!(is_candidate(&path, "/tmp", "build"), "{}", path);
    assert_ne!(path, taken);
    match second.answer(Attempt::<Error>::Created) {
        Step::Done(dir) => assert_eq!(dir.path(), path),
        other => panic!("no handle: {:?}", other),
    }
}

#[test]
fn many_taken_names_are_all_retried() {
    let mut attempt = pending(TempDir::new_in("/tmp", ""));
    for _ in 0..1000 {
        assert!(is_candidate(attempt.path(), "/tmp", ""));
        attempt = pending(attempt.answer(Attempt::AlreadyExists));
    }
    assert!(matches!(attempt.answer(Attempt::<Error>::Created), Step::Done(_)));
}

#[test]
fn missing_parent_fails_at_once() {
    let first = pending(TempDir::new_in("/no/such/parent", "build"));
    let refusal = Error::new(ErrorKind::NotFound, "no such parent");
    match first.answer(Attempt::Failed(refusal)) {
        Step::Failed(CreateError::Io(e)) => {
            assert_eq!(e.kind(), ErrorKind::NotFound);
            assert_eq!(e.to_string(), "no such parent");
        }
        other => panic!("not failed: {:?}", other),
    }
}

#[test]
fn other_failures_are_passed_on_after_retries_too() {
    let first = pending(TempDir::new_in("/tmp", "build"));
    let second = pending(first.answer(Attempt::AlreadyExists));
    let refusal = Error::new(ErrorKind::PermissionDenied, "read-only");
    match second.answer(Attempt::Failed(refusal)) {
        Step::Failed(CreateError::Io(e)) => {
            assert_eq!(e.kind(), ErrorKind::PermissionDenied);
            assert_eq!(e.to_string(), "read-only");
        }
        other => panic!("not failed: {:?}", other),
    }
}

#[test]
fn budget_of_three_allows_three_attempts() {
    let first = pending(TempDir::new_in_with_budget("/tmp", "build", 3));
    let second = pending(first.answer(Attempt::AlreadyExists));
    let third = pending(second.answer(Attempt::AlreadyExists));
    assert!(is_candidate(third.path(), "/tmp", "build"));
    match third.answer(Attempt::<Error>::AlreadyExists) {
        Step::Failed(CreateError::Exhausted) => {}
        other => panic!("not exhausted: {:?}", other),
    }
}

#[test]
fn budget_of_one_allows_one_attempt() {
    let only = pending(TempDir::new_in_with_budget("/tmp", "build", 1));
    let path = only.path().to_string();
    match only.answer(Attempt::<Error>::Created) {
        Step::Done(dir) => assert_eq!(dir.path(), path),
        other => panic!("no handle: {:?}", other),
    }
    let only = pending(TempDir::new_in_with_budget("/tmp", "build", 1));
    assert!(matches!(
        only.answer(Attempt::<Error>::AlreadyExists),
        Step::Failed(CreateError::Exhausted)
    ));
}

#[test]
fn budget_of_zero_fails_without_an_attempt() {
    assert!(matches!(
        TempDir::new_in_with_budget::<Error>("/tmp", "build", 0),
        Step::Failed(CreateError::Exhausted)
    ));
}

#[test]
fn relative_parent_asks_for_the_current_directory() {
    let asked = match TempDir::new_in::<Error>("scratch", "build") {
        Step::CurrentDir(unresolved) => unresolved,
        other => panic!("not asked: {:?}", other),
    };
    let first = pending(asked.answer(Ok("/home/me".to_string())));
    assert!(is_candidate(first.path(), "/home/me/scratch", "build"), "{}", first.path());
    let second = pending(first.answer(Attempt::AlreadyExists));
    assert!(is_candidate(second.path(), "/home/me/scratch", "build"), "{}", second.path());
}

#[test]
fn empty_parent_is_the_current_directory() {
    let asked = match TempDir::new_in::<Error>("", "") {
        Step::CurrentDir(unresolved) => unresolved,
        other => panic!("not asked: {:?}", other),
    };
    let first = pending(asked.answer(Ok("/home/me".to_string())));
    assert!(is_candidate(first.path(), "/home/me", ""), "{}", first.path());
}

#[test]
fn unknown_current_directory_fails_the_search() {
    let asked = match TempDir::new_in::<Error>("scratch", "build") {
        Step::CurrentDir(unresolved) => unresolved,
        other => panic!("not asked: {:?}", other),
    };
    let refusal = Error::new(ErrorKind::NotFound, "current directory is gone");
    match asked.answer(Err(refusal)) {
        Step::Failed(CreateError::Io(e)) => {
            assert_eq!(e.kind(), ErrorKind::NotFound);
            assert_eq!(e.to_string(), "current directory is gone");
        }
        other => panic!("not failed: {:?}", other),
    }
}

#[test]
fn relative_parent_with_no_budget_is_exhausted_once_resolved() {
    let asked = match TempDir::new_in_with_budget::<Error>("scratch", "build", 0) {
        Step::CurrentDir(unresolved) => unresolved,
        other => panic!("not asked: {:?}", other),
    };
    assert!(matches!(
        asked.answer::<Error>(Ok("/home/me".to_string())),
        Step::Failed(CreateError::Exhausted)
    ));
}

#[test]
fn creation_in_the_system_directory_asks_where_it_is() {
    let asked = match TempDir::new::<Error>("build") {
        Step::SystemTempDir(unplaced) => unplaced,
        other => panic!("not asked: {:?}", other),
    };
    let first = pending(asked.answer("/var/tmp"));
    let path = first.path().to_string();
    assert!(is_candidate(&path, "/var/tmp", "build"), "{}", path);
    match first.answer(Attempt::<Error>::Created) {
        Step::Done(dir) => assert_eq!(dir.path(), path),
        other => panic!("no handle: {:?}", other),
    }
}

#[test]
fn relative_system_directory_is_resolved_like_any_parent() {
    let asked = match TempDir::new::<Error>("") {
        Step::SystemTempDir(unplaced) => unplaced,
        other => panic!("not asked: {:?}", other),
    };
    let asked = match asked.answer::<Error>("tmp") {
        Step::CurrentDir(unresolved) => unresolved,
        other => panic!("not asked: {:?}", other),
    };
    let first = pending(asked.answer(Ok("/home/me".to_string())));
    assert!(is_candidate(first.path(), "/home/me/tmp", ""), "{}", first.path());
}

#[test]
fn created_directory_lies_directly_inside_its_parent() {
    for (parent, prefix) in [("/tmp", "build"), ("/tmp/", ""), ("/", "x"), ("/a/b/c", "d.e")] {
        let first = pending(TempDir::new_in(parent, prefix));
        let second = pending(first.answer(Attempt::AlreadyExists));
        let path = second.path().to_string();
        match second.answer(Attempt::<Error>::Created) {
            Step::Done(dir) => assert_eq!(
                Path::new(dir.path()).parent(),
                Some(Path::new(parent)),
                "{}",
                path
            ),
            other => panic!("no handle: {:?}", other),
        }
    }
}

#[test]
fn absolute_parent_is_taken_as_it_is() {
    let first = pending(TempDir::new_in("/var/tmp/", "x"));
    let path = first.path();
    assert!(path.starts_with("/var/tmp/x."), "{}", path);
    assert_eq!(path.len(), "/var/tmp/x.".len() + 12);
}

#[test]
fn two_creations_do_not_share_a_path() {
    let first = pending(TempDir::new_in("/tmp", "build"));
    let first_path = first.path().to_string();
    let first_dir = match first.answer(Attempt::<Error>::Created) {
        Step::Done(dir) => dir,
        other => panic!("no handle: {:?}", other),
    };
    let mut attempt = pending(TempDir::new_in("/tmp", "build"));
    let second_dir = loop {
        let taken = attempt.path() == first_path;
        let outcome = if taken { Attempt::AlreadyExists } else { Attempt::<Error>::Created };
        match attempt.answer(outcome) {
            Step::CreateDir(next) => attempt = next,
            Step::Done(dir) => break dir,
            other => panic!("no handle: {:?}", other),
        }
    };
    assert_ne!(first_dir.path(), second_dir.path());
}
