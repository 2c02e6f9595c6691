use live_docs::coordinator::BuildFailed;
use live_docs::runner::{build_outcome, doc_command};

#[test]
fn doc_command_documents_one_package_with_private_items() {
    assert_eq!(
        doc_command("mylib"),
        vec!["cargo", "doc", "--no-deps", "--document-private-items", "--package", "mylib"]
    );
}

#[test]
fn doc_command_passes_the_package_name_through() {
    let command = doc_command("some-other_crate");
    assert_eq!(command.len(), 6);
    assert_eq!(command[5], "some-other_crate");
}

#[test]
fn launched_and_successful_is_a_success() {
    assert_eq!(build_outcome(true, true), Ok(()));
}

#[test]
fn nonzero_exit_is_a_failure() {
    assert_eq!(build_outcome(true, false), Err(BuildFailed::ExitedWithError));
}

#[test]
fn not_launched_is_a_failure_whatever_the_exit() {
    assert_eq!(build_outcome(false, false), Err(BuildFailed::NotLaunched));
    assert_eq!(build_outcome(false, true), Err(BuildFailed::NotLaunched));
}
