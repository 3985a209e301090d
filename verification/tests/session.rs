use smbc::result::Error;
use smbc::session::{
    close_step, setup_step, FileState, SetupAction, SetupEvent, SetupState,
};

#[test]
fn successful_allocation_moves_on_to_configuration_and_init() {
    let (state, action) = setup_step(SetupState::Start, SetupEvent::ContextAllocated);
    assert_eq!(state, SetupState::Configured);
    assert_eq!(action, SetupAction::ConfigureAndInit);
}

#[test]
fn failed_allocation_aborts_without_ever_initializing() {
    let (state, action) = setup_step(SetupState::Start, SetupEvent::ContextAllocFailed(12));
    assert_eq!(state, SetupState::Failed(Error::NewContext(12)));
    assert_eq!(action, SetupAction::Abort);
    assert_ne!(action, SetupAction::ConfigureAndInit);
}

#[test]
fn successful_initialization_finishes_construction() {
    let (state, action) = setup_step(SetupState::Configured, SetupEvent::ContextInitialized);
    assert_eq!(state, SetupState::Ready);
    assert_eq!(action, SetupAction::Finish);
}

#[test]
fn failed_initialization_aborts_with_init_context() {
    let (state, action) = setup_step(SetupState::Configured, SetupEvent::ContextInitFailed(5));
    assert_eq!(state, SetupState::Failed(Error::InitContext(5)));
    assert_eq!(action, SetupAction::Abort);
}

#[test]
fn closing_an_open_file_issues_the_native_close_once() {
    let (state, do_close) = close_step(FileState::Open);
    assert_eq!(state, FileState::Closed);
    assert!(do_close);
}

#[test]
fn closing_again_issues_no_second_native_close() {
    let (state, do_close) = close_step(FileState::Open);
    assert!(do_close);
    let (state, do_close) = close_step(state);
    assert_eq!(state, FileState::Closed);
    assert!(!do_close);
}
