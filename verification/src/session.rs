//! The client's construction protocol and a file's close protocol as state
//! machines: the decisions the wrapper takes between native calls, stated
//! once and proved, while the calls themselves are carried out by the
//! unverified shell that drives the machine.

use vstd::prelude::*;
use crate::result::Error;

verus! {

/// Where client construction stands. Construction is all-or-nothing: it
/// either reaches `Ready` or lands in `Failed` carrying the error returned
/// to the caller, and a failed construction leaves no partially built
/// client behind.
#[derive(Clone, Copy, Debug, PartialEq, Eq, Structural)]
pub enum SetupState {
    /// Nothing has happened yet; the next native call allocates a context.
    Start,
    /// A fresh context exists and has been configured: the authentication
    /// callback and user data are installed and the fixed context options
    /// set (one connection per server endpoint, debug output to standard
    /// error). The next native call initializes it.
    Configured,
    /// The context is initialized; the client is usable.
    Ready,
    /// Construction failed with the carried error; no client exists.
    Failed(Error),
}

/// What the native layer answered at one construction step. The carried
/// code is the errno-style cause observed right after a failed call.
#[derive(Clone, Copy, Debug, PartialEq, Eq, Structural)]
pub enum SetupEvent {
    /// Allocating a fresh context returned a non-null handle.
    ContextAllocated,
    /// Allocating a fresh context returned null.
    ContextAllocFailed(i32),
    /// Initializing the configured context returned a non-null handle.
    ContextInitialized,
    /// Initializing the configured context returned null.
    ContextInitFailed(i32),
}

/// What the shell must do next after a construction step.
#[derive(Clone, Copy, Debug, PartialEq, Eq, Structural)]
pub enum SetupAction {
    /// Install the callback and options on the fresh context, then ask the
    /// native layer to initialize it.
    ConfigureAndInit,
    /// Hand the finished client to the caller.
    Finish,
    /// Report the error carried by the failed state to the caller; nothing
    /// further runs on the context.
    Abort,
}

/// Whether an event can answer a step taken from this state: allocation
/// answers arrive only at the start, initialization answers only on a
/// configured context, and the terminal states take no further events.
pub open spec fn setup_event_fits(s: SetupState, e: SetupEvent) -> bool {
    match s {
        SetupState::Start => e is ContextAllocated || e is ContextAllocFailed,
        SetupState::Configured => e is ContextInitialized || e is ContextInitFailed,
        SetupState::Ready => false,
        SetupState::Failed(_) => false,
    }
}

/// The construction machine's transition: what state an answer leads to and
/// what the shell does next.
pub open spec fn spec_setup_step(s: SetupState, e: SetupEvent) -> (SetupState, SetupAction) {
    match e {
        SetupEvent::ContextAllocated => (SetupState::Configured, SetupAction::ConfigureAndInit),
        SetupEvent::ContextAllocFailed(code) => (
            SetupState::Failed(Error::NewContext(code)),
            SetupAction::Abort,
        ),
        SetupEvent::ContextInitialized => (SetupState::Ready, SetupAction::Finish),
        SetupEvent::ContextInitFailed(code) => (
            SetupState::Failed(Error::InitContext(code)),
            SetupAction::Abort,
        ),
    }
}

/// Takes one construction step: a failed allocation aborts with
/// `NewContext`, a failed initialization with `InitContext`, and only a
/// successful initialization yields a usable client.
pub fn setup_step(s: SetupState, e: SetupEvent) -> (r: (SetupState, SetupAction))
    requires
        setup_event_fits(s, e),
    ensures
        r == spec_setup_step(s, e),
{
    match e {
        SetupEvent::ContextAllocated => (SetupState::Configured, SetupAction::ConfigureAndInit),
        SetupEvent::ContextAllocFailed(code) => (
            SetupState::Failed(Error::NewContext(code)),
            SetupAction::Abort,
        ),
        SetupEvent::ContextInitialized => (SetupState::Ready, SetupAction::Finish),
        SetupEvent::ContextInitFailed(code) => (
            SetupState::Failed(Error::InitContext(code)),
            SetupAction::Abort,
        ),
    }
}

/// A construction that fails at the allocation step never yields a usable
/// client and never attempts initialization: the machine lands in a failed
/// state carrying the allocation error, the shell is told to abort — the
/// one action that asks for initialization is never issued — and no event
/// can move the machine on from there.
pub proof fn lemma_alloc_failure_aborts(code: i32, later: SetupEvent)
    ensures
        spec_setup_step(SetupState::Start, SetupEvent::ContextAllocFailed(code)) == (
            SetupState::Failed(Error::NewContext(code)),
            SetupAction::Abort,
        ),
        spec_setup_step(SetupState::Start, SetupEvent::ContextAllocFailed(code)).1
            != SetupAction::ConfigureAndInit,
        !setup_event_fits(
            spec_setup_step(SetupState::Start, SetupEvent::ContextAllocFailed(code)).0,
            later,
        ),
{
}

/// Whether an open file has been closed. A file starts open and is closed
/// exactly once, when it is released.
#[derive(Clone, Copy, Debug, PartialEq, Eq, Structural)]
pub enum FileState {
    /// The descriptor is open; reads, writes and seeks may be issued.
    Open,
    /// The descriptor has been handed back to the native layer.
    Closed,
}

/// The close machine's transition: the new state, and whether the shell
/// must hand the descriptor to the native close call.
pub open spec fn spec_close_step(s: FileState) -> (FileState, bool) {
    match s {
        FileState::Open => (FileState::Closed, true),
        FileState::Closed => (FileState::Closed, false),
    }
}

/// Releases a file: an open descriptor is closed and the native close call
/// issued once; a descriptor already closed is left alone and no native
/// call is issued.
pub fn close_step(s: FileState) -> (r: (FileState, bool))
    ensures
        r == spec_close_step(s),
{
    match s {
        FileState::Open => (FileState::Closed, true),
        FileState::Closed => (FileState::Closed, false),
    }
}

/// Closing is never invoked twice on the same descriptor: after the step
/// that closes an open file, every further release step issues no native
/// close call.
pub proof fn lemma_close_at_most_once()
    ensures
        spec_close_step(FileState::Open).1,
        !spec_close_step(spec_close_step(FileState::Open).0).1,
        spec_close_step(spec_close_step(FileState::Open).0).0 == FileState::Closed,
{
}

} // verus!
