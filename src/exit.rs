//! The exit path of an application: the code that its entry function
//! returned is held while the drain runs, and handed to the loader unchanged
//! once the drain is done.
use vstd::prelude::*;

use crate::drain::{action_for, state_after_scan, DrainAction, DrainState, Drainer};
use crate::thread::{Snapshot, ThreadHandle};

verus! {

/// The module tag under which the exit path logs.
pub fn log_tag() -> (r: &'static str)
    ensures
        r@ == "flipperzero-rt"@,
{
    "flipperzero-rt"
}

/// The two debug lines of the exit path.
#[derive(Clone, Copy, Debug, PartialEq, Eq, Structural)]
pub enum LogLine {
    /// Logged before the first scan.
    Draining,
    /// Logged once the drain is done.
    Drained,
}

impl LogLine {
    pub fn text(&self) -> (r: &'static str)
        ensures
            *self == LogLine::Draining ==> r@ == "Waiting for FAP threads to complete..."@,
            *self == LogLine::Drained ==> r@ == "All threads completed, exiting FAP"@,
    {
        match self {
            LogLine::Draining => "Waiting for FAP threads to complete...",
            LogLine::Drained => "All threads completed, exiting FAP",
        }
    }
}

/// An application between the return of its entry function and the return
/// to the loader.
pub struct Shutdown {
    exit_code: i32,
    drainer: Drainer,
}

impl Shutdown {
    pub closed spec fn exit_code_spec(&self) -> i32 {
        self.exit_code
    }

    pub closed spec fn drainer_spec(&self) -> Drainer {
        self.drainer
    }

    pub open spec fn state_spec(&self) -> DrainState {
        self.drainer_spec().state_spec()
    }

    /// Takes the code that the entry function of the application tagged
    /// `app_tag` returned on thread `self_handle`, and starts the drain.
    pub fn begin(exit_code: i32, self_handle: ThreadHandle, app_tag: Vec<u8>) -> (r: Shutdown)
        ensures
            r.exit_code_spec() == exit_code,
            r.drainer_spec().self_handle_spec() == self_handle,
            r.drainer_spec().app_tag_spec() == app_tag@,
            r.state_spec() == DrainState::Scanning,
    {
        Shutdown { exit_code, drainer: Drainer::new(self_handle, app_tag) }
    }

    /// The line to log before the drain starts.
    pub fn opening_line(&self) -> (r: LogLine)
        ensures
            r == LogLine::Draining,
    {
        LogLine::Draining
    }

    /// The line to log once the drain is done.
    pub fn closing_line(&self) -> (r: LogLine)
        ensures
            r == LogLine::Drained,
    {
        LogLine::Drained
    }

    pub fn state(&self) -> (r: DrainState)
        ensures
            r == self.state_spec(),
    {
        self.drainer.state()
    }

    pub fn next_action(&self) -> (r: DrainAction)
        ensures
            r == action_for(self.state_spec()),
    {
        self.drainer.next_action()
    }

    /// Ends a scan of the drain; the exit code is kept as it is.
    pub fn on_snapshot(&mut self, snap: &Snapshot) -> (r: DrainAction)
        requires
            old(self).state_spec() == DrainState::Scanning,
        ensures
            final(self).exit_code_spec() == old(self).exit_code_spec(),
            final(self).drainer_spec().self_handle_spec() == old(
                self,
            ).drainer_spec().self_handle_spec(),
            final(self).drainer_spec().app_tag_spec() == old(self).drainer_spec().app_tag_spec(),
            final(self).state_spec() == state_after_scan(
                old(self).drainer_spec().self_handle_spec(),
                old(self).drainer_spec().app_tag_spec(),
                snap@,
            ),
            r == action_for(final(self).state_spec()),
    {
        self.drainer.on_snapshot(snap)
    }

    /// Ends a sleep of the drain; the exit code is kept as it is.
    pub fn on_slept(&mut self) -> (r: DrainAction)
        requires
            old(self).state_spec() == DrainState::Waiting,
        ensures
            final(self).exit_code_spec() == old(self).exit_code_spec(),
            final(self).drainer_spec().self_handle_spec() == old(
                self,
            ).drainer_spec().self_handle_spec(),
            final(self).drainer_spec().app_tag_spec() == old(self).drainer_spec().app_tag_spec(),
            final(self).state_spec() == DrainState::Scanning,
            r == DrainAction::Enumerate,
    {
        self.drainer.on_slept()
    }

    /// The code to return to the loader: the entry function's own, however
    /// many passes and sleeps the drain took.
    pub fn finish(self) -> (r: i32)
        requires
            self.state_spec() == DrainState::Done,
        ensures
            r == self.exit_code_spec(),
    {
        self.exit_code
    }
}

} // verus!
