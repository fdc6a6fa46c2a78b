//! What the file watcher's reports mean to the viewer.

use std::path::PathBuf;
use vstd::prelude::*;

verus! {

/// Whether `==` of `std::path::PathBuf` takes two paths for the same.
pub uninterp spec fn same_path(one: PathBuf, other: PathBuf) -> bool;

/// `==` of `std::path::PathBuf`, which compares two paths component by
/// component.
#[verifier::external_body]
fn paths_equal(one: &PathBuf, other: &PathBuf) -> (equal: bool)
    ensures
        equal == same_path(*one, *other),
{
    one == other
}

/// The flag of `notify`'s operations that says: a file that was open for
/// writing has been closed.
pub const CLOSE_WRITE: u32 = 0b010_0000;

/// `notify::op::CLOSE_WRITE`, as the bits that `Op::bits` gives for it.
#[verifier::external_body]
fn close_write_bits() -> (bits: u32)
    ensures
        bits == CLOSE_WRITE,
{
    notify::op::CLOSE_WRITE.bits()
}

/// One report of the watcher.
pub struct WatchEvent {
    /// The path that the report is about, where it names one.
    pub path: Option<PathBuf>,
    /// The operations seen, as the bits of `notify`'s flags; `None` where the
    /// watcher reports an error of its own instead.
    pub op: Option<u32>,
}

/// What the watching thread does with what it received.
#[derive(Clone, Copy, Debug, PartialEq, Eq, Structural)]
pub enum WatcherAction {
    /// Send the change signal to the event loop.
    Notify,
    /// Nothing.
    Ignore,
    /// Log a warning: the channel to the watcher gave an error.
    Warn,
}

impl WatchEvent {
    /// The report says that the file's content is final: writing has ended,
    /// and the report says this and nothing else.
    pub open spec fn finalized(&self) -> bool {
        self.op == Some(CLOSE_WRITE)
    }

    /// The report is about the path `watched`.
    pub open spec fn concerns(&self, watched: PathBuf) -> bool {
        self.path matches Some(path) && same_path(path, watched)
    }

    /// The report raises the change signal for the file `watched`.
    pub open spec fn signals(&self, watched: PathBuf) -> bool {
        self.finalized() && self.concerns(watched)
    }

    /// Whether the report says that the file's content is final.
    pub fn is_finalized(&self) -> (finalized: bool)
        ensures
            finalized == self.finalized(),
    {
        match self.op {
            Some(bits) => bits == close_write_bits(),
            None => false,
        }
    }

    /// Whether the report is about the path `watched`.
    pub fn is_about(&self, watched: &PathBuf) -> (about: bool)
        ensures
            about == self.concerns(*watched),
    {
        match &self.path {
            Some(path) => paths_equal(path, watched),
            None => false,
        }
    }

    /// Whether the report raises the change signal for the file `watched`:
    /// it does when it says that the content of this very file is final.
    pub fn raises_signal(&self, watched: &PathBuf) -> (raised: bool)
        ensures
            raised == self.signals(*watched),
    {
        self.is_finalized() && self.is_about(watched)
    }
}

/// What the watching thread does with `received`, which is the next report, or
/// `None` where receiving failed.
pub open spec fn spec_watcher_step(
    received: Option<WatchEvent>,
    watched: PathBuf,
) -> WatcherAction {
    match received {
        None => WatcherAction::Warn,
        Some(event) => if event.signals(watched) {
            WatcherAction::Notify
        } else {
            WatcherAction::Ignore
        },
    }
}

/// One turn of the watching thread: what to do with `received`, which is the
/// next report, or `None` where receiving failed.
pub fn watcher_step(received: Option<WatchEvent>, watched: &PathBuf) -> (action: WatcherAction)
    ensures
        action == spec_watcher_step(received, *watched),
{
    match received {
        None => WatcherAction::Warn,
        Some(event) => if event.raises_signal(watched) {
            WatcherAction::Notify
        } else {
            WatcherAction::Ignore
        },
    }
}

/// The change signal is sent for a report that the watched file's content is
/// final, and for no other: not for a report about another path or about none,
/// not for one of a write that is still going on, of an opening or of changed
/// attributes, and not where the watcher reports an error.
pub proof fn law_signal_only_for_final_content(received: Option<WatchEvent>, watched: PathBuf)
    ensures
        spec_watcher_step(received, watched) == WatcherAction::Notify <==> {
            &&& received matches Some(event)
            &&& event.op == Some(CLOSE_WRITE)
            &&& event.path matches Some(path)
            &&& same_path(path, watched)
        },
{
}

} // verus!
