//! Waiting for the StatusNotifier watcher before the tray icon registers:
//! the caller lists the names on the session bus and asks what to do next.
use vstd::prelude::*;
use crate::tray::launch::{strings_view, text_eq};

verus! {

/// The bus name of the service that tray icons register with.
pub const WATCHER_NAME: &'static str = "org.kde.StatusNotifierWatcher";

/// How long to wait for the watcher before registering anyway.
pub const WATCHER_TIMEOUT_MS: u64 = 30000;

/// Pause between two listings of the bus names.
pub const WATCHER_RETRY_MS: u64 = 500;

/// What to do after one listing of the bus names.
#[derive(Debug, Clone, Copy, PartialEq, Eq, Structural)]
pub enum WatcherWait {
    /// The watcher is there: register the icon.
    Ready,
    /// The wait is over without it: register anyway.
    GiveUp,
    /// Pause `WATCHER_RETRY_MS` and list the names again.
    Retry,
}

/// Whether the watcher is among the listed bus names.
pub fn lists_watcher(names: &Vec<String>) -> (found: bool)
    ensures
        found == strings_view(names@).contains(WATCHER_NAME@),
{
    let mut i: usize = 0;
    while i < names.len()
        invariant
            i <= names@.len(),
            !strings_view(names@).take(i as int).contains(WATCHER_NAME@),
        decreases names@.len() - i,
    {
        if text_eq(names[i].as_str(), WATCHER_NAME) {
            assert(strings_view(names@)[i as int] == WATCHER_NAME@);
            return true;
        }
        assert(strings_view(names@).take(i + 1) =~= strings_view(names@).take(i as int).push(names@[i as int]@));
        i = i + 1;
    }
    assert(strings_view(names@).take(names@.len() as int) =~= strings_view(names@));
    false
}

pub open spec fn spec_watcher_wait(found: bool, elapsed_ms: u64, timeout_ms: u64) -> WatcherWait {
    if found {
        WatcherWait::Ready
    } else if elapsed_ms >= timeout_ms {
        WatcherWait::GiveUp
    } else {
        WatcherWait::Retry
    }
}

/// The next step of the wait: ready once the watcher was `found` in the
/// last listing (a failed listing finds nothing), giving up once
/// `elapsed_ms` since the wait began reach `timeout_ms`, else another try.
pub fn watcher_wait_step(found: bool, elapsed_ms: u64, timeout_ms: u64) -> (w: WatcherWait)
    ensures
        w == spec_watcher_wait(found, elapsed_ms, timeout_ms),
{
    if found {
        WatcherWait::Ready
    } else if elapsed_ms >= timeout_ms {
        WatcherWait::GiveUp
    } else {
        WatcherWait::Retry
    }
}

} // verus!
