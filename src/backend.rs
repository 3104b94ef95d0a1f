//! Choosing the notification backend: the platform's native one where it has
//! one, else a polling one; a polling backend that cannot be built is fatal.
use vstd::prelude::*;

verus! {

/// Seconds between two scans of a polling backend.
pub const POLL_INTERVAL_SECS: u64 = 1;

/// A notification backend to construct.
#[derive(Clone, Copy, Debug, PartialEq, Eq, Structural)]
pub enum Backend {
    /// The platform's kernel event mechanism.
    Native,
    /// Periodic scans, this many seconds apart.
    Polling(u64),
}

/// Relies on notify's `RecommendedWatcher::kind`: whether the watcher that
/// notify recommends for this platform is a native one, rather than its
/// polling or null watcher.
#[verifier::external_body]
fn recommended_watcher_is_native() -> (r: bool) {
    match <notify::RecommendedWatcher as notify::Watcher>::kind() {
        notify::WatcherKind::PollWatcher => false,
        notify::WatcherKind::NullWatcher => false,
        _ => true,
    }
}

/// The backend to try first: the native one where the platform has one,
/// else polling.
pub fn first_backend(native_available: bool) -> (r: Backend)
    ensures
        r == (if native_available { Backend::Native } else { Backend::Polling(POLL_INTERVAL_SECS) }),
{
    if native_available {
        Backend::Native
    } else {
        Backend::Polling(POLL_INTERVAL_SECS)
    }
}

/// The backend to try after `failed` could not be constructed: polling after
/// the native one; none after polling, and the failure is then fatal.
pub fn fallback(failed: Backend) -> (r: Option<Backend>)
    ensures
        failed is Native ==> r == Some(Backend::Polling(POLL_INTERVAL_SECS)),
        failed is Polling ==> r is None,
{
    match failed {
        Backend::Native => Some(Backend::Polling(POLL_INTERVAL_SECS)),
        Backend::Polling(_) => None,
    }
}

/// The backend to try first on this platform: the native one where notify
/// recommends one, else polling.
pub fn preferred_backend() -> (r: Backend)
    ensures
        r == Backend::Native || r == Backend::Polling(POLL_INTERVAL_SECS),
{
    first_backend(recommended_watcher_is_native())
}

} // verus!
