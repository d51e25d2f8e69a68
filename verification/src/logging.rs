//! The process-wide logging state: lazily initialized at most once per
//! process lifetime, with no teardown beyond process exit.

use vstd::prelude::*;

verus! {

/// The state after a request: once initialized, always initialized.
pub open spec fn spec_after_request(state: bool, want: bool) -> bool {
    state || want
}

/// Whether a request installs the sink: only a wanted install on a
/// not-yet-initialized state does.
pub open spec fn spec_installs(state: bool, want: bool) -> bool {
    want && !state
}

/// The init-once guard for the logging sink.  The caller performs the actual
/// installation exactly when a request reports it; the guard guarantees that
/// over any sequence of requests this happens at most once.
pub struct LoggingLifecycle {
    installed: bool,
}

impl LoggingLifecycle {
    /// Whether the sink has been initialized.
    pub closed spec fn is_initialized(&self) -> bool {
        self.installed
    }

    /// A fresh process: the sink is not initialized.
    pub fn new() -> (r: Self)
        ensures
            !r.is_initialized(),
    {
        LoggingLifecycle { installed: false }
    }

    /// Requests initialization of the sink when `want` holds.  Reports
    /// whether the caller must install it now: only on the first wanted
    /// request.
    pub fn request(&mut self, want: bool) -> (install_now: bool)
        ensures
            final(self).is_initialized() == spec_after_request(old(self).is_initialized(), want),
            install_now == spec_installs(old(self).is_initialized(), want),
    {
        let install_now = want && !self.installed;
        if install_now {
            self.installed = true;
        }
        install_now
    }
}

/// Over any two consecutive requests, the sink is installed at most once:
/// whatever was requested, an install in the first request rules one out in
/// the second.
pub proof fn lemma_install_at_most_once(state: bool, first_want: bool, second_want: bool)
    ensures
        !(spec_installs(state, first_want) && spec_installs(
            spec_after_request(state, first_want),
            second_want,
        )),
{
}

/// From a fresh state, one request installs the sink exactly when it is
/// wanted, and leaves the state initialized exactly then.
pub proof fn lemma_fresh_request(want: bool)
    ensures
        spec_installs(false, want) == want,
        spec_after_request(false, want) == want,
{
}

} // verus!
