//! Whether the folder / PDF print watcher started successfully, and why it failed if not.
use vstd::prelude::*;

verus! {

pub const NOT_INITIALIZED: u8 = 0;
pub const RUNNING: u8 = 1;
pub const FAILED: u8 = 2;

/// Watcher status with the last failure reason.
pub struct PipelineStatus {
    pub status: u8,
    pub last_failure: Option<String>,
}

pub open spec fn label_of(status: u8) -> Seq<char> {
    if status == RUNNING {
        "running"@
    } else if status == FAILED {
        "failed"@
    } else {
        "not_initialized"@
    }
}

pub open spec fn opt_view(o: Option<String>) -> Option<Seq<char>> {
    match o {
        Some(s) => Some(s@),
        None => None,
    }
}

impl PipelineStatus {
    /// Nothing reported yet.
    pub fn new() -> (r: Self)
        ensures
            r.status == NOT_INITIALIZED,
            r.last_failure is None,
    {
        PipelineStatus { status: NOT_INITIALIZED, last_failure: None }
    }

    pub fn status_label(&self) -> (r: String)
        ensures
            r@ == label_of(self.status),
    {
        if self.status == RUNNING {
            String::from_str("running")
        } else if self.status == FAILED {
            String::from_str("failed")
        } else {
            String::from_str("not_initialized")
        }
    }

    /// True after the watcher reports a healthy start.
    pub fn is_watcher_running(&self) -> (b: bool)
        ensures
            b == (self.status == RUNNING),
    {
        self.status == RUNNING
    }

    /// The watcher started: running, failure cleared.
    pub fn set_running(&mut self)
        ensures
            final(self).status == RUNNING,
            final(self).last_failure is None,
    {
        self.status = RUNNING;
        self.last_failure = None;
    }

    /// The watcher failed to start for `reason`.
    pub fn set_failed(&mut self, reason: String)
        ensures
            final(self).status == FAILED,
            opt_view(final(self).last_failure) == Some(reason@),
    {
        self.status = FAILED;
        self.last_failure = Some(reason);
    }

    pub fn failure_reason(&self) -> (r: Option<String>)
        ensures
            opt_view(r) == opt_view(self.last_failure),
    {
        match &self.last_failure {
            Some(s) => Some(s.clone()),
            None => None,
        }
    }
}

} // verus!
