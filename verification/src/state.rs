//! The launcher's shared record of the worker it supervises.
use vstd::prelude::*;

verus! {

/// Where the worker is in its life, as far as the launcher has been told.
#[allow(non_camel_case_types)]
#[derive(Debug, Clone, Copy, PartialEq, Eq, Structural)]
pub enum ZanshinStatus {
    LAUNCHING,
    RUNNING,
    PROCESSOR_WARMED_UP,
    UNKNOWN,
}

/// What the launcher knows while the application runs. `P` is the handle of
/// the worker process; the record only keeps it and hands it out again.
///
/// Callers that share the record between threads keep it behind one lock:
/// every operation here takes the record by reference and finishes its update
/// before it returns.
pub struct AppState<P> {
    /// Whether this is the first run; `None` until setup has looked.
    pub first_run: Option<bool>,
    /// The live worker, if one is tracked. There is room for one only.
    pub python_process: Option<P>,
    /// The worker's status; `None` until the launch begins.
    pub status: Option<ZanshinStatus>,
    /// The support directory; `None` until setup has resolved it.
    pub app_support: Option<String>,
}

impl<P> AppState<P> {
    /// A record with nothing in it yet.
    pub fn new() -> (state: Self)
        ensures
            state.first_run.is_none(),
            state.python_process.is_none(),
            state.status.is_none(),
            state.app_support.is_none(),
    {
        AppState { first_run: None, python_process: None, status: None, app_support: None }
    }

    /// Records the support directory and whether this is the first run, which
    /// is the case when the marker file was not found. Both are written once:
    /// a field that already holds a value keeps it.
    pub fn record_setup(&mut self, app_support: String, marker_exists: bool)
        ensures
            final(self).app_support == (if old(self).app_support.is_none() {
                Some(app_support)
            } else {
                old(self).app_support
            }),
            final(self).first_run == (if old(self).first_run.is_none() {
                Some(!marker_exists)
            } else {
                old(self).first_run
            }),
            final(self).status == old(self).status,
            final(self).python_process == old(self).python_process,
    {
        if self.app_support.is_none() {
            self.app_support = Some(app_support);
        }
        if self.first_run.is_none() {
            self.first_run = Some(!marker_exists);
        }
    }

    /// Marks the worker as being launched.
    pub fn begin_launch(&mut self)
        ensures
            final(self).status == Some(ZanshinStatus::LAUNCHING),
            final(self).first_run == old(self).first_run,
            final(self).python_process == old(self).python_process,
            final(self).app_support == old(self).app_support,
    {
        self.status = Some(ZanshinStatus::LAUNCHING);
    }

    /// Tracks `handle` as the live worker and hands back the handle that was
    /// tracked before, so that at most one is ever held.
    pub fn track_process(&mut self, handle: P) -> (previous: Option<P>)
        ensures
            final(self).python_process == Some(handle),
            previous == old(self).python_process,
            final(self).status == old(self).status,
            final(self).first_run == old(self).first_run,
            final(self).app_support == old(self).app_support,
    {
        let previous = self.python_process.take();
        self.python_process = Some(handle);
        previous
    }

    /// Moves the tracked handle out and leaves none behind.
    pub fn take_process(&mut self) -> (taken: Option<P>)
        ensures
            taken == old(self).python_process,
            final(self).python_process.is_none(),
            final(self).status == old(self).status,
            final(self).first_run == old(self).first_run,
            final(self).app_support == old(self).app_support,
    {
        self.python_process.take()
    }

    /// Overwrites the status. No order among the statuses is enforced.
    pub fn set_status(&mut self, status: ZanshinStatus)
        ensures
            final(self).status == Some(status),
            final(self).first_run == old(self).first_run,
            final(self).python_process == old(self).python_process,
            final(self).app_support == old(self).app_support,
    {
        self.status = Some(status);
    }

    /// The status last written, if any.
    pub fn current_status(&self) -> (status: Option<ZanshinStatus>)
        ensures
            status == self.status,
    {
        self.status
    }

    /// Whether this was found to be the first run, once setup has recorded it.
    pub fn is_first_run(&self) -> (flag: Option<bool>)
        ensures
            flag == self.first_run,
    {
        self.first_run
    }

    /// The support directory, once setup has recorded it.
    pub fn support_dir(&self) -> (dir: Option<&String>)
        ensures
            dir.is_some() == self.app_support.is_some(),
            dir matches Some(d) ==> self.app_support == Some(*d),
    {
        self.app_support.as_ref()
    }
}

impl<P> Default for AppState<P> {
    fn default() -> (state: Self)
        ensures
            state.first_run.is_none(),
            state.python_process.is_none(),
            state.status.is_none(),
            state.app_support.is_none(),
    {
        AppState::new()
    }
}

/// Setup is write-once: running it a second time, with whatever arguments,
/// leaves the record as the first run made it.
pub proof fn setup_is_write_once<P>(
    before: AppState<P>,
    once: AppState<P>,
    twice: AppState<P>,
    first_dir: String,
    first_marker: bool,
    second_dir: String,
    second_marker: bool,
)
    requires
        setup_relation(before, once, first_dir, first_marker),
        setup_relation(once, twice, second_dir, second_marker),
    ensures
        twice == once,
{
}

/// How `record_setup` relates the record before and after it.
pub open spec fn setup_relation<P>(
    pre: AppState<P>,
    post: AppState<P>,
    app_support: String,
    marker_exists: bool,
) -> bool {
    post == (AppState {
        app_support: if pre.app_support.is_none() {
            Some(app_support)
        } else {
            pre.app_support
        },
        first_run: if pre.first_run.is_none() {
            Some(!marker_exists)
        } else {
            pre.first_run
        },
        ..pre
    })
}

} // verus!
