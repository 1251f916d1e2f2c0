use vstd::prelude::*;

verus! {

/// The state of a position watch held by its caller.
///
/// A task is active from the moment the host platform hands out its watch
/// identifier until it is cancelled; cancelling is terminal. The host's cancel
/// primitive must be invoked for a watch at most once: `cancel` and `release`
/// hand out the identifier to clear only on the transition out of the active
/// state.
#[derive(Debug)]
pub struct WatchPositionTask {
    watch_id: i32,
    active: bool,
}

/// The mathematical state of a watch task.
pub struct TaskView {
    pub watch_id: i32,
    pub active: bool,
}

/// Cancelling a task in state `v`: the next state, and the identifier that
/// the host must be asked to clear, if any.
pub open spec fn spec_cancel(v: TaskView) -> (TaskView, Option<i32>) {
    if v.active {
        (TaskView { watch_id: v.watch_id, active: false }, Some(v.watch_id))
    } else {
        (v, None)
    }
}

/// Releasing a task in state `v` at the end of its scope: the identifier that
/// the host must be asked to clear, if any.
pub open spec fn spec_release(v: TaskView) -> Option<i32> {
    spec_cancel(v).1
}

impl View for WatchPositionTask {
    type V = TaskView;

    closed spec fn view(&self) -> TaskView {
        TaskView { watch_id: self.watch_id, active: self.active }
    }
}

impl WatchPositionTask {
    /// A task for the watch that the host identifies by `watch_id`.
    pub fn new(watch_id: i32) -> (r: WatchPositionTask)
        ensures
            r@ == (TaskView { watch_id, active: true }),
    {
        WatchPositionTask { watch_id, active: true }
    }

    /// The identifier that the host gave the watch.
    pub fn watch_id(&self) -> (r: i32)
        ensures
            r == self@.watch_id,
    {
        self.watch_id
    }

    /// Whether the watch has not been cancelled yet.
    pub fn is_active(&self) -> (r: bool)
        ensures
            r == self@.active,
    {
        self.active
    }

    /// Cancels the watch. Returns the identifier that the host must be asked
    /// to clear on the first call, and `None` on every later one.
    pub fn cancel(&mut self) -> (r: Option<i32>)
        ensures
            (final(self)@, r) == spec_cancel(old(self)@),
    {
        if self.active {
            self.active = false;
            Some(self.watch_id)
        } else {
            None
        }
    }

    /// Gives the task up at the end of its scope. Returns the identifier that
    /// the host must be asked to clear when the task was still active.
    pub fn release(self) -> (r: Option<i32>)
        ensures
            r == spec_release(self@),
    {
        if self.active {
            Some(self.watch_id)
        } else {
            None
        }
    }
}

impl From<i32> for WatchPositionTask {
    fn from(watch_id: i32) -> (r: WatchPositionTask) {
        WatchPositionTask::new(watch_id)
    }
}

impl vstd::std_specs::convert::FromSpecImpl<i32> for WatchPositionTask {
    open spec fn obeys_from_spec() -> bool {
        true
    }

    closed spec fn from_spec(watch_id: i32) -> WatchPositionTask {
        WatchPositionTask { watch_id, active: true }
    }
}

/// Converting a watch identifier gives an active task for that watch.
pub proof fn lemma_from_is_active(watch_id: i32)
    ensures
        <WatchPositionTask as vstd::std_specs::convert::FromSpec<i32>>::from_spec(watch_id)@
            == (TaskView { watch_id, active: true }),
        spec_cancel(
            <WatchPositionTask as vstd::std_specs::convert::FromSpec<i32>>::from_spec(watch_id)@,
        ).1 == Some(watch_id),
        spec_release(
            <WatchPositionTask as vstd::std_specs::convert::FromSpec<i32>>::from_spec(watch_id)@,
        ) == Some(watch_id),
{
}

/// The task that a watch start yields: one exactly when the host handed out
/// an identifier.
pub fn watch_started(watch_id: Option<i32>) -> (r: Option<WatchPositionTask>)
    ensures
        r is Some <==> watch_id is Some,
        r matches Some(t) ==> t@ == (TaskView { watch_id: watch_id.unwrap(), active: true }),
{
    match watch_id {
        Some(id) => Some(WatchPositionTask::new(id)),
        None => None,
    }
}

/// A task that starts active hands out its identifier on the first cancel,
/// and from then on neither another cancel nor its release asks the host
/// again: the watch is cleared exactly once.
pub proof fn lemma_cancel_clears_once(v: TaskView)
    requires
        v.active,
    ensures
        spec_cancel(v).1 == Some(v.watch_id),
        !spec_cancel(v).0.active,
        spec_cancel(spec_cancel(v).0).1 is None,
        spec_cancel(spec_cancel(v).0).0 == spec_cancel(v).0,
        spec_release(spec_cancel(v).0) is None,
{
}

/// Releasing a task that is still active asks the host to clear its watch
/// exactly once, with its own identifier.
pub proof fn lemma_release_active_clears(v: TaskView)
    requires
        v.active,
    ensures
        spec_release(v) == Some(v.watch_id),
{
}

/// A cancelled task stays cancelled and asks the host for nothing more.
pub proof fn lemma_cancelled_is_terminal(v: TaskView)
    requires
        !v.active,
    ensures
        spec_cancel(v) == (v, None::<i32>),
        spec_release(v) is None,
{
}

} // verus!
