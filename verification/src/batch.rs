//! The bookkeeping of a background batch worker (color grading, AI edit):
//! per-batch counts and file lists, and the progress events the worker
//! reports as tasks start, finish, fail or the batch ends.
use vstd::prelude::*;

verus! {

/// A progress event of a batch worker.
#[derive(Debug, Clone, PartialEq, Eq)]
pub enum ProgressEvent {
    /// Tasks were enqueued; `queue_depth` are waiting.
    Queued { queue_depth: u32 },
    /// A task started: it is number `current` of `total` known so far.
    Progress { current: u32, total: u32, file_name: String, failed_count: u32 },
    /// A task succeeded.
    Completed { current: u32, total: u32, file_name: String, failed_count: u32, output_path: String },
    /// A task failed.
    Failed { current: u32, total: u32, file_name: String, error: String, failed_count: u32 },
    /// The batch ended (drained, or cancelled): how many tasks ran, which
    /// failed, which outputs were written.
    Done {
        total: u32,
        failed_count: u32,
        failed_files: Vec<String>,
        output_files: Vec<String>,
        cancelled: bool,
    },
}

/// Counts and file lists of the batch in progress.
#[derive(Debug)]
pub struct BatchState {
    completed_count: u32,
    failed_count: u32,
    failed_files: Vec<String>,
    output_files: Vec<String>,
}

/// Views of a list of strings.
pub open spec fn strings_view(v: Seq<String>) -> Seq<Seq<char>> {
    v.map_values(|s: String| s@)
}

/// `e` is the `Done` event that ends the batch `o`: the number of tasks
/// processed, the failures, the failed files and the outputs of `o`, and the
/// cancelled flag.
pub open spec fn is_done_event(o: BatchState, cancelled: bool, e: ProgressEvent) -> bool {
    e matches ProgressEvent::Done { total, failed_count, failed_files, output_files, cancelled: c } && total
        == o.completed() + o.failed() && failed_count == o.failed() && strings_view(failed_files@)
        == o.failed_list() && strings_view(output_files@) == o.output_list() && c == cancelled
}

/// `f` is an empty batch.
pub open spec fn is_empty_batch(f: BatchState) -> bool {
    f.completed() == 0 && f.failed() == 0 && f.failed_list() == Seq::<Seq<char>>::empty() && f.output_list()
        == Seq::<Seq<char>>::empty()
}

impl BatchState {
    /// Tasks that succeeded in this batch.
    pub closed spec fn completed(&self) -> nat {
        self.completed_count as nat
    }

    /// Tasks that failed in this batch.
    pub closed spec fn failed(&self) -> nat {
        self.failed_count as nat
    }

    /// Names of the failed files, in order.
    pub closed spec fn failed_list(&self) -> Seq<Seq<char>> {
        strings_view(self.failed_files@)
    }

    /// Output paths of the succeeded tasks, in order.
    pub closed spec fn output_list(&self) -> Seq<Seq<char>> {
        strings_view(self.output_files@)
    }

    /// The lists hold one entry per counted task.
    pub open spec fn wf(&self) -> bool {
        self.failed_list().len() == self.failed() && self.output_list().len() == self.completed()
    }

    /// An empty batch.
    pub fn new() -> (r: BatchState)
        ensures
            r.completed() == 0,
            r.failed() == 0,
            r.failed_list() == Seq::<Seq<char>>::empty(),
            r.output_list() == Seq::<Seq<char>>::empty(),
            r.wf(),
    {
        let r = BatchState { completed_count: 0, failed_count: 0, failed_files: Vec::new(), output_files: Vec::new() };
        assert(r.failed_list() =~= Seq::<Seq<char>>::empty());
        assert(r.output_list() =~= Seq::<Seq<char>>::empty());
        r
    }

    /// Tasks processed in this batch, succeeded or failed.
    pub fn processed_count(&self) -> (r: u32)
        requires
            self.completed() + self.failed() <= u32::MAX,
        ensures
            r == self.completed() + self.failed(),
    {
        self.completed_count + self.failed_count
    }

    /// The failures so far.
    pub fn failed_count(&self) -> (r: u32)
        ensures
            r == self.failed(),
    {
        self.failed_count
    }

    /// The event for a task that starts with `remaining` tasks still queued:
    /// it is task `processed + 1` of `processed + 1 + remaining`.
    pub fn task_started(&self, file_name: String, remaining: u32) -> (r: ProgressEvent)
        requires
            self.completed() + self.failed() + 1 + remaining <= u32::MAX,
        ensures
            r matches ProgressEvent::Progress { current, total, file_name: f, failed_count } && current
                == self.completed() + self.failed() + 1 && total == current + remaining && f@
                == file_name@ && failed_count == self.failed(),
    {
        let current = self.completed_count + self.failed_count + 1;
        ProgressEvent::Progress { current, total: current + remaining, file_name, failed_count: self.failed_count }
    }

    /// Records a succeeded task and returns its event.
    pub fn record_success(&mut self, file_name: String, output_path: String, remaining: u32) -> (r: ProgressEvent)
        requires
            old(self).wf(),
            old(self).completed() + old(self).failed() + 1 + remaining <= u32::MAX,
        ensures
            final(self).wf(),
            final(self).completed() == old(self).completed() + 1,
            final(self).failed() == old(self).failed(),
            final(self).output_list() == old(self).output_list().push(output_path@),
            final(self).failed_list() == old(self).failed_list(),
            r matches ProgressEvent::Completed { current, total, file_name: f, failed_count, output_path: o }
                && current == final(self).completed() + final(self).failed() && total == current + remaining
                && f@ == file_name@ && failed_count == final(self).failed() && o@ == output_path@,
    {
        let ghost before = self.output_files@;
        self.completed_count = self.completed_count + 1;
        let out = output_path.clone();
        self.output_files.push(output_path);
        proof {
            assert(strings_view(self.output_files@) =~= strings_view(before).push(out@));
        }
        let current = self.completed_count + self.failed_count;
        ProgressEvent::Completed {
            current,
            total: current + remaining,
            file_name,
            failed_count: self.failed_count,
            output_path: out,
        }
    }

    /// Records a failed task and returns its event.
    pub fn record_failure(&mut self, file_name: String, error: String, remaining: u32) -> (r: ProgressEvent)
        requires
            old(self).wf(),
            old(self).completed() + old(self).failed() + 1 + remaining <= u32::MAX,
        ensures
            final(self).wf(),
            final(self).failed() == old(self).failed() + 1,
            final(self).completed() == old(self).completed(),
            final(self).failed_list() == old(self).failed_list().push(file_name@),
            final(self).output_list() == old(self).output_list(),
            r matches ProgressEvent::Failed { current, total, file_name: f, error: e, failed_count } && current
                == final(self).completed() + final(self).failed() && total == current + remaining && f@
                == file_name@ && e@ == error@ && failed_count == final(self).failed(),
    {
        let ghost before = self.failed_files@;
        self.failed_count = self.failed_count + 1;
        let name = file_name.clone();
        self.failed_files.push(file_name);
        proof {
            assert(strings_view(self.failed_files@) =~= strings_view(before).push(name@));
        }
        let current = self.completed_count + self.failed_count;
        ProgressEvent::Failed { current, total: current + remaining, file_name: name, error, failed_count: self.failed_count }
    }

    /// Ends the batch: the `Done` event with its counts and lists, and an
    /// empty batch after it.
    pub fn finish(&mut self, cancelled: bool) -> (r: ProgressEvent)
        requires
            old(self).wf(),
            old(self).completed() + old(self).failed() <= u32::MAX,
        ensures
            final(self).wf(),
            final(self).completed() == 0 && final(self).failed() == 0,
            final(self).failed_list() == Seq::<Seq<char>>::empty(),
            final(self).output_list() == Seq::<Seq<char>>::empty(),
            r matches ProgressEvent::Done { total, failed_count, failed_files, output_files, cancelled: c }
                && total == old(self).completed() + old(self).failed() && failed_count == old(self).failed()
                && strings_view(failed_files@) == old(self).failed_list() && strings_view(output_files@)
                == old(self).output_list() && c == cancelled,
    {
        let total = self.completed_count + self.failed_count;
        let failed_count = self.failed_count;
        let mut failed_files: Vec<String> = Vec::new();
        std::mem::swap(&mut failed_files, &mut self.failed_files);
        let mut output_files: Vec<String> = Vec::new();
        std::mem::swap(&mut output_files, &mut self.output_files);
        self.completed_count = 0;
        self.failed_count = 0;
        proof {
            assert(self.failed_list() =~= Seq::<Seq<char>>::empty());
            assert(self.output_list() =~= Seq::<Seq<char>>::empty());
        }
        ProgressEvent::Done { total, failed_count, failed_files, output_files, cancelled }
    }

    /// After a task: the batch is done when nothing remains queued and
    /// something was processed.
    pub fn done_if_drained(&mut self, remaining: u32) -> (r: Option<ProgressEvent>)
        requires
            old(self).wf(),
            old(self).completed() + old(self).failed() <= u32::MAX,
        ensures
            final(self).wf(),
            (remaining == 0 && old(self).completed() + old(self).failed() > 0) ==> (r matches Some(e)
                && is_done_event(*old(self), false, e) && is_empty_batch(*final(self))),
            !(remaining == 0 && old(self).completed() + old(self).failed() > 0) ==> r is None && *final(self)
                == *old(self),
    {
        if remaining == 0 && self.completed_count + self.failed_count > 0 {
            Some(self.finish(false))
        } else {
            None
        }
    }

    /// Cancellation (or shutdown) while waiting for a task: a cancelled
    /// `Done` when something was processed, nothing otherwise.
    pub fn cancel_if_started(&mut self) -> (r: Option<ProgressEvent>)
        requires
            old(self).wf(),
            old(self).completed() + old(self).failed() <= u32::MAX,
        ensures
            final(self).wf(),
            old(self).completed() + old(self).failed() > 0 ==> (r matches Some(e) && is_done_event(
                *old(self),
                true,
                e,
            ) && is_empty_batch(*final(self))),
            old(self).completed() + old(self).failed() == 0 ==> r is None && *final(self) == *old(self),
    {
        if self.completed_count + self.failed_count > 0 {
            Some(self.finish(true))
        } else {
            None
        }
    }
}

/// The outcome of one step of the color grading worker: `o` before, `f`
/// after, `r` the action taken.
pub open spec fn cg_step_outcome(o: BatchState, f: BatchState, input: WorkerInput, r: WorkerAction) -> bool {
    match input {
        WorkerInput::WaitCancelled | WorkerInput::Closed => if o.completed() + o.failed() > 0 {
            r.events@.len() == 1 && is_done_event(o, true, r.events@[0]) && is_empty_batch(f)
        } else {
            r.events@.len() == 0 && f == o
        },
        WorkerInput::TaskCancelled => r.events@.len() == 1 && is_done_event(o, true, r.events@[0])
            && is_empty_batch(f),
        WorkerInput::Started { file_name, remaining } => r.events@.len() == 1 && (
        r.events@[0] matches ProgressEvent::Progress { current, total, file_name: n, failed_count } && current
            == o.completed() + o.failed() + 1 && total == current + remaining && n@ == file_name@
            && failed_count == o.failed()) && f == o,
        WorkerInput::Succeeded { file_name, output_path, remaining } => r.events@.len() == 1 && (
        r.events@[0] matches ProgressEvent::Completed { current, total, file_name: n, failed_count, output_path: out }
            && current == o.completed() + o.failed() + 1 && total == current + remaining && n@ == file_name@
            && failed_count == o.failed() && out@ == output_path@) && f.completed() == o.completed() + 1
            && f.failed() == o.failed() && f.output_list() == o.output_list().push(output_path@)
            && f.failed_list() == o.failed_list(),
        WorkerInput::TaskFailed { file_name, error, remaining } => r.events@.len() == 1 && (
        r.events@[0] matches ProgressEvent::Failed { current, total, file_name: n, error: e, failed_count }
            && current == o.completed() + o.failed() + 1 && total == current + remaining && n@ == file_name@
            && e@ == error@ && failed_count == o.failed() + 1) && f.failed() == o.failed() + 1 && f.completed()
            == o.completed() && f.failed_list() == o.failed_list().push(file_name@) && f.output_list()
            == o.output_list(),
        WorkerInput::Settled { remaining } => if remaining == 0 && o.completed() + o.failed() > 0 {
            r.events@.len() == 1 && is_done_event(o, false, r.events@[0]) && is_empty_batch(f)
        } else {
            r.events@.len() == 0 && f == o
        },
    }
}

/// The outcome of one step of the AI edit worker: as the color grading
/// worker's, except that cancellation while waiting and a closed channel
/// always end the batch as cancelled, even an empty one.
pub open spec fn ai_step_outcome(o: BatchState, f: BatchState, input: WorkerInput, r: WorkerAction) -> bool {
    &&& f.wf()
    &&& r.drain_queue == (input is WaitCancelled || input is Closed || input is TaskCancelled)
    &&& r.stop == (input is Closed)
    &&& (input is WaitCancelled || input is Closed) ==> r.events@.len() == 1 && is_done_event(o, true, r.events@[0])
        && is_empty_batch(f)
    &&& !(input is WaitCancelled || input is Closed) ==> cg_step_outcome(o, f, input, r)
}

/// A cancel that reaches the AI edit worker while it waits discards what was
/// queued (none of it is processed or reported) and reports a cancelled,
/// empty batch; the worker keeps running, and a task queued afterwards (here
/// one that fails, and nothing else queued) is processed normally: it is
/// reported started, then failed, and its batch ends, not cancelled, with
/// one task and one failure.
pub proof fn law_ai_worker_recovers_after_cancel(
    s0: BatchState,
    s1: BatchState,
    s2: BatchState,
    s3: BatchState,
    s4: BatchState,
    r1: WorkerAction,
    r2: WorkerAction,
    r3: WorkerAction,
    r4: WorkerAction,
    file_name: String,
    error: String,
)
    requires
        s0.wf(),
        is_empty_batch(s0),
        ai_step_outcome(s0, s1, WorkerInput::WaitCancelled, r1),
        ai_step_outcome(s1, s2, WorkerInput::Started { file_name, remaining: 0 }, r2),
        ai_step_outcome(s2, s3, WorkerInput::TaskFailed { file_name, error, remaining: 0 }, r3),
        ai_step_outcome(s3, s4, WorkerInput::Settled { remaining: 0 }, r4),
    ensures
        r1.drain_queue && !r1.stop && r1.events@.len() == 1,
        r1.events@[0] matches ProgressEvent::Done { total, failed_count, cancelled, .. } && total == 0
            && failed_count == 0 && cancelled,
        !r2.stop && !r3.stop && !r4.stop && !r2.drain_queue && !r3.drain_queue && !r4.drain_queue,
        r2.events@.len() == 1,
        r2.events@[0] matches ProgressEvent::Progress { current, total, file_name: n, .. } && current == 1 && total
            == 1 && n@ == file_name@,
        r3.events@.len() == 1,
        r3.events@[0] matches ProgressEvent::Failed { current, failed_count, file_name: n, .. } && current == 1
            && failed_count == 1 && n@ == file_name@,
        r4.events@.len() == 1,
        r4.events@[0] matches ProgressEvent::Done { total, failed_count, failed_files, cancelled, .. } && total == 1
            && failed_count == 1 && strings_view(failed_files@) == seq![file_name@] && !cancelled,
        is_empty_batch(s4),
{
    assert(s3.failed_list() =~= seq![file_name@]);
}

/// What a batch worker observed.
#[derive(Debug)]
pub enum WorkerInput {
    /// Cancelled while waiting for a task.
    WaitCancelled,
    /// The task channel closed (the service is gone).
    Closed,
    /// A task was taken; `remaining` are still queued.
    Started { file_name: String, remaining: u32 },
    /// The task succeeded with `output_path`.
    Succeeded { file_name: String, output_path: String, remaining: u32 },
    /// The task failed with `error`.
    TaskFailed { file_name: String, error: String, remaining: u32 },
    /// Cancelled while the task ran.
    TaskCancelled,
    /// The task's outcome was reported; `remaining` are queued now.
    Settled { remaining: u32 },
}

/// What the worker does next: the events to emit, whether to discard the
/// queued tasks, and whether to stop.
#[derive(Debug)]
pub struct WorkerAction {
    pub events: Vec<ProgressEvent>,
    pub drain_queue: bool,
    pub stop: bool,
}

/// The decisions of the color grading worker loop. Cancellation while
/// waiting, and a closed channel, discard the queue and end a started batch
/// as cancelled (a closed channel also stops the worker); cancellation
/// during a task discards the queue and always ends the batch as cancelled;
/// a settled task ends the batch when nothing remains queued.
pub fn color_grading_worker_step(state: &mut BatchState, input: WorkerInput) -> (r: WorkerAction)
    requires
        old(state).wf(),
        old(state).completed() + old(state).failed() + 1 + match input {
            WorkerInput::Started { remaining, .. } => remaining,
            WorkerInput::Succeeded { remaining, .. } => remaining,
            WorkerInput::TaskFailed { remaining, .. } => remaining,
            _ => 0u32,
        } <= u32::MAX,
    ensures
        final(state).wf(),
        r.drain_queue == (input is WaitCancelled || input is Closed || input is TaskCancelled),
        r.stop == (input is Closed),
        cg_step_outcome(*old(state), *final(state), input, r),
{
    let mut events: Vec<ProgressEvent> = Vec::new();
    match input {
        WorkerInput::WaitCancelled => {
            if let Some(e) = state.cancel_if_started() {
                events.push(e);
            }
            WorkerAction { events, drain_queue: true, stop: false }
        },
        WorkerInput::Closed => {
            if let Some(e) = state.cancel_if_started() {
                events.push(e);
            }
            WorkerAction { events, drain_queue: true, stop: true }
        },
        WorkerInput::TaskCancelled => {
            events.push(state.finish(true));
            WorkerAction { events, drain_queue: true, stop: false }
        },
        WorkerInput::Started { file_name, remaining } => {
            events.push(state.task_started(file_name, remaining));
            WorkerAction { events, drain_queue: false, stop: false }
        },
        WorkerInput::Succeeded { file_name, output_path, remaining } => {
            events.push(state.record_success(file_name, output_path, remaining));
            WorkerAction { events, drain_queue: false, stop: false }
        },
        WorkerInput::TaskFailed { file_name, error, remaining } => {
            events.push(state.record_failure(file_name, error, remaining));
            WorkerAction { events, drain_queue: false, stop: false }
        },
        WorkerInput::Settled { remaining } => {
            if let Some(e) = state.done_if_drained(remaining) {
                events.push(e);
            }
            WorkerAction { events, drain_queue: false, stop: false }
        },
    }
}

/// The decisions of the AI edit worker loop: as the color grading worker,
/// except that cancellation while waiting and a closed channel always end
/// the batch as cancelled. When the automatic channel closes with a manual
/// task in hand, the worker first settles (`Settled`) and then starts it.
pub fn ai_edit_worker_step(state: &mut BatchState, input: WorkerInput) -> (r: WorkerAction)
    requires
        old(state).wf(),
        old(state).completed() + old(state).failed() + 1 + match input {
            WorkerInput::Started { remaining, .. } => remaining,
            WorkerInput::Succeeded { remaining, .. } => remaining,
            WorkerInput::TaskFailed { remaining, .. } => remaining,
            _ => 0u32,
        } <= u32::MAX,
    ensures
        final(state).wf(),
        ai_step_outcome(*old(state), *final(state), input, r),
{
    match input {
        WorkerInput::WaitCancelled => {
            let mut events: Vec<ProgressEvent> = Vec::new();
            events.push(state.finish(true));
            WorkerAction { events, drain_queue: true, stop: false }
        },
        WorkerInput::Closed => {
            let mut events: Vec<ProgressEvent> = Vec::new();
            events.push(state.finish(true));
            WorkerAction { events, drain_queue: true, stop: true }
        },
        other => color_grading_worker_step(state, other),
    }
}

} // verus!
