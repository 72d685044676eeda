//! Busy/idle tracking of the two background pipelines (color grading and AI
//! edit): the foreground service is synchronised only on edges of the
//! combined busy state, and the pipelines' progress is reported while it is
//! active.
use vstd::prelude::*;
use crate::text::{decimal, format_decimal};

verus! {

/// Progress of one pipeline: done, total and failed tasks.
#[derive(Debug, Clone, Copy, PartialEq, Eq)]
pub struct PipelineProgress {
    pub done: u32,
    pub total: u32,
    pub failed: u32,
}

/// Progress after `depth` more tasks were enqueued: done and failed kept,
/// total `done + depth`; an empty slot starts from zero.
pub open spec fn spec_enqueued(cur: Option<PipelineProgress>, depth: u32) -> PipelineProgress {
    match cur {
        Some(p) => PipelineProgress { done: p.done, total: (p.done + depth) as u32, failed: p.failed },
        None => PipelineProgress { done: 0, total: depth, failed: 0 },
    }
}

/// The progress a slot holds after `depth` tasks were enqueued.
pub fn enqueued_progress(cur: Option<PipelineProgress>, depth: u32) -> (r: PipelineProgress)
    requires
        cur matches Some(p) ==> p.done + depth <= u32::MAX,
    ensures
        r == spec_enqueued(cur, depth),
{
    let base = match cur {
        Some(p) => p,
        None => PipelineProgress { done: 0, total: 0, failed: 0 },
    };
    PipelineProgress { done: base.done, total: base.done + depth, failed: base.failed }
}

/// A pipeline's latest progress (`None` when it has no tasks).
#[derive(Debug, Clone, Copy, PartialEq, Eq)]
pub struct ProgressSlot {
    pub value: Option<PipelineProgress>,
}

impl ProgressSlot {
    /// An empty slot.
    pub fn new() -> (r: ProgressSlot)
        ensures
            r.value is None,
    {
        ProgressSlot { value: None }
    }

    /// The stored progress.
    pub fn read_progress(&self) -> (r: Option<PipelineProgress>)
        ensures
            r == self.value,
    {
        self.value
    }

    /// Stores (or clears) the progress.
    pub fn write_progress(&mut self, value: Option<PipelineProgress>)
        ensures
            final(self).value == value,
    {
        self.value = value;
    }

    /// Records that `depth` tasks are queued.
    pub fn notify_enqueued(&mut self, depth: u32)
        requires
            old(self).value matches Some(p) ==> p.done + depth <= u32::MAX,
        ensures
            final(self).value == Some(spec_enqueued(old(self).value, depth)),
    {
        let next = enqueued_progress(self.value, depth);
        self.value = Some(next);
    }
}

/// JSON of one slot: `{"done":d,"total":t,"failed":f}` or `null`.
pub open spec fn spec_progress_json(p: Option<PipelineProgress>) -> Seq<char> {
    match p {
        Some(p) => "{\"done\":"@ + decimal(p.done as nat) + ",\"total\":"@ + decimal(p.total as nat)
            + ",\"failed\":"@ + decimal(p.failed as nat) + "}"@,
        None => "null"@,
    }
}

/// JSON of both slots: `{"cg":...,"ai":...}`.
pub open spec fn spec_combined_json(cg: Option<PipelineProgress>, ai: Option<PipelineProgress>) -> Seq<char> {
    "{\"cg\":"@ + spec_progress_json(cg) + ",\"ai\":"@ + spec_progress_json(ai) + "}"@
}

fn progress_json(p: Option<PipelineProgress>) -> (r: String)
    ensures
        r@ == spec_progress_json(p),
{
    match p {
        Some(p) => {
            let s = String::from_str("{\"done\":");
            let s = s.concat(format_decimal(p.done as u64).as_str());
            let s = s.concat(",\"total\":");
            let s = s.concat(format_decimal(p.total as u64).as_str());
            let s = s.concat(",\"failed\":");
            let s = s.concat(format_decimal(p.failed as u64).as_str());
            s.concat("}")
        },
        None => String::from_str("null"),
    }
}

/// The progress of both pipelines as the JSON the notification reads.
pub fn combine_progress_json(cg: Option<PipelineProgress>, ai: Option<PipelineProgress>) -> (r: String)
    ensures
        r@ == spec_combined_json(cg, ai),
{
    let s = String::from_str("{\"cg\":");
    let s = s.concat(progress_json(cg).as_str());
    let s = s.concat(",\"ai\":");
    let s = s.concat(progress_json(ai).as_str());
    s.concat("}")
}

/// What the platform is told after a report.
#[derive(Debug, Clone, PartialEq, Eq)]
pub enum ActivitySync {
    /// Nothing to tell.
    Unchanged,
    /// The combined busy state changed: start (`true`) or stop the
    /// foreground service, with the current progress of both pipelines.
    Edge { active: bool, progress_json: String },
    /// The service is active and a pipeline's progress changed.
    Progress { progress_json: String },
}

/// Value of a synchronisation: `None` for nothing to tell, else whether it
/// is an edge (with the new combined state) and the progress JSON.
pub open spec fn sync_view(a: ActivitySync) -> Option<(Option<bool>, Seq<char>)> {
    match a {
        ActivitySync::Unchanged => None,
        ActivitySync::Edge { active, progress_json } => Some((Some(active), progress_json@)),
        ActivitySync::Progress { progress_json } => Some((None, progress_json@)),
    }
}

/// The two pipelines' busy flags, the combined state last synchronised with
/// the platform, and the pipelines' progress slots.
#[derive(Debug)]
pub struct ActivityTracker {
    cg_active: bool,
    ai_active: bool,
    synced_combined: bool,
    cg_progress: ProgressSlot,
    ai_progress: ProgressSlot,
}

/// Value of the tracker: color-grading busy, AI busy, synchronised
/// combined state, color-grading progress, AI progress.
pub type TrackerView = (bool, bool, bool, Option<PipelineProgress>, Option<PipelineProgress>);

/// The state after a pipeline reports busy (`active`) or idle: its flag is
/// set, its progress cleared when idle, and the synchronised state follows
/// the combined one.
pub open spec fn spec_after_notify(t: TrackerView, is_cg: bool, active: bool) -> TrackerView {
    let cg = if is_cg { active } else { t.0 };
    let ai = if is_cg { t.1 } else { active };
    let cgp = if is_cg && !active { None } else { t.3 };
    let aip = if !is_cg && !active { None } else { t.4 };
    (cg, ai, cg || ai, cgp, aip)
}

/// What a busy/idle report tells the platform: an edge with the progress of
/// both pipelines when the combined state changed, else nothing.
pub open spec fn spec_notify_sync(t: TrackerView, is_cg: bool, active: bool) -> Option<(Option<bool>, Seq<char>)> {
    let n = spec_after_notify(t, is_cg, active);
    if n.2 != t.2 {
        Some((Some(n.2), spec_combined_json(n.3, n.4)))
    } else {
        None
    }
}

/// The state after a progress report: the slot is overwritten.
pub open spec fn spec_after_progress(t: TrackerView, is_cg: bool, p: PipelineProgress) -> TrackerView {
    if is_cg {
        (t.0, t.1, t.2, Some(p), t.4)
    } else {
        (t.0, t.1, t.2, t.3, Some(p))
    }
}

/// What a progress report tells the platform: the progress of both
/// pipelines, only while the service is active.
pub open spec fn spec_progress_sync(t: TrackerView, is_cg: bool, p: PipelineProgress) -> Option<(Option<bool>, Seq<char>)> {
    let n = spec_after_progress(t, is_cg, p);
    if t.2 {
        Some((None, spec_combined_json(n.3, n.4)))
    } else {
        None
    }
}

/// Reporting the same busy/idle state twice in a row tells the platform
/// nothing the second time: a hundred enqueues start the service once.
pub proof fn law_repeated_report_syncs_once(t: TrackerView, is_cg: bool, active: bool)
    ensures
        spec_notify_sync(spec_after_notify(t, is_cg, active), is_cg, active) is None,
{
}

/// After any busy/idle report, the synchronised state is the combined busy
/// state of the two pipelines: it is busy exactly when one of them is.
pub proof fn law_synced_follows_combined(t: TrackerView, is_cg: bool, active: bool)
    ensures
        spec_after_notify(t, is_cg, active).2 == (spec_after_notify(t, is_cg, active).0
            || spec_after_notify(t, is_cg, active).1),
{
}

/// Progress reports never start or stop the service: they leave the busy
/// flags and the synchronised state alone and are never an edge.
pub proof fn law_progress_never_toggles_service(t: TrackerView, is_cg: bool, p: PipelineProgress)
    ensures
        spec_after_progress(t, is_cg, p).0 == t.0,
        spec_after_progress(t, is_cg, p).1 == t.1,
        spec_after_progress(t, is_cg, p).2 == t.2,
        !(spec_progress_sync(t, is_cg, p) matches Some((Some(_), _))),
{
}

/// With one pipeline still busy, the other going idle keeps the service:
/// no edge is reported.
pub proof fn law_one_busy_keeps_service(t: TrackerView, is_cg: bool)
    requires
        t.2 == (t.0 || t.1),
        is_cg ==> t.1,
        !is_cg ==> t.0,
    ensures
        spec_notify_sync(t, is_cg, false) is None,
{
}

impl ActivityTracker {
    /// Value of the tracker.
    pub closed spec fn view(&self) -> TrackerView {
        (self.cg_active, self.ai_active, self.synced_combined, self.cg_progress.value, self.ai_progress.value)
    }

    /// Both pipelines idle, nothing synchronised, no progress.
    pub fn new() -> (r: ActivityTracker)
        ensures
            r.view() == (false, false, false, None::<PipelineProgress>, None::<PipelineProgress>),
    {
        ActivityTracker {
            cg_active: false,
            ai_active: false,
            synced_combined: false,
            cg_progress: ProgressSlot::new(),
            ai_progress: ProgressSlot::new(),
        }
    }

    fn notify_one(&mut self, is_cg: bool, active: bool) -> (r: ActivitySync)
        ensures
            final(self).view() == spec_after_notify(old(self).view(), is_cg, active),
            sync_view(r) == spec_notify_sync(old(self).view(), is_cg, active),
    {
        if is_cg {
            self.cg_active = active;
            if !active {
                self.cg_progress.write_progress(None);
            }
        } else {
            self.ai_active = active;
            if !active {
                self.ai_progress.write_progress(None);
            }
        }
        let combined = self.cg_active || self.ai_active;
        let previous = self.synced_combined;
        self.synced_combined = combined;
        if previous != combined {
            ActivitySync::Edge {
                active: combined,
                progress_json: combine_progress_json(self.cg_progress.value, self.ai_progress.value),
            }
        } else {
            ActivitySync::Unchanged
        }
    }

    fn notify_progress(&mut self, is_cg: bool, progress: PipelineProgress) -> (r: ActivitySync)
        ensures
            final(self).view() == spec_after_progress(old(self).view(), is_cg, progress),
            sync_view(r) == spec_progress_sync(old(self).view(), is_cg, progress),
    {
        if is_cg {
            self.cg_progress.write_progress(Some(progress));
        } else {
            self.ai_progress.write_progress(Some(progress));
        }
        if self.synced_combined {
            ActivitySync::Progress {
                progress_json: combine_progress_json(self.cg_progress.value, self.ai_progress.value),
            }
        } else {
            ActivitySync::Unchanged
        }
    }

    /// Color grading reports busy or idle.
    pub fn notify_cg(&mut self, active: bool) -> (r: ActivitySync)
        ensures
            final(self).view() == spec_after_notify(old(self).view(), true, active),
            sync_view(r) == spec_notify_sync(old(self).view(), true, active),
    {
        self.notify_one(true, active)
    }

    /// AI edit reports busy or idle.
    pub fn notify_ai(&mut self, active: bool) -> (r: ActivitySync)
        ensures
            final(self).view() == spec_after_notify(old(self).view(), false, active),
            sync_view(r) == spec_notify_sync(old(self).view(), false, active),
    {
        self.notify_one(false, active)
    }

    /// Color grading reports its progress.
    pub fn notify_cg_progress(&mut self, progress: PipelineProgress) -> (r: ActivitySync)
        ensures
            final(self).view() == spec_after_progress(old(self).view(), true, progress),
            sync_view(r) == spec_progress_sync(old(self).view(), true, progress),
    {
        self.notify_progress(true, progress)
    }

    /// AI edit reports its progress.
    pub fn notify_ai_progress(&mut self, progress: PipelineProgress) -> (r: ActivitySync)
        ensures
            final(self).view() == spec_after_progress(old(self).view(), false, progress),
            sync_view(r) == spec_progress_sync(old(self).view(), false, progress),
    {
        self.notify_progress(false, progress)
    }

    /// Color grading enqueued tasks; `depth` is its queue depth.
    pub fn notify_cg_enqueued(&mut self, depth: u32) -> (r: ActivitySync)
        requires
            old(self).view().3 matches Some(p) ==> p.done + depth <= u32::MAX,
        ensures
            final(self).view() == spec_after_progress(old(self).view(), true, spec_enqueued(old(self).view().3, depth)),
            sync_view(r) == spec_progress_sync(old(self).view(), true, spec_enqueued(old(self).view().3, depth)),
    {
        let next = enqueued_progress(self.cg_progress.value, depth);
        self.notify_progress(true, next)
    }

    /// AI edit enqueued tasks; `depth` is its queue depth.
    pub fn notify_ai_enqueued(&mut self, depth: u32) -> (r: ActivitySync)
        requires
            old(self).view().4 matches Some(p) ==> p.done + depth <= u32::MAX,
        ensures
            final(self).view() == spec_after_progress(old(self).view(), false, spec_enqueued(old(self).view().4, depth)),
            sync_view(r) == spec_progress_sync(old(self).view(), false, spec_enqueued(old(self).view().4, depth)),
    {
        let next = enqueued_progress(self.ai_progress.value, depth);
        self.notify_progress(false, next)
    }

    /// The progress of both pipelines.
    pub fn progress(&self) -> (r: (Option<PipelineProgress>, Option<PipelineProgress>))
        ensures
            r == (self.view().3, self.view().4),
    {
        (self.cg_progress.value, self.ai_progress.value)
    }
}

} // verus!
