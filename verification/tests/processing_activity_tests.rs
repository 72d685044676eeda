use cameraftp::processing_activity::{
    combine_progress_json, ActivitySync, ActivityTracker, PipelineProgress, ProgressSlot,
};

#[test]
fn notify_enqueued_merges_running_batch_and_bootstraps_empty_slot() {
    let mut slot = ProgressSlot { value: Some(PipelineProgress { done: 2, total: 5, failed: 1 }) };
    slot.notify_enqueued(6);
    let merged = slot.read_progress().unwrap();
    assert_eq!(merged.done, 2);
    assert_eq!(merged.total, 8);
    assert_eq!(merged.failed, 1);

    let mut fresh = ProgressSlot { value: None };
    fresh.notify_enqueued(3);
    let boot = fresh.read_progress().unwrap();
    assert_eq!(boot.done, 0);
    assert_eq!(boot.total, 3);
    assert_eq!(boot.failed, 0);
}

#[test]
fn combine_progress_json_renders_null_and_objects() {
    let cg = PipelineProgress { done: 1, total: 2, failed: 0 };
    let ai = PipelineProgress { done: 2, total: 3, failed: 1 };

    assert_eq!(combine_progress_json(None, None), r#"{"cg":null,"ai":null}"#);
    assert_eq!(
        combine_progress_json(Some(cg), None),
        r#"{"cg":{"done":1,"total":2,"failed":0},"ai":null}"#
    );
    assert_eq!(
        combine_progress_json(Some(cg), Some(ai)),
        r#"{"cg":{"done":1,"total":2,"failed":0},"ai":{"done":2,"total":3,"failed":1}}"#
    );
}

#[test]
fn progress_slot_write_and_clear_roundtrip() {
    let mut slot = ProgressSlot::new();

    assert_eq!(slot.read_progress(), None);

    let p = PipelineProgress { done: 3, total: 5, failed: 2 };
    slot.write_progress(Some(p));
    assert_eq!(slot.read_progress(), Some(p));

    slot.write_progress(None);
    assert_eq!(slot.read_progress(), None);
}

#[test]
fn service_syncs_only_on_combined_edges() {
    let mut t = ActivityTracker::new();
    // color grading becomes busy: start edge
    match t.notify_cg(true) {
        ActivitySync::Edge { active, progress_json } => {
            assert!(active);
            assert_eq!(progress_json, r#"{"cg":null,"ai":null}"#);
        }
        other => panic!("expected edge, got {:?}", other),
    }
    // repeated busy reports tell nothing
    for _ in 0..100 {
        assert_eq!(t.notify_cg(true), ActivitySync::Unchanged);
    }
    // AI also busy: still no edge
    assert_eq!(t.notify_ai(true), ActivitySync::Unchanged);
    // color grading idles while AI is busy: service kept
    assert_eq!(t.notify_cg(false), ActivitySync::Unchanged);
    // AI idles: stop edge
    match t.notify_ai(false) {
        ActivitySync::Edge { active, .. } => assert!(!active),
        other => panic!("expected edge, got {:?}", other),
    }
}

#[test]
fn progress_is_pushed_only_while_active_and_cleared_on_idle() {
    let mut t = ActivityTracker::new();
    assert_eq!(
        t.notify_cg_progress(PipelineProgress { done: 0, total: 4, failed: 0 }),
        ActivitySync::Unchanged
    );
    t.notify_cg(true);
    match t.notify_cg_enqueued(2) {
        ActivitySync::Progress { progress_json } => {
            assert_eq!(progress_json, r#"{"cg":{"done":0,"total":2,"failed":0},"ai":null}"#)
        }
        other => panic!("expected progress, got {:?}", other),
    }
    match t.notify_ai_enqueued(1) {
        ActivitySync::Progress { progress_json } => assert_eq!(
            progress_json,
            r#"{"cg":{"done":0,"total":2,"failed":0},"ai":{"done":0,"total":1,"failed":0}}"#
        ),
        other => panic!("expected progress, got {:?}", other),
    }
    t.notify_ai_progress(PipelineProgress { done: 1, total: 1, failed: 0 });
    t.notify_cg(false);
    assert_eq!(t.progress(), (None, Some(PipelineProgress { done: 1, total: 1, failed: 0 })));
}
