use gdcef::cache::CachedImage;
use gdcef::importer::{
    validate_paint, CopyError, CopyPlan, CopyStatus, DeviceCheck, GpuImage, ImporterCore,
    PaintInfo, PlanOutcome,
};

fn paint(handle: u64, width: u32, height: u32) -> PaintInfo {
    PaintInfo { handle, width, height }
}

fn ready(outcome: PlanOutcome) -> CopyPlan {
    match outcome {
        PlanOutcome::Ready(plan) => plan,
        other => panic!("expected a plan, got {:?}", other),
    }
}

fn image(n: u64) -> GpuImage {
    GpuImage { image: 1000 + n, memory: 2000 + n }
}

/// Runs one frame that goes through: queue, plan, import where asked, submit.
fn run_frame(core: &mut ImporterCore, handle: u64, width: u32, height: u32, dup: u64) -> CopyPlan {
    assert_eq!(core.queue_copy(paint(handle, width, height), Some(dup)), Ok(None));
    let plan = ready(core.plan_copy(true, true));
    let report = core.finish_copy(Some(image(dup)), CopyStatus::Submitted);
    assert_eq!(report.result, Ok(()));
    plan
}

#[test]
fn end_to_end_resize_reimports() {
    let mut core = ImporterCore::new();
    let h1 = 0x51;
    assert_eq!(core.queue_copy(paint(h1, 100, 100), Some(0x901)), Ok(None));
    let plan = ready(core.plan_copy(true, true));
    assert_eq!(plan.import, Some(0x901));
    assert!(plan.stale.is_none());
    let report = core.finish_copy(Some(image(1)), CopyStatus::Submitted);
    assert_eq!(report.result, Ok(()));
    assert_eq!(core.cache_len(), 1);
    let entry = core.cached(h1).unwrap();
    assert_eq!((entry.width, entry.height), (100, 100));
    assert_eq!(entry.duplicate, 0x901);

    assert_eq!(core.queue_copy(paint(h1, 200, 200), Some(0x902)), Ok(None));
    let plan = ready(core.plan_copy(true, true));
    let stale = plan.stale.unwrap();
    assert_eq!((stale.source, stale.width, stale.height), (h1, 100, 100));
    assert_eq!(stale.duplicate, 0x901);
    assert_eq!(plan.import, Some(0x902));
    let report = core.finish_copy(Some(image(2)), CopyStatus::Submitted);
    assert_eq!(report.result, Ok(()));
    assert_eq!(core.cache_len(), 1);
    let entry = core.cached(h1).unwrap();
    assert_eq!((entry.width, entry.height), (200, 200));
    assert_eq!(entry.image, image(2).image);
}

#[test]
fn rapid_paints_keep_only_latest() {
    let mut core = ImporterCore::new();
    assert_eq!(core.queue_copy(paint(0x11, 64, 64), Some(0x701)), Ok(None));
    // The second paint replaces the first and hands its duplicate back.
    assert_eq!(core.queue_copy(paint(0x22, 64, 64), Some(0x702)), Ok(Some(0x701)));
    let pending = core.pending().unwrap();
    assert_eq!(pending.source, 0x22);
    assert_eq!(pending.duplicate, 0x702);
    let plan = ready(core.plan_copy(true, true));
    assert_eq!(plan.source, 0x22);
    assert_eq!(plan.import, Some(0x702));
    core.finish_copy(Some(image(7)), CopyStatus::Submitted);
    assert!(core.cached(0x11).is_none());
    assert_eq!(core.cached(0x22).unwrap().image, image(7).image);
    assert!(core.pending().is_none());
}

#[test]
fn many_paints_release_every_earlier_duplicate() {
    let mut core = ImporterCore::new();
    let mut released = Vec::new();
    for i in 0..5u64 {
        if let Ok(Some(h)) = core.queue_copy(paint(0x40 + i, 32, 16), Some(0x800 + i)) {
            released.push(h);
        }
    }
    assert_eq!(released, vec![0x800, 0x801, 0x802, 0x803]);
    assert_eq!(core.pending().unwrap().duplicate, 0x804);
    assert_eq!(core.cache_len(), 0);
}

#[test]
fn tick_without_pending_is_a_no_op() {
    let mut core = ImporterCore::new();
    run_frame(&mut core, 0x5, 10, 10, 0x50);
    let frames = core.frame_count();
    let slot = core.current_slot();
    assert!(matches!(core.plan_copy(true, true), PlanOutcome::Idle));
    assert!(matches!(core.plan_copy(false, false), PlanOutcome::Idle));
    assert_eq!(core.frame_count(), frames);
    assert_eq!(core.current_slot(), slot);
    assert_eq!(core.cache_len(), 1);
    assert!(!core.copy_in_progress());
    assert_eq!(core.fence_to_wait(true), None);
}

#[test]
fn same_size_request_hits_cache() {
    let mut core = ImporterCore::new();
    run_frame(&mut core, 0x9, 300, 200, 0x91);
    assert_eq!(core.queue_copy(paint(0x9, 300, 200), Some(0x92)), Ok(None));
    let plan = ready(core.plan_copy(true, true));
    assert_eq!(plan.import, None);
    assert!(plan.stale.is_none());
    assert_eq!(plan.cached_image, Some(image(0x91).image));
    assert_eq!(plan.release, Some(0x92));
    let report = core.finish_copy(None, CopyStatus::Submitted);
    assert_eq!(report.result, Ok(()));
    let entry = core.cached(0x9).unwrap();
    assert_eq!(entry.duplicate, 0x91);
    assert_eq!(entry.last_used, 1);
    assert_eq!(core.frame_count(), 2);
}

#[test]
fn eleven_distinct_sources_evict_the_first() {
    let mut core = ImporterCore::new();
    let mut evicted: Vec<CachedImage> = Vec::new();
    for i in 0..11u64 {
        assert_eq!(core.queue_copy(paint(0x100 + i, 8, 8), Some(0x200 + i)), Ok(None));
        ready(core.plan_copy(true, true));
        let report = core.finish_copy(Some(image(i)), CopyStatus::Submitted);
        if let Some(e) = report.evicted {
            evicted.push(e);
        }
    }
    assert_eq!(core.cache_len(), 10);
    assert_eq!(evicted.len(), 1);
    assert_eq!(evicted[0].source, 0x100);
    assert_eq!(evicted[0].duplicate, 0x200);
    assert!(core.cached(0x100).is_none());
    for i in 1..11u64 {
        assert!(core.cached(0x100 + i).is_some());
    }
}

#[test]
fn reused_entry_is_not_evicted() {
    let mut core = ImporterCore::new();
    for i in 0..10u64 {
        run_frame(&mut core, 0x100 + i, 8, 8, 0x200 + i);
    }
    // Use the first source again: the second becomes least recently used.
    run_frame(&mut core, 0x100, 8, 8, 0x300);
    assert_eq!(core.queue_copy(paint(0x500, 8, 8), Some(0x600)), Ok(None));
    ready(core.plan_copy(true, true));
    let report = core.finish_copy(Some(image(0x600)), CopyStatus::Submitted);
    assert_eq!(report.evicted.unwrap().source, 0x101);
    assert!(core.cached(0x100).is_some());
    assert_eq!(core.cache_len(), 10);
}

#[test]
fn teardown_hands_back_everything() {
    let mut core = ImporterCore::new();
    run_frame(&mut core, 0x1, 4, 4, 0x11);
    run_frame(&mut core, 0x2, 4, 4, 0x12);
    assert_eq!(core.queue_copy(paint(0x3, 4, 4), Some(0x13)), Ok(None));
    let torn = core.teardown();
    assert_eq!(torn.pending, Some(0x13));
    let mut dups: Vec<u64> = torn.images.iter().map(|e| e.duplicate).collect();
    dups.sort();
    assert_eq!(dups, vec![0x11, 0x12]);
    assert_eq!(core.cache_len(), 0);
    assert!(core.pending().is_none());
    assert!(matches!(core.plan_copy(true, true), PlanOutcome::Idle));
}

#[test]
fn rejected_paints_change_nothing() {
    let mut core = ImporterCore::new();
    assert_eq!(core.queue_copy(paint(0x7, 5, 5), Some(0x70)), Ok(None));
    assert_eq!(core.queue_copy(paint(0, 5, 5), Some(0x71)), Err(CopyError::InvalidSource));
    assert_eq!(
        core.queue_copy(paint(0x8, 0, 5), Some(0x72)),
        Err(CopyError::InvalidDimensions { width: 0, height: 5 })
    );
    assert_eq!(
        core.queue_copy(paint(0x8, 5, 0), Some(0x72)),
        Err(CopyError::InvalidDimensions { width: 5, height: 0 })
    );
    assert_eq!(core.queue_copy(paint(0x8, 5, 5), None), Err(CopyError::DuplicateFailed));
    assert_eq!(core.queue_copy(paint(0x8, 5, 5), Some(0)), Err(CopyError::DuplicateFailed));
    assert_eq!(core.pending().unwrap().duplicate, 0x70);
    assert_eq!(validate_paint(&paint(0, 1, 1)), Err(CopyError::InvalidSource));
    assert_eq!(validate_paint(&paint(3, 1, 1)), Ok(()));
}

#[test]
fn invalid_destination_drops_the_frame() {
    let mut core = ImporterCore::new();
    assert_eq!(core.queue_copy(paint(0x7, 5, 5), Some(0x70)), Ok(None));
    match core.plan_copy(false, true) {
        PlanOutcome::Failed { error, release } => {
            assert_eq!(error, CopyError::InvalidDestination);
            assert_eq!(release, Some(0x70));
        }
        other => panic!("unexpected {:?}", other),
    }
    assert!(core.pending().is_none());
    assert_eq!(core.frame_count(), 0);
}

#[test]
fn fence_wait_bounds_slot_reuse() {
    let mut core = ImporterCore::new();
    assert_eq!(core.fence_to_wait(true), None);
    run_frame(&mut core, 0x1, 4, 4, 0x11);
    run_frame(&mut core, 0x2, 4, 4, 0x12);
    // Both slots are in flight; slot 0 signals fence value 1.
    assert_eq!(core.current_slot(), 0);
    assert_eq!(core.queue_copy(paint(0x1, 4, 4), Some(0x13)), Ok(None));
    assert_eq!(core.fence_to_wait(true), Some(1));
    assert_eq!(core.fence_to_wait(false), None);
    match core.plan_copy(true, false) {
        PlanOutcome::Failed { error, release } => {
            assert_eq!(error, CopyError::FenceWaitFailed);
            assert_eq!(release, Some(0x13));
        }
        other => panic!("unexpected {:?}", other),
    }
    assert_eq!(core.queue_copy(paint(0x1, 4, 4), Some(0x14)), Ok(None));
    let plan = ready(core.plan_copy(true, true));
    assert_eq!(plan.slot, 0);
    assert_eq!(plan.signal_value, 3);
    core.finish_copy(None, CopyStatus::Submitted);
    assert_eq!(core.current_slot(), 1);
    assert_eq!(core.fence_to_wait(true), None);
    assert_eq!(core.queue_copy(paint(0x1, 4, 4), Some(0x15)), Ok(None));
    assert_eq!(core.fence_to_wait(true), Some(2));
}

#[test]
fn failed_import_returns_its_handle() {
    let mut core = ImporterCore::new();
    assert_eq!(core.queue_copy(paint(0x7, 5, 5), Some(0x70)), Ok(None));
    ready(core.plan_copy(true, true));
    assert!(core.copy_in_progress());
    let report = core.finish_copy(None, CopyStatus::ImportFailed);
    assert_eq!(report.result, Err(CopyError::ImportFailed));
    assert_eq!(report.release, Some(0x70));
    assert_eq!(core.cache_len(), 0);
    assert_eq!(core.frame_count(), 0);
    assert!(!core.copy_in_progress());
}

#[test]
fn failed_submission_keeps_the_import() {
    let mut core = ImporterCore::new();
    assert_eq!(core.queue_copy(paint(0x7, 5, 5), Some(0x70)), Ok(None));
    ready(core.plan_copy(true, true));
    let report = core.finish_copy(Some(image(1)), CopyStatus::SubmitFailed);
    assert_eq!(report.result, Err(CopyError::SubmitFailed));
    assert_eq!(report.release, None);
    assert_eq!(core.cached(0x7).unwrap().duplicate, 0x70);
    assert_eq!(core.frame_count(), 0);
    assert_eq!(core.current_slot(), 0);

    assert_eq!(core.queue_copy(paint(0x7, 5, 5), Some(0x71)), Ok(None));
    ready(core.plan_copy(true, true));
    let report = core.finish_copy(None, CopyStatus::DestinationUnavailable);
    assert_eq!(report.result, Err(CopyError::DestinationUnavailable));
}

#[test]
fn device_loss_is_reported_once() {
    let mut core = ImporterCore::new();
    assert_eq!(core.observe_device(false), DeviceCheck::Healthy);
    assert_eq!(core.observe_device(true), DeviceCheck::Lost { first_report: true });
    assert_eq!(core.observe_device(true), DeviceCheck::Lost { first_report: false });
    assert_eq!(core.observe_device(false), DeviceCheck::Healthy);
    assert_eq!(core.observe_device(true), DeviceCheck::Lost { first_report: true });
}
