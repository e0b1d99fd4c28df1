//! The importer's shared state machine: the latest-wins staging slot for
//! paint events, the double-buffered submission slots with their fence
//! values, and the cache of imported images.
//!
//! Every platform importer (Metal, Vulkan, Direct3D 12) drives this same
//! core. A frame goes through three calls: `queue_copy` from the paint
//! callback; `plan_copy` from the frame tick, which says what the GPU side
//! must do; and `finish_copy`, which records what it did.
use vstd::prelude::*;
use crate::cache::{
    CachedImage, ImageCache, cache_wf, used_by, entry_for, without_source, touched, evicted,
    has_source,
};
use crate::handle::NULL_HANDLE;

verus! {

/// What a paint event hands the importer: a shared texture handle and the
/// size of the frame it holds.
#[derive(Clone, Copy, Debug, PartialEq, Eq, Structural)]
pub struct PaintInfo {
    pub handle: u64,
    pub width: u32,
    pub height: u32,
}

/// The newest frame not yet consumed. `duplicate` is the importer's own
/// copy of the source handle, which it owns until the frame is consumed.
#[derive(Clone, Copy, Debug, PartialEq, Eq, Structural)]
pub struct PendingCopy {
    pub source: u64,
    pub duplicate: u64,
    pub width: u32,
    pub height: u32,
}

/// The GPU objects that an import created.
#[derive(Clone, Copy, Debug, PartialEq, Eq, Structural)]
pub struct GpuImage {
    pub image: u64,
    pub memory: u64,
}

/// Why a frame's texture update did not happen. None of these is fatal to
/// the importer: the frame is skipped.
#[derive(Clone, Copy, Debug, PartialEq, Eq, Structural)]
pub enum CopyError {
    InvalidSource,
    InvalidDimensions { width: u32, height: u32 },
    DuplicateFailed,
    InvalidDestination,
    FenceWaitFailed,
    CounterExhausted,
    ImportFailed,
    DestinationUnavailable,
    SubmitFailed,
    DeviceLost,
}

/// How the GPU side's part of a planned copy ended.
#[derive(Clone, Copy, Debug, PartialEq, Eq, Structural)]
pub enum CopyStatus {
    ImportFailed,
    DestinationUnavailable,
    SubmitFailed,
    Submitted,
}

/// What the GPU side must do for the frame being consumed.
///
/// - `stale`: a cache entry whose size no longer matches; it has left the
///   cache, and its GPU objects and handle must be released.
/// - `import`: on a cache miss, the owned duplicate to import; ownership
///   passes to the new cache entry, or back through `finish_copy`.
/// - `cached_image`: on a cache hit, the image to copy from.
/// - `release`: a handle that is no longer needed and must be closed.
/// - `slot` and `signal_value`: the command slot to record into and the
///   fence value the submission signals.
#[derive(Clone, Copy, Debug)]
pub struct CopyPlan {
    pub source: u64,
    pub width: u32,
    pub height: u32,
    pub slot: usize,
    pub signal_value: u64,
    pub stale: Option<CachedImage>,
    pub import: Option<u64>,
    pub cached_image: Option<u64>,
    pub release: Option<u64>,
}

#[derive(Clone, Copy, Debug)]
pub enum PlanOutcome {
    /// Nothing was pending: no GPU work at all.
    Idle,
    /// The pending frame was dropped; `release` must be closed.
    Failed { error: CopyError, release: Option<u64> },
    /// The GPU side must carry out the plan, then call `finish_copy`.
    Ready(CopyPlan),
}

/// What `finish_copy` hands back: the frame's result, a handle that must be
/// closed, and a cache entry that was evicted and must be destroyed.
#[derive(Clone, Copy, Debug)]
pub struct FinishReport {
    pub result: Result<(), CopyError>,
    pub release: Option<u64>,
    pub evicted: Option<CachedImage>,
}

/// Result of a device-health observation. `first_report` is set only on the
/// first observation of a lost device since it was last healthy, so that
/// the loss is logged once and not every frame.
#[derive(Clone, Copy, Debug, PartialEq, Eq, Structural)]
pub enum DeviceCheck {
    Healthy,
    Lost { first_report: bool },
}

/// Everything the importer owned at teardown, for the caller to release.
#[derive(Debug)]
pub struct Teardown {
    pub pending: Option<u64>,
    pub images: Vec<CachedImage>,
}

/// The abstract state of an importer.
pub struct CoreView {
    pub pending: Option<PendingCopy>,
    pub cache: Seq<CachedImage>,
    pub frame_count: u64,
    pub slot: usize,
    /// For each command slot, the fence value its last submission signals,
    /// or 0 when nothing is in flight there.
    pub in_flight: Seq<u64>,
    pub active: Option<CopyPlan>,
    pub device_lost_logged: bool,
}

pub open spec fn core_wf(s: CoreView) -> bool {
    &&& cache_wf(s.cache)
    &&& used_by(s.cache, s.frame_count)
    &&& s.slot < 2
    &&& s.in_flight.len() == 2
    &&& (s.pending matches Some(p) ==> p.source != NULL_HANDLE && p.duplicate != NULL_HANDLE
        && p.width != 0 && p.height != 0)
    &&& (s.active matches Some(p) ==> {
        &&& s.frame_count < u64::MAX
        &&& p.slot == s.slot
        &&& p.signal_value == s.frame_count + 1
        &&& (p.import is Some ==> !has_source(s.cache, p.source))
    })
}

/// The importer as created: nothing pending, nothing cached or in flight.
pub open spec fn initial_view() -> CoreView {
    CoreView {
        pending: None,
        cache: Seq::empty(),
        frame_count: 0,
        slot: 0,
        in_flight: seq![0u64, 0u64],
        active: None,
        device_lost_logged: false,
    }
}

/// Why a paint event is rejected before anything is duplicated.
pub open spec fn paint_check(info: PaintInfo) -> Option<CopyError> {
    if info.handle == NULL_HANDLE {
        Some(CopyError::InvalidSource)
    } else if info.width == 0 || info.height == 0 {
        Some(CopyError::InvalidDimensions { width: info.width, height: info.height })
    } else {
        None
    }
}

/// Why `queue_copy` rejects a paint event, given the duplication result.
pub open spec fn queue_error(info: PaintInfo, duplicate: Option<u64>) -> Option<CopyError> {
    match paint_check(info) {
        Some(e) => Some(e),
        None => match duplicate {
            Some(d) if d != NULL_HANDLE => None,
            _ => Some(CopyError::DuplicateFailed),
        },
    }
}

/// The handle a pending copy owns, if any.
pub open spec fn pending_handle(p: Option<PendingCopy>) -> Option<u64> {
    match p {
        Some(c) => Some(c.duplicate),
        None => None,
    }
}

/// State and result after `queue_copy(info, duplicate)`: a valid event
/// replaces whatever was pending, and the replaced copy's handle is handed
/// back for release.
pub open spec fn queue_spec(s: CoreView, info: PaintInfo, duplicate: Option<u64>) -> (
    CoreView,
    Result<Option<u64>, CopyError>,
) {
    match queue_error(info, duplicate) {
        Some(e) => (s, Err(e)),
        None => (
            CoreView {
                pending: Some(
                    PendingCopy {
                        source: info.handle,
                        duplicate: duplicate.unwrap(),
                        width: info.width,
                        height: info.height,
                    },
                ),
                ..s
            },
            Ok(pending_handle(s.pending)),
        ),
    }
}

/// The fence value the frame tick must wait for before planning, if any:
/// only when a frame is pending, the destination is valid, and the current
/// slot still has work in flight.
pub open spec fn wait_spec(s: CoreView, dst_valid: bool) -> Option<u64> {
    if s.pending is Some && dst_valid && s.in_flight[s.slot as int] != 0 {
        Some(s.in_flight[s.slot as int])
    } else {
        None
    }
}

/// State and outcome after `plan_copy(dst_valid, fence_ok)`.
pub open spec fn plan_spec(s: CoreView, dst_valid: bool, fence_ok: bool) -> (CoreView, PlanOutcome) {
    match s.pending {
        None => (s, PlanOutcome::Idle),
        Some(p) => {
            let taken = CoreView { pending: None, ..s };
            let dropped = Some(p.duplicate);
            if !dst_valid {
                (taken, PlanOutcome::Failed { error: CopyError::InvalidDestination, release: dropped })
            } else if s.frame_count == u64::MAX {
                (taken, PlanOutcome::Failed { error: CopyError::CounterExhausted, release: dropped })
            } else if s.in_flight[s.slot as int] != 0 && !fence_ok {
                (taken, PlanOutcome::Failed { error: CopyError::FenceWaitFailed, release: dropped })
            } else {
                let cleared = CoreView { in_flight: s.in_flight.update(s.slot as int, 0), ..taken };
                let base = CopyPlan {
                    source: p.source,
                    width: p.width,
                    height: p.height,
                    slot: s.slot,
                    signal_value: (s.frame_count + 1) as u64,
                    stale: None,
                    import: None,
                    cached_image: None,
                    release: None,
                };
                match entry_for(s.cache, p.source) {
                    Some(e) => if e.width == p.width && e.height == p.height {
                        let plan = CopyPlan {
                            cached_image: Some(e.image),
                            release: dropped,
                            ..base
                        };
                        (
                            CoreView {
                                cache: touched(s.cache, p.source, s.frame_count),
                                active: Some(plan),
                                ..cleared
                            },
                            PlanOutcome::Ready(plan),
                        )
                    } else {
                        let plan = CopyPlan { stale: Some(e), import: dropped, ..base };
                        (
                            CoreView {
                                cache: without_source(s.cache, p.source),
                                active: Some(plan),
                                ..cleared
                            },
                            PlanOutcome::Ready(plan),
                        )
                    },
                    None => {
                        let plan = CopyPlan { import: dropped, ..base };
                        (CoreView { active: Some(plan), ..cleared }, PlanOutcome::Ready(plan))
                    },
                }
            }
        },
    }
}

/// The error a failed GPU step reports.
pub open spec fn status_error(status: CopyStatus) -> CopyError {
    match status {
        CopyStatus::ImportFailed => CopyError::ImportFailed,
        CopyStatus::DestinationUnavailable => CopyError::DestinationUnavailable,
        _ => CopyError::SubmitFailed,
    }
}

/// After the GPU side has run plan `p` to `status`: a submission marks the
/// slot in flight with its fence value, moves to the other slot, advances
/// the frame counter and evicts past the capacity bound.
pub open spec fn submit_spec(s: CoreView, p: CopyPlan, status: CopyStatus) -> (CoreView, FinishReport) {
    if status == CopyStatus::Submitted {
        let cache = evicted(s.cache);
        (
            CoreView {
                in_flight: s.in_flight.update(p.slot as int, p.signal_value),
                slot: (1 - p.slot) as usize,
                frame_count: (s.frame_count + 1) as u64,
                cache: cache.0,
                ..s
            },
            FinishReport { result: Ok(()), release: None, evicted: cache.1 },
        )
    } else {
        (s, FinishReport { result: Err(status_error(status)), release: None, evicted: None })
    }
}

/// State and report after `finish_copy(imported, status)`. A fresh import
/// joins the cache as its most recently used entry even when the copy
/// itself then fails; a failed import hands its handle back.
pub open spec fn finish_spec(s: CoreView, imported: Option<GpuImage>, status: CopyStatus) -> (
    CoreView,
    FinishReport,
) {
    let p = s.active.unwrap();
    let base = CoreView { active: None, ..s };
    match p.import {
        Some(dup) => match imported {
            None => (
                base,
                FinishReport { result: Err(CopyError::ImportFailed), release: Some(dup), evicted: None },
            ),
            Some(g) => {
                let entry = CachedImage {
                    source: p.source,
                    duplicate: dup,
                    image: g.image,
                    memory: g.memory,
                    width: p.width,
                    height: p.height,
                    last_used: s.frame_count,
                };
                submit_spec(CoreView { cache: base.cache.push(entry), ..base }, p, status)
            },
        },
        None => submit_spec(base, p, status),
    }
}

/// The OS handles that cache entries own.
pub open spec fn duplicates_in(c: Seq<CachedImage>) -> Set<u64> {
    Set::new(|h: u64| exists|i: int| 0 <= i < c.len() && c[i].duplicate == h)
}

/// Every OS handle the importer owns in state `s`.
pub open spec fn owned_handles(s: CoreView) -> Set<u64> {
    let pending = match s.pending {
        Some(p) => set![p.duplicate],
        None => Set::empty(),
    };
    let active = match s.active {
        Some(p) => match p.import {
            Some(d) => set![d],
            None => Set::empty(),
        },
        None => Set::empty(),
    };
    pending + active + duplicates_in(s.cache)
}

/// Every handle a teardown hands back.
pub open spec fn teardown_handles(pending: Option<u64>, images: Seq<CachedImage>) -> Set<u64> {
    let p = match pending {
        Some(h) => set![h],
        None => Set::empty(),
    };
    p + duplicates_in(images)
}

/// The platform-neutral state of one texture importer.
#[derive(Debug)]
pub struct ImporterCore {
    pending: Option<PendingCopy>,
    cache: ImageCache,
    frame_count: u64,
    slot: usize,
    fence0: u64,
    fence1: u64,
    active: Option<CopyPlan>,
    device_lost_logged: bool,
}

impl View for ImporterCore {
    type V = CoreView;

    closed spec fn view(&self) -> CoreView {
        CoreView {
            pending: self.pending,
            cache: self.cache@,
            frame_count: self.frame_count,
            slot: self.slot,
            in_flight: seq![self.fence0, self.fence1],
            active: self.active,
            device_lost_logged: self.device_lost_logged,
        }
    }
}

/// Checks a paint event before its handle is duplicated: the handle must
/// not be null and the frame must have a non-zero size.
pub fn validate_paint(info: &PaintInfo) -> (r: Result<(), CopyError>)
    ensures
        r matches Err(e) ==> paint_check(*info) == Some(e),
        r is Ok ==> paint_check(*info) is None,
{
    if info.handle == NULL_HANDLE {
        Err(CopyError::InvalidSource)
    } else if info.width == 0 || info.height == 0 {
        Err(CopyError::InvalidDimensions { width: info.width, height: info.height })
    } else {
        Ok(())
    }
}

impl ImporterCore {
    pub fn new() -> (c: ImporterCore)
        ensures
            c@ == initial_view(),
            core_wf(c@),
    {
        ImporterCore {
            pending: None,
            cache: ImageCache::new(),
            frame_count: 0,
            slot: 0,
            fence0: 0,
            fence1: 0,
            active: None,
            device_lost_logged: false,
        }
    }

    fn slot_fence(&self, slot: usize) -> (v: u64)
        requires
            slot < 2,
        ensures
            v == self@.in_flight[slot as int],
    {
        if slot == 0 {
            self.fence0
        } else {
            self.fence1
        }
    }

    fn set_slot_fence(&mut self, slot: usize, v: u64)
        requires
            slot < 2,
        ensures
            final(self)@ == (CoreView { in_flight: old(self)@.in_flight.update(slot as int, v), ..old(self)@ }),
    {
        if slot == 0 {
            self.fence0 = v;
        } else {
            self.fence1 = v;
        }
        assert(self@.in_flight =~= old(self)@.in_flight.update(slot as int, v));
    }

    /// Stages the frame of a paint event, where `duplicate` is the result of
    /// duplicating its handle (`None` when that failed). The newest frame
    /// wins: any frame still pending is dropped and its handle returned in
    /// `Ok` for release. A rejected event changes nothing. Never blocks.
    pub fn queue_copy(&mut self, info: PaintInfo, duplicate: Option<u64>) -> (r: Result<
        Option<u64>,
        CopyError,
    >)
        requires
            core_wf(old(self)@),
        ensures
            (final(self)@, r) == queue_spec(old(self)@, info, duplicate),
            core_wf(final(self)@),
    {
        if let Err(e) = validate_paint(&info) {
            return Err(e);
        }
        let d = match duplicate {
            Some(d) => d,
            None => return Err(CopyError::DuplicateFailed),
        };
        if d == NULL_HANDLE {
            return Err(CopyError::DuplicateFailed);
        }
        let released = match self.pending {
            Some(p) => Some(p.duplicate),
            None => None,
        };
        self.pending = Some(
            PendingCopy { source: info.handle, duplicate: d, width: info.width, height: info.height },
        );
        Ok(released)
    }

    /// The fence value the frame tick must wait for before `plan_copy`, if
    /// any. This bounds the wait to work submitted at most one frame ago.
    pub fn fence_to_wait(&self, dst_valid: bool) -> (r: Option<u64>)
        requires
            core_wf(self@),
        ensures
            r == wait_spec(self@, dst_valid),
    {
        let v = self.slot_fence(self.slot);
        if self.pending.is_some() && dst_valid && v != 0 {
            Some(v)
        } else {
            None
        }
    }

    /// Consumes the pending frame, if any, and decides the GPU work for it.
    /// `dst_valid` says whether the destination texture is valid, and
    /// `fence_ok` whether the wait that `fence_to_wait` asked for
    /// succeeded. With nothing pending this is a no-op that changes nothing
    /// and asks for no GPU work.
    pub fn plan_copy(&mut self, dst_valid: bool, fence_ok: bool) -> (r: PlanOutcome)
        requires
            core_wf(old(self)@),
            old(self)@.active is None,
        ensures
            (final(self)@, r) == plan_spec(old(self)@, dst_valid, fence_ok),
            core_wf(final(self)@),
            old(self)@.pending is None ==> r is Idle && final(self)@ == old(self)@,
    {
        let p = match self.pending {
            Some(p) => p,
            None => return PlanOutcome::Idle,
        };
        self.pending = None;
        let dropped = Some(p.duplicate);
        if !dst_valid {
            return PlanOutcome::Failed { error: CopyError::InvalidDestination, release: dropped };
        }
        if self.frame_count == u64::MAX {
            return PlanOutcome::Failed { error: CopyError::CounterExhausted, release: dropped };
        }
        if self.slot_fence(self.slot) != 0 {
            if !fence_ok {
                return PlanOutcome::Failed { error: CopyError::FenceWaitFailed, release: dropped };
            }
            self.set_slot_fence(self.slot, 0);
        }
        let ghost before = self@;
        assert(before.in_flight =~= old(self)@.in_flight.update(old(self)@.slot as int, 0));
        let base = CopyPlan {
            source: p.source,
            width: p.width,
            height: p.height,
            slot: self.slot,
            signal_value: self.frame_count + 1,
            stale: None,
            import: None,
            cached_image: None,
            release: None,
        };
        let frame = self.frame_count;
        match self.cache.get(p.source) {
            Some(e) => {
                if e.width == p.width && e.height == p.height {
                    self.cache.touch(p.source, frame);
                    let plan = CopyPlan { cached_image: Some(e.image), release: dropped, ..base };
                    self.active = Some(plan);
                    PlanOutcome::Ready(plan)
                } else {
                    self.cache.remove(p.source, Ghost(frame));
                    let plan = CopyPlan { stale: Some(e), import: dropped, ..base };
                    self.active = Some(plan);
                    PlanOutcome::Ready(plan)
                }
            },
            None => {
                proof {
                    if has_source(before.cache, p.source) {
                        let i = choose|i: int|
                            0 <= i < before.cache.len() && before.cache[i].source == p.source;
                        crate::cache::lemma_present(before.cache, i, p.source);
                    }
                }
                let plan = CopyPlan { import: dropped, ..base };
                self.active = Some(plan);
                PlanOutcome::Ready(plan)
            },
        }
    }

    /// Records how the GPU side carried out the active plan. `imported` is
    /// read only when the plan asked for an import: it holds the objects
    /// the import created, or `None` when the import failed.
    pub fn finish_copy(&mut self, imported: Option<GpuImage>, status: CopyStatus) -> (r: FinishReport)
        requires
            core_wf(old(self)@),
            old(self)@.active is Some,
        ensures
            (final(self)@, r) == finish_spec(old(self)@, imported, status),
            core_wf(final(self)@),
    {
        let p = match self.active {
            Some(p) => p,
            None => {
                assert(false);
                return FinishReport { result: Err(CopyError::SubmitFailed), release: None, evicted: None };
            },
        };
        self.active = None;
        let frame = self.frame_count;
        if let Some(dup) = p.import {
            match imported {
                None => {
                    return FinishReport {
                        result: Err(CopyError::ImportFailed),
                        release: Some(dup),
                        evicted: None,
                    };
                },
                Some(g) => {
                    let entry = CachedImage {
                        source: p.source,
                        duplicate: dup,
                        image: g.image,
                        memory: g.memory,
                        width: p.width,
                        height: p.height,
                        last_used: frame,
                    };
                    self.cache.insert(entry, Ghost(frame));
                },
            }
        }
        match status {
            CopyStatus::Submitted => {
                self.set_slot_fence(p.slot, p.signal_value);
                self.slot = 1 - p.slot;
                self.frame_count = frame + 1;
                let ev = self.cache.evict(Ghost(self.frame_count));
                FinishReport { result: Ok(()), release: None, evicted: ev }
            },
            CopyStatus::ImportFailed => FinishReport {
                result: Err(CopyError::ImportFailed),
                release: None,
                evicted: None,
            },
            CopyStatus::DestinationUnavailable => FinishReport {
                result: Err(CopyError::DestinationUnavailable),
                release: None,
                evicted: None,
            },
            CopyStatus::SubmitFailed => FinishReport {
                result: Err(CopyError::SubmitFailed),
                release: None,
                evicted: None,
            },
        }
    }

    /// Observes the device's health before a copy. A lost device is
    /// reported for logging once, on the first observation since it was
    /// last healthy; a healthy observation resets that.
    pub fn observe_device(&mut self, removed: bool) -> (r: DeviceCheck)
        ensures
            !removed ==> r == DeviceCheck::Healthy,
            removed ==> r == (DeviceCheck::Lost { first_report: !old(self)@.device_lost_logged }),
            final(self)@ == (CoreView { device_lost_logged: removed, ..old(self)@ }),
    {
        if !removed {
            self.device_lost_logged = false;
            DeviceCheck::Healthy
        } else {
            let first = !self.device_lost_logged;
            self.device_lost_logged = true;
            DeviceCheck::Lost { first_report: first }
        }
    }

    /// Releases everything the importer owns, once the caller has drained
    /// all GPU work in flight: the pending frame's handle and every cached
    /// image. Afterwards the importer owns no handle and no GPU object.
    pub fn teardown(&mut self) -> (r: Teardown)
        requires
            core_wf(old(self)@),
            old(self)@.active is None,
        ensures
            r.pending == pending_handle(old(self)@.pending),
            r.images@ == old(self)@.cache,
            teardown_handles(r.pending, r.images@) == owned_handles(old(self)@),
            final(self)@ == (CoreView {
                pending: None,
                cache: Seq::empty(),
                in_flight: seq![0u64, 0u64],
                ..old(self)@
            }),
            owned_handles(final(self)@) == Set::<u64>::empty(),
            core_wf(final(self)@),
    {
        let pending = match self.pending {
            Some(p) => Some(p.duplicate),
            None => None,
        };
        self.pending = None;
        self.fence0 = 0;
        self.fence1 = 0;
        let images = self.cache.drain();
        assert(owned_handles(self@) =~= Set::<u64>::empty());
        assert(teardown_handles(pending, images@) =~= owned_handles(old(self)@));
        Teardown { pending, images }
    }

    /// The frame waiting to be consumed.
    pub fn pending(&self) -> (r: Option<PendingCopy>)
        ensures
            r == self@.pending,
    {
        self.pending
    }

    /// The cache entry for a source handle.
    pub fn cached(&self, source: u64) -> (r: Option<CachedImage>)
        requires
            core_wf(self@),
        ensures
            r == entry_for(self@.cache, source),
    {
        self.cache.get(source)
    }

    pub fn cache_len(&self) -> (n: usize)
        ensures
            n == self@.cache.len(),
    {
        self.cache.len()
    }

    pub fn frame_count(&self) -> (n: u64)
        ensures
            n == self@.frame_count,
    {
        self.frame_count
    }

    pub fn current_slot(&self) -> (n: usize)
        ensures
            n == self@.slot,
    {
        self.slot
    }

    /// Whether a plan is waiting for `finish_copy`.
    pub fn copy_in_progress(&self) -> (r: bool)
        ensures
            r == self@.active is Some,
    {
        self.active.is_some()
    }
}

} // verus!
