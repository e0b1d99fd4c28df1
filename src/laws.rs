//! Properties of the importer that span several calls, proved over the
//! specifications that the importer's operations meet.
use vstd::prelude::*;
use crate::cache::{
    CachedImage, CACHE_CAPACITY, used_by, entry_for, evicted, has_source, lemma_absent,
    lemma_entry_for_source, lemma_present, lemma_remove_wf, lemma_push_wf, lemma_evict_wf,
};
use crate::handle::NULL_HANDLE;
use crate::importer::{
    CoreView, PaintInfo, PendingCopy, GpuImage, CopyStatus, PlanOutcome, core_wf, initial_view,
    paint_check, pending_handle, queue_spec, plan_spec, finish_spec, owned_handles, duplicates_in,
    FinishReport,
};

verus! {

/// A paint event together with the duplicate made of its handle.
pub open spec fn valid_request(r: (PaintInfo, u64)) -> bool {
    paint_check(r.0) is None && r.1 != NULL_HANDLE
}

/// The state after queueing each request of `reqs` in turn.
pub open spec fn queue_all(s: CoreView, reqs: Seq<(PaintInfo, u64)>) -> CoreView
    decreases reqs.len(),
{
    if reqs.len() == 0 {
        s
    } else {
        queue_all(queue_spec(s, reqs[0].0, Some(reqs[0].1)).0, reqs.subrange(1, reqs.len() as int))
    }
}

/// The handles that queueing each request of `reqs` in turn hands back for
/// release, in order.
pub open spec fn released_all(s: CoreView, reqs: Seq<(PaintInfo, u64)>) -> Seq<u64>
    decreases reqs.len(),
{
    if reqs.len() == 0 {
        Seq::empty()
    } else {
        let step = queue_spec(s, reqs[0].0, Some(reqs[0].1));
        let here = match step.1 {
            Ok(Some(h)) => seq![h],
            _ => Seq::empty(),
        };
        here + released_all(step.0, reqs.subrange(1, reqs.len() as int))
    }
}

pub open spec fn option_seq(o: Option<u64>) -> Seq<u64> {
    match o {
        Some(h) => seq![h],
        None => Seq::empty(),
    }
}

pub open spec fn duplicates_of(reqs: Seq<(PaintInfo, u64)>) -> Seq<u64> {
    reqs.map_values(|r: (PaintInfo, u64)| r.1)
}

/// The pending copy a valid request stages.
pub open spec fn staged(r: (PaintInfo, u64)) -> PendingCopy {
    PendingCopy { source: r.0.handle, duplicate: r.1, width: r.0.width, height: r.0.height }
}

/// Latest wins: after any run of paint events with no frame consumed in
/// between, only the newest is pending, and every earlier duplicate
/// (including one pending before the run) has been handed back for
/// release, in order, each once; nothing else changes. The next frame tick
/// then plans the newest frame and nothing else.
pub proof fn lemma_latest_wins(s: CoreView, reqs: Seq<(PaintInfo, u64)>)
    requires
        reqs.len() > 0,
        forall|i: int| 0 <= i < reqs.len() ==> valid_request(#[trigger] reqs[i]),
    ensures
        queue_all(s, reqs) == (CoreView { pending: Some(staged(reqs.last())), ..s }),
        released_all(s, reqs) == option_seq(pending_handle(s.pending)) + duplicates_of(
            reqs.subrange(0, reqs.len() - 1),
        ),
        s.frame_count < u64::MAX ==> (plan_spec(queue_all(s, reqs), true, true).1 matches
            PlanOutcome::Ready(p) && p.source == reqs.last().0.handle && p.width
            == reqs.last().0.width && p.height == reqs.last().0.height && (p.import == Some(
            reqs.last().1) || p.release == Some(reqs.last().1))),
    decreases reqs.len(),
{
    let r0 = reqs[0];
    assert(valid_request(r0));
    let s1 = queue_spec(s, r0.0, Some(r0.1)).0;
    let rest = reqs.subrange(1, reqs.len() as int);
    assert(s1 == CoreView { pending: Some(staged(r0)), ..s });
    if rest.len() == 0 {
        assert(reqs.last() == r0);
        assert(reqs.subrange(0, 0) =~= Seq::<(PaintInfo, u64)>::empty());
        assert(duplicates_of(reqs.subrange(0, 0)) =~= Seq::<u64>::empty());
        assert(released_all(s1, rest) =~= Seq::<u64>::empty());
        assert(option_seq(pending_handle(s.pending)) + Seq::<u64>::empty() =~= option_seq(
            pending_handle(s.pending),
        ));
    } else {
        assert forall|i: int| 0 <= i < rest.len() implies valid_request(#[trigger] rest[i]) by {
            assert(rest[i] == reqs[i + 1]);
        }
        lemma_latest_wins(s1, rest);
        assert(rest.last() == reqs.last());
        assert(CoreView { pending: Some(staged(reqs.last())), ..s1 } == CoreView {
            pending: Some(staged(reqs.last())),
            ..s
        });
        let tail = rest.subrange(0, rest.len() - 1);
        assert(reqs.subrange(0, reqs.len() - 1) =~= seq![r0] + tail);
        assert(duplicates_of(seq![r0] + tail) =~= seq![r0.1] + duplicates_of(tail));
        assert(option_seq(pending_handle(s1.pending)) == seq![r0.1]);
        assert(option_seq(pending_handle(s.pending)) + (seq![r0.1] + duplicates_of(tail))
            =~= option_seq(pending_handle(s.pending)) + seq![r0.1] + duplicates_of(tail));
    }
}

/// Queueing keeps an importer well formed.
pub proof fn lemma_queue_wf(s: CoreView, info: PaintInfo, duplicate: Option<u64>)
    requires
        core_wf(s),
    ensures
        core_wf(queue_spec(s, info, duplicate).0),
{
}

/// Planning keeps an importer well formed.
pub proof fn lemma_plan_wf(s: CoreView, dst_valid: bool, fence_ok: bool)
    requires
        core_wf(s),
        s.active is None,
    ensures
        core_wf(plan_spec(s, dst_valid, fence_ok).0),
{
    if let Some(p) = s.pending {
        if dst_valid && s.frame_count < u64::MAX && !(s.in_flight[s.slot as int] != 0 && !fence_ok) {
            let c = s.cache;
            let key = p.source;
            if has_source(c, key) {
                let i = choose|i: int| 0 <= i < c.len() && c[i].source == key;
                lemma_present(c, i, key);
                lemma_remove_wf(c, i, s.frame_count);
                let e = c[i];
                if e.width == p.width && e.height == p.height {
                    let u = CachedImage { last_used: s.frame_count, ..e };
                    lemma_push_wf(c.remove(i), u, s.frame_count);
                }
            } else {
                lemma_absent(c, key);
            }
        }
    }
}

/// Finishing keeps an importer well formed.
pub proof fn lemma_finish_wf(s: CoreView, imported: Option<GpuImage>, status: CopyStatus)
    requires
        core_wf(s),
        s.active is Some,
    ensures
        core_wf(finish_spec(s, imported, status).0),
        finish_spec(s, imported, status).0.active is None,
{
    let p = s.active.unwrap();
    let mut c = s.cache;
    if let Some(dup) = p.import {
        if let Some(g) = imported {
            let entry = CachedImage {
                source: p.source,
                duplicate: dup,
                image: g.image,
                memory: g.memory,
                width: p.width,
                height: p.height,
                last_used: s.frame_count,
            };
            lemma_push_wf(c, entry, s.frame_count);
            c = c.push(entry);
        }
    }
    if status == CopyStatus::Submitted {
        assert(used_by(c, (s.frame_count + 1) as u64));
        lemma_evict_wf(c, (s.frame_count + 1) as u64);
    }
}

/// One frame that goes through: its paint event is queued, the next tick
/// plans it with a valid destination and no failed wait, and the GPU side
/// imports where asked and submits.
pub open spec fn frame_spec(s: CoreView, f: (PaintInfo, u64, GpuImage)) -> CoreView {
    let s1 = queue_spec(s, f.0, Some(f.1)).0;
    let s2 = plan_spec(s1, true, true).0;
    finish_spec(s2, Some(f.2), CopyStatus::Submitted).0
}

/// Whether `s` holds an entry for `key` of the given size.
pub open spec fn cached_with_size(s: CoreView, key: u64, width: u32, height: u32) -> bool {
    entry_for(s.cache, key) matches Some(e) && e.width == width && e.height == height
}

/// A frame that goes through leaves its source cached at its size, the
/// importer well formed and idle, and the frame counter one further.
pub proof fn lemma_frame(s: CoreView, f: (PaintInfo, u64, GpuImage))
    requires
        core_wf(s),
        s.active is None,
        s.frame_count < u64::MAX,
        valid_request((f.0, f.1)),
    ensures
        core_wf(frame_spec(s, f)),
        frame_spec(s, f).active is None,
        frame_spec(s, f).pending is None,
        frame_spec(s, f).frame_count == s.frame_count + 1,
        cached_with_size(frame_spec(s, f), f.0.handle, f.0.width, f.0.height),
{
    let s1 = queue_spec(s, f.0, Some(f.1)).0;
    lemma_queue_wf(s, f.0, Some(f.1));
    lemma_plan_wf(s1, true, true);
    let s2 = plan_spec(s1, true, true).0;
    lemma_finish_wf(s2, Some(f.2), CopyStatus::Submitted);
    let s3 = frame_spec(s, f);
    let key = f.0.handle;
    // Before eviction the frame's entry is the last one in the cache.
    let c1 = s1.cache;
    let last = if has_source(c1, key) {
        let i = choose|i: int| 0 <= i < c1.len() && c1[i].source == key;
        lemma_present(c1, i, key);
        lemma_remove_wf(c1, i, s1.frame_count);
        let e = c1[i];
        if e.width == f.0.width && e.height == f.0.height {
            assert(s2.cache == c1.remove(i).push(CachedImage { last_used: s1.frame_count, ..e }));
            s2.cache
        } else {
            s2.cache.push(
                CachedImage {
                    source: key,
                    duplicate: f.1,
                    image: f.2.image,
                    memory: f.2.memory,
                    width: f.0.width,
                    height: f.0.height,
                    last_used: s1.frame_count,
                },
            )
        }
    } else {
        lemma_absent(c1, key);
        s2.cache.push(
            CachedImage {
                source: key,
                duplicate: f.1,
                image: f.2.image,
                memory: f.2.memory,
                width: f.0.width,
                height: f.0.height,
                last_used: s1.frame_count,
            },
        )
    };
    assert(s3.cache == evicted(last).0);
    let n = last.len();
    assert(last[n - 1].source == key && last[n - 1].width == f.0.width && last[n - 1].height
        == f.0.height);
    if n > CACHE_CAPACITY {
        let r = last.subrange(1, n as int);
        assert(r[n - 2] == last[n - 1]);
        lemma_present(r, n - 2, key);
    } else {
        lemma_present(last, n - 1, key);
    }
}

/// Cache hits and invalidation: when a frame from a source has gone
/// through, the next request from the same source with the same size is a
/// cache hit (no fresh import, the cached image is copied, the new
/// duplicate is released); with another size, the cached entry is
/// invalidated and handed back, and the new duplicate is imported afresh.
pub proof fn lemma_repeat_request(
    s: CoreView,
    first: (PaintInfo, u64, GpuImage),
    second: (PaintInfo, u64),
)
    requires
        core_wf(s),
        s.active is None,
        s.frame_count < u64::MAX - 1,
        valid_request((first.0, first.1)),
        valid_request(second),
        second.0.handle == first.0.handle,
    ensures
        plan_spec(queue_spec(frame_spec(s, first), second.0, Some(second.1)).0, true, true).1 matches
            PlanOutcome::Ready(p) && {
            if second.0.width == first.0.width && second.0.height == first.0.height {
                &&& p.import is None
                &&& p.stale is None
                &&& p.cached_image is Some
                &&& p.release == Some(second.1)
            } else {
                &&& p.import == Some(second.1)
                &&& p.cached_image is None
                &&& p.stale matches Some(e) && e.source == first.0.handle && e.width
                    == first.0.width && e.height == first.0.height
            }
        },
{
    lemma_frame(s, first);
    let s3 = frame_spec(s, first);
    let s4 = queue_spec(s3, second.0, Some(second.1)).0;
    assert(s4 == CoreView { pending: Some(staged(second)), ..s3 });
    assert(s4.frame_count < u64::MAX);
    let e = entry_for(s3.cache, first.0.handle).unwrap();
    assert(entry_for(s4.cache, second.0.handle) == Some(e));
    lemma_entry_for_source(s3.cache, first.0.handle);
}

/// The state after each frame of `frames` goes through in turn.
pub open spec fn run_frames(s: CoreView, frames: Seq<(PaintInfo, u64, GpuImage)>) -> CoreView
    decreases frames.len(),
{
    if frames.len() == 0 {
        s
    } else {
        frame_spec(run_frames(s, frames.drop_last()), frames.last())
    }
}

pub open spec fn distinct_sources(frames: Seq<(PaintInfo, u64, GpuImage)>) -> bool {
    forall|i: int, j: int|
        0 <= i < frames.len() && 0 <= j < frames.len() && i != j ==> frames[i].0.handle
            != frames[j].0.handle
}

/// After frames with pairwise distinct sources go through a new importer,
/// the cache holds the sources of the last (at most) `CACHE_CAPACITY`
/// frames, oldest first.
proof fn lemma_distinct_run(frames: Seq<(PaintInfo, u64, GpuImage)>)
    requires
        frames.len() < u64::MAX,
        distinct_sources(frames),
        forall|i: int| 0 <= i < frames.len() ==> valid_request(
            ((#[trigger] frames[i]).0, frames[i].1),
        ),
    ensures
        ({
            let t = run_frames(initial_view(), frames);
            let n = frames.len() as int;
            let m = if n <= CACHE_CAPACITY { n } else { CACHE_CAPACITY as int };
            &&& core_wf(t)
            &&& t.active is None
            &&& t.frame_count == n
            &&& t.cache.len() == m
            &&& forall|j: int| 0 <= j < m ==> (#[trigger] t.cache[j]).source == frames[n - m
                + j].0.handle
        }),
    decreases frames.len(),
{
    if frames.len() > 0 {
        let prev = frames.drop_last();
        assert forall|i: int| 0 <= i < prev.len() implies valid_request(
            ((#[trigger] prev[i]).0, prev[i].1),
        ) by {
            assert(prev[i] == frames[i]);
        }
        lemma_distinct_run(prev);
        let t = run_frames(initial_view(), prev);
        let f = frames.last();
        let n = prev.len() as int;
        let m = if n <= CACHE_CAPACITY { n } else { CACHE_CAPACITY as int };
        let key = f.0.handle;
        assert(!has_source(t.cache, key)) by {
            if has_source(t.cache, key) {
                let j = choose|j: int| 0 <= j < t.cache.len() && t.cache[j].source == key;
                assert(frames[n - m + j].0.handle == frames[n].0.handle);
            }
        }
        lemma_absent(t.cache, key);
        assert(valid_request((frames[n].0, frames[n].1)));
        lemma_frame(t, f);
        let s1 = queue_spec(t, f.0, Some(f.1)).0;
        let s2 = plan_spec(s1, true, true).0;
        let entry = CachedImage {
            source: key,
            duplicate: f.1,
            image: f.2.image,
            memory: f.2.memory,
            width: f.0.width,
            height: f.0.height,
            last_used: t.frame_count,
        };
        let pushed = t.cache.push(entry);
        assert(finish_spec(s2, Some(f.2), CopyStatus::Submitted).0.cache == evicted(pushed).0);
        let u = run_frames(initial_view(), frames);
        assert(u == frame_spec(t, f));
        let n1 = n + 1;
        let m1 = if n1 <= CACHE_CAPACITY { n1 } else { CACHE_CAPACITY as int };
        assert forall|j: int| 0 <= j < m1 implies (#[trigger] u.cache[j]).source == frames[n1
            - m1 + j].0.handle by {
            if n1 <= CACHE_CAPACITY {
                assert(u.cache == pushed);
                if j < m {
                    assert(prev[n - m + j] == frames[n - m + j]);
                }
            } else {
                assert(u.cache == pushed.subrange(1, pushed.len() as int));
                assert(u.cache[j] == pushed[j + 1]);
                if j + 1 < m {
                    assert(prev[n - m + j + 1] == frames[n - m + j + 1]);
                }
            }
        }
    }
}

/// Least-recently-used eviction: when eleven frames from pairwise distinct
/// sources go through a new importer, each used once, the cache ends with
/// exactly ten entries; the first source, the least recently used, is the
/// one evicted, and the other ten stay.
pub proof fn lemma_lru_eviction(frames: Seq<(PaintInfo, u64, GpuImage)>)
    requires
        frames.len() == 11,
        distinct_sources(frames),
        forall|i: int| 0 <= i < frames.len() ==> valid_request(
            ((#[trigger] frames[i]).0, frames[i].1),
        ),
    ensures
        run_frames(initial_view(), frames).cache.len() == 10,
        !has_source(run_frames(initial_view(), frames).cache, frames[0].0.handle),
        forall|i: int|
            1 <= i < 11 ==> has_source(
                run_frames(initial_view(), frames).cache,
                (#[trigger] frames[i]).0.handle,
            ),
{
    lemma_distinct_run(frames);
    let t = run_frames(initial_view(), frames);
    assert(!has_source(t.cache, frames[0].0.handle)) by {
        if has_source(t.cache, frames[0].0.handle) {
            let j = choose|j: int| 0 <= j < t.cache.len() && t.cache[j].source == frames[0].0.handle;
            assert(frames[1 + j].0.handle == frames[0].0.handle);
        }
    }
    assert forall|i: int| 1 <= i < 11 implies has_source(t.cache, (#[trigger] frames[i]).0.handle) by {
        assert(t.cache[i - 1].source == frames[i].0.handle);
    }
}

pub open spec fn option_set(o: Option<u64>) -> Set<u64> {
    match o {
        Some(h) => set![h],
        None => Set::empty(),
    }
}

proof fn lemma_duplicates_push(c: Seq<CachedImage>, e: CachedImage)
    ensures
        duplicates_in(c.push(e)) == duplicates_in(c).insert(e.duplicate),
{
    let r = c.push(e);
    assert forall|h: u64| duplicates_in(r).contains(h) <==> duplicates_in(c).insert(
        e.duplicate,
    ).contains(h) by {
        if duplicates_in(c).contains(h) && h != e.duplicate {
            let i = choose|i: int| 0 <= i < c.len() && c[i].duplicate == h;
            assert(r[i] == c[i]);
        }
        if h == e.duplicate {
            assert(r[c.len() as int] == e);
        }
        if duplicates_in(r).contains(h) {
            let i = choose|i: int| 0 <= i < r.len() && r[i].duplicate == h;
            if i < c.len() {
                assert(r[i] == c[i]);
            }
        }
    }
    assert(duplicates_in(r) =~= duplicates_in(c).insert(e.duplicate));
}

proof fn lemma_duplicates_remove(c: Seq<CachedImage>, i: int)
    requires
        0 <= i < c.len(),
    ensures
        duplicates_in(c.remove(i)).insert(c[i].duplicate) == duplicates_in(c),
{
    let r = c.remove(i);
    assert forall|h: u64| duplicates_in(r).insert(c[i].duplicate).contains(h) <==> duplicates_in(
        c,
    ).contains(h) by {
        if duplicates_in(c).contains(h) && h != c[i].duplicate {
            let j = choose|j: int| 0 <= j < c.len() && c[j].duplicate == h;
            let k = if j < i { j } else { j - 1 };
            assert(r[k] == c[if k < i { k } else { k + 1 }]);
        }
        if duplicates_in(r).contains(h) {
            let j = choose|j: int| 0 <= j < r.len() && r[j].duplicate == h;
            let k = if j < i { j } else { j + 1 };
            assert(r[j] == c[k]);
        }
    }
    assert(duplicates_in(r).insert(c[i].duplicate) =~= duplicates_in(c));
}

/// Handles are conserved when a paint event is queued: what the importer
/// owns afterwards, with what it hands back, is what it owned before plus
/// the new duplicate. Nothing is dropped unreleased.
pub proof fn lemma_queue_conserves_handles(s: CoreView, info: PaintInfo, duplicate: u64)
    requires
        queue_spec(s, info, Some(duplicate)).1 is Ok,
    ensures
        ({
            let (s1, r) = queue_spec(s, info, Some(duplicate));
            owned_handles(s1) + option_set(r.unwrap()) == owned_handles(s) + set![duplicate]
        }),
{
    let (s1, r) = queue_spec(s, info, Some(duplicate));
    assert(owned_handles(s1) + option_set(r.unwrap()) =~= owned_handles(s) + set![duplicate]);
}

/// The handles a plan hands over to the caller: the one to close, and the
/// stale entry's handle.
pub open spec fn plan_handed_back(out: PlanOutcome) -> Set<u64> {
    match out {
        PlanOutcome::Idle => Set::empty(),
        PlanOutcome::Failed { release, .. } => option_set(release),
        PlanOutcome::Ready(p) => option_set(p.release) + match p.stale {
            Some(e) => set![e.duplicate],
            None => Set::empty(),
        },
    }
}

/// Handles are conserved when a frame is planned: what the importer owns
/// afterwards, with what the plan hands back, is what it owned before.
pub proof fn lemma_plan_conserves_handles(s: CoreView, dst_valid: bool, fence_ok: bool)
    requires
        core_wf(s),
        s.active is None,
    ensures
        owned_handles(plan_spec(s, dst_valid, fence_ok).0) + plan_handed_back(
            plan_spec(s, dst_valid, fence_ok).1,
        ) == owned_handles(s),
{
    let (s1, out) = plan_spec(s, dst_valid, fence_ok);
    if let Some(p) = s.pending {
        if dst_valid && s.frame_count < u64::MAX && !(s.in_flight[s.slot as int] != 0 && !fence_ok) {
            let c = s.cache;
            let key = p.source;
            if has_source(c, key) {
                let i = choose|i: int| 0 <= i < c.len() && c[i].source == key;
                lemma_present(c, i, key);
                lemma_duplicates_remove(c, i);
                let e = c[i];
                if e.width == p.width && e.height == p.height {
                    let u = CachedImage { last_used: s.frame_count, ..e };
                    lemma_duplicates_push(c.remove(i), u);
                }
            } else {
                lemma_absent(c, key);
            }
        }
    }
    assert(owned_handles(s1) + plan_handed_back(out) =~= owned_handles(s));
}

/// The handles a finish hands over to the caller: the one to close, and
/// the evicted entry's handle.
pub open spec fn finish_handed_back(r: FinishReport) -> Set<u64> {
    option_set(r.release) + match r.evicted {
        Some(e) => set![e.duplicate],
        None => Set::empty(),
    }
}

/// Handles are conserved when a frame is finished: what the importer owns
/// afterwards, with what the report hands back, is what it owned before.
pub proof fn lemma_finish_conserves_handles(s: CoreView, imported: Option<GpuImage>, status: CopyStatus)
    requires
        core_wf(s),
        s.active is Some,
    ensures
        owned_handles(finish_spec(s, imported, status).0) + finish_handed_back(
            finish_spec(s, imported, status).1,
        ) == owned_handles(s),
{
    let (s1, r) = finish_spec(s, imported, status);
    let p = s.active.unwrap();
    let pend = option_set(pending_handle(s.pending));
    assert(owned_handles(s) == pend + option_set(p.import) + duplicates_in(s.cache)) by {
        assert(option_set(pending_handle(s.pending)) =~= match s.pending {
            Some(q) => set![q.duplicate],
            None => Set::<u64>::empty(),
        });
    }
    let c = match (p.import, imported) {
        (Some(dup), Some(g)) => {
            let entry = CachedImage {
                source: p.source,
                duplicate: dup,
                image: g.image,
                memory: g.memory,
                width: p.width,
                height: p.height,
                last_used: s.frame_count,
            };
            lemma_duplicates_push(s.cache, entry);
            s.cache.push(entry)
        },
        _ => s.cache,
    };
    if p.import is Some && imported is None {
        assert(s1.cache == s.cache && r.release == p.import && r.evicted is None);
        assert(owned_handles(s1) =~= pend + duplicates_in(s.cache));
        assert(finish_handed_back(r) =~= option_set(p.import));
        assert(owned_handles(s1) + finish_handed_back(r) =~= owned_handles(s));
    } else {
        assert(duplicates_in(c) == option_set(p.import) + duplicates_in(s.cache));
        if status == CopyStatus::Submitted {
            assert(s1.cache == evicted(c).0 && r.evicted == evicted(c).1 && r.release is None);
            if c.len() > CACHE_CAPACITY {
                assert(c.subrange(1, c.len() as int) =~= c.remove(0));
                lemma_duplicates_remove(c, 0);
            }
            let ev = match evicted(c).1 {
                Some(e) => set![e.duplicate],
                None => Set::<u64>::empty(),
            };
            assert(duplicates_in(evicted(c).0) + ev =~= duplicates_in(c));
            assert(finish_handed_back(r) =~= ev);
            let d = duplicates_in(evicted(c).0);
            assert(owned_handles(s1) =~= pend + d);
            assert(pend + d + ev =~= pend + (d + ev));
            assert(pend + duplicates_in(c) =~= pend + option_set(p.import) + duplicates_in(s.cache));
            assert(owned_handles(s1) + finish_handed_back(r) == pend + d + ev);
            assert(owned_handles(s1) + finish_handed_back(r) =~= owned_handles(s));
        } else {
            assert(s1.cache == c && r.evicted is None && r.release is None);
            assert(finish_handed_back(r) =~= Set::<u64>::empty());
            assert(owned_handles(s1) =~= pend + duplicates_in(c));
            assert(owned_handles(s1) + finish_handed_back(r) =~= owned_handles(s));
        }
    }
}

} // verus!
