//! Bounded cache of imported GPU images, keyed by source-handle identity and
//! kept in order of last use.
use vstd::prelude::*;

verus! {

/// How many imported images the cache keeps before it evicts the least
/// recently used one: enough to cover resize churn, small enough to scan.
pub const CACHE_CAPACITY: usize = 10;

/// A GPU-side import of one shared handle. `duplicate` is the OS handle this
/// entry owns; `image` and `memory` are the GPU objects made from it.
#[derive(Clone, Copy, Debug, PartialEq, Eq, Structural)]
pub struct CachedImage {
    pub source: u64,
    pub duplicate: u64,
    pub image: u64,
    pub memory: u64,
    pub width: u32,
    pub height: u32,
    pub last_used: u64,
}

/// Whether some entry of `s` is keyed by `key`.
pub open spec fn has_source(s: Seq<CachedImage>, key: u64) -> bool {
    exists|i: int| 0 <= i < s.len() && s[i].source == key
}

/// At most one entry per source-handle identity.
pub open spec fn sources_unique(s: Seq<CachedImage>) -> bool {
    forall|i: int, j: int|
        0 <= i < s.len() && 0 <= j < s.len() && i != j ==> s[i].source != s[j].source
}

/// Entries stand in order of last use, least recent first.
pub open spec fn recency_ordered(s: Seq<CachedImage>) -> bool {
    forall|i: int, j: int| 0 <= i < j < s.len() ==> s[i].last_used <= s[j].last_used
}

pub open spec fn cache_wf(s: Seq<CachedImage>) -> bool {
    sources_unique(s) && recency_ordered(s)
}

/// No entry was used after `frame`.
pub open spec fn used_by(s: Seq<CachedImage>, frame: u64) -> bool {
    forall|i: int| 0 <= i < s.len() ==> s[i].last_used <= frame
}

/// The entry keyed by `key`, if any.
pub open spec fn entry_for(s: Seq<CachedImage>, key: u64) -> Option<CachedImage>
    decreases s.len(),
{
    if s.len() == 0 {
        None
    } else if s[0].source == key {
        Some(s[0])
    } else {
        entry_for(s.subrange(1, s.len() as int), key)
    }
}

/// `s` with the entry keyed by `key` taken out.
pub open spec fn without_source(s: Seq<CachedImage>, key: u64) -> Seq<CachedImage>
    decreases s.len(),
{
    if s.len() == 0 {
        s
    } else if s[0].source == key {
        without_source(s.subrange(1, s.len() as int), key)
    } else {
        seq![s[0]] + without_source(s.subrange(1, s.len() as int), key)
    }
}

/// `s` after the entry keyed by `key` is used in `frame`: it becomes the
/// most recently used one.
pub open spec fn touched(s: Seq<CachedImage>, key: u64, frame: u64) -> Seq<CachedImage> {
    match entry_for(s, key) {
        Some(e) => without_source(s, key).push(CachedImage { last_used: frame, ..e }),
        None => s,
    }
}

/// `s` after one eviction pass, with the entry evicted: the least recently
/// used entry goes once the cache holds more than its capacity.
pub open spec fn evicted(s: Seq<CachedImage>) -> (Seq<CachedImage>, Option<CachedImage>) {
    if s.len() > CACHE_CAPACITY {
        (s.subrange(1, s.len() as int), Some(s[0]))
    } else {
        (s, None)
    }
}

/// The entry found for a key is keyed by it.
pub proof fn lemma_entry_for_source(s: Seq<CachedImage>, key: u64)
    ensures
        entry_for(s, key) matches Some(e) ==> e.source == key,
    decreases s.len(),
{
    if s.len() > 0 && s[0].source != key {
        lemma_entry_for_source(s.subrange(1, s.len() as int), key);
    }
}

pub proof fn lemma_absent(s: Seq<CachedImage>, key: u64)
    requires
        !has_source(s, key),
    ensures
        entry_for(s, key) is None,
        without_source(s, key) == s,
    decreases s.len(),
{
    if s.len() > 0 {
        let rest = s.subrange(1, s.len() as int);
        assert(!has_source(rest, key)) by {
            if has_source(rest, key) {
                let i = choose|i: int| 0 <= i < rest.len() && rest[i].source == key;
                assert(s[i + 1].source == key);
            }
        }
        assert(s[0].source != key) by {
            if s[0].source == key {
                assert(0 <= 0 < s.len() && s[0].source == key);
            }
        }
        lemma_absent(rest, key);
        assert(seq![s[0]] + rest =~= s);
    }
}

pub proof fn lemma_present(s: Seq<CachedImage>, i: int, key: u64)
    requires
        sources_unique(s),
        0 <= i < s.len(),
        s[i].source == key,
    ensures
        entry_for(s, key) == Some(s[i]),
        without_source(s, key) == s.remove(i),
    decreases s.len(),
{
    let rest = s.subrange(1, s.len() as int);
    if i == 0 {
        assert(!has_source(rest, key)) by {
            if has_source(rest, key) {
                let j = choose|j: int| 0 <= j < rest.len() && rest[j].source == key;
                assert(s[j + 1].source == key);
            }
        }
        lemma_absent(rest, key);
        assert(rest =~= s.remove(0));
    } else {
        assert(s[0].source != key);
        assert(rest[i - 1] == s[i]);
        lemma_present(rest, i - 1, key);
        assert(seq![s[0]] + rest.remove(i - 1) =~= s.remove(i));
    }
}

/// Removing the entry at `i` keeps a cache well formed.
pub proof fn lemma_remove_wf(s: Seq<CachedImage>, i: int, frame: u64)
    requires
        cache_wf(s),
        used_by(s, frame),
        0 <= i < s.len(),
    ensures
        cache_wf(s.remove(i)),
        used_by(s.remove(i), frame),
        forall|k: u64| #[trigger] has_source(s.remove(i), k) ==> has_source(s, k) && k != s[i].source,
{
    let r = s.remove(i);
    assert forall|a: int, b: int| 0 <= a < r.len() && 0 <= b < r.len() && a != b implies r[a].source
        != r[b].source by {
        let a2 = if a < i { a } else { a + 1 };
        let b2 = if b < i { b } else { b + 1 };
        assert(r[a] == s[a2] && r[b] == s[b2]);
    }
    assert forall|a: int, b: int| 0 <= a < b < r.len() implies r[a].last_used <= r[b].last_used by {
        let a2 = if a < i { a } else { a + 1 };
        let b2 = if b < i { b } else { b + 1 };
        assert(r[a] == s[a2] && r[b] == s[b2]);
    }
    assert forall|a: int| 0 <= a < r.len() implies r[a].last_used <= frame by {
        let a2 = if a < i { a } else { a + 1 };
        assert(r[a] == s[a2]);
    }
    assert forall|k: u64| #[trigger] has_source(r, k) implies has_source(s, k) && k != s[i].source by {
        let a = choose|a: int| 0 <= a < r.len() && r[a].source == k;
        let a2 = if a < i { a } else { a + 1 };
        assert(r[a] == s[a2]);
    }
}

/// Appending an entry for a new key, used no earlier than every other
/// entry, keeps a cache well formed.
pub proof fn lemma_push_wf(s: Seq<CachedImage>, e: CachedImage, frame: u64)
    requires
        cache_wf(s),
        used_by(s, e.last_used),
        e.last_used <= frame,
        !has_source(s, e.source),
    ensures
        cache_wf(s.push(e)),
        used_by(s.push(e), frame),
{
    let r = s.push(e);
    assert forall|a: int, b: int| 0 <= a < r.len() && 0 <= b < r.len() && a != b implies r[a].source
        != r[b].source by {
        if a == s.len() {
            assert(!(0 <= b < s.len() && s[b].source == e.source));
        } else if b == s.len() {
            assert(!(0 <= a < s.len() && s[a].source == e.source));
        }
    }
}

/// Dropping the least recently used entry keeps a cache well formed.
pub proof fn lemma_evict_wf(s: Seq<CachedImage>, frame: u64)
    requires
        cache_wf(s),
        used_by(s, frame),
    ensures
        cache_wf(evicted(s).0),
        used_by(evicted(s).0, frame),
        evicted(s).1 matches Some(e) ==> forall|i: int|
            0 <= i < s.len() ==> e.last_used <= #[trigger] s[i].last_used,
{
    if s.len() > CACHE_CAPACITY {
        assert(s.subrange(1, s.len() as int) =~= s.remove(0));
        lemma_remove_wf(s, 0, frame);
        assert forall|i: int| 0 <= i < s.len() implies s[0].last_used <= #[trigger] s[i].last_used by {
            if i > 0 {
                assert(s[0].last_used <= s[i].last_used);
            }
        }
    }
}

/// The imported images, least recently used first.
#[derive(Debug)]
pub struct ImageCache {
    entries: Vec<CachedImage>,
}

impl View for ImageCache {
    type V = Seq<CachedImage>;

    closed spec fn view(&self) -> Seq<CachedImage> {
        self.entries@
    }
}

impl ImageCache {
    pub fn new() -> (c: ImageCache)
        ensures
            c@ == Seq::<CachedImage>::empty(),
    {
        ImageCache { entries: Vec::new() }
    }

    pub fn len(&self) -> (n: usize)
        ensures
            n == self@.len(),
    {
        self.entries.len()
    }

    /// Where the entry keyed by `key` stands.
    pub fn position(&self, key: u64) -> (r: Option<usize>)
        ensures
            r matches Some(i) ==> i < self@.len() && self@[i as int].source == key,
            r is None ==> !has_source(self@, key),
    {
        let mut i: usize = 0;
        while i < self.entries.len()
            invariant
                i <= self.entries@.len(),
                forall|j: int| 0 <= j < i ==> self.entries@[j].source != key,
            decreases self.entries@.len() - i,
        {
            if self.entries[i].source == key {
                return Some(i);
            }
            i = i + 1;
        }
        None
    }

    /// The entry keyed by `key`, if any.
    pub fn get(&self, key: u64) -> (r: Option<CachedImage>)
        requires
            cache_wf(self@),
        ensures
            r == entry_for(self@, key),
    {
        match self.position(key) {
            Some(i) => {
                proof {
                    lemma_present(self@, i as int, key);
                }
                Some(self.entries[i])
            },
            None => {
                proof {
                    lemma_absent(self@, key);
                }
                None
            },
        }
    }

    /// Takes the entry keyed by `key` out of the cache, handing it back so
    /// that its GPU objects and handle can be released.
    pub fn remove(&mut self, key: u64, Ghost(frame): Ghost<u64>) -> (r: Option<CachedImage>)
        requires
            cache_wf(old(self)@),
            used_by(old(self)@, frame),
        ensures
            r == entry_for(old(self)@, key),
            r matches Some(e) ==> e.source == key,
            r is None ==> final(self)@ == old(self)@,
            final(self)@ == without_source(old(self)@, key),
            cache_wf(final(self)@),
            used_by(final(self)@, frame),
            !has_source(final(self)@, key),
            forall|k: u64| #[trigger] has_source(final(self)@, k) ==> has_source(old(self)@, k),
    {
        match self.position(key) {
            Some(i) => {
                proof {
                    lemma_present(self@, i as int, key);
                    lemma_remove_wf(self@, i as int, frame);
                }
                let e = self.entries.remove(i);
                Some(e)
            },
            None => {
                proof {
                    lemma_absent(self@, key);
                }
                None
            },
        }
    }

    /// Adds an entry for a key the cache does not hold, as its most
    /// recently used entry.
    pub fn insert(&mut self, entry: CachedImage, Ghost(frame): Ghost<u64>)
        requires
            cache_wf(old(self)@),
            used_by(old(self)@, entry.last_used),
            entry.last_used <= frame,
            !has_source(old(self)@, entry.source),
        ensures
            final(self)@ == old(self)@.push(entry),
            cache_wf(final(self)@),
            used_by(final(self)@, frame),
    {
        proof {
            lemma_push_wf(self@, entry, frame);
        }
        self.entries.push(entry);
    }

    /// Marks the entry keyed by `key` as used in `frame`, which makes it
    /// the most recently used entry; returns it as it now stands.
    pub fn touch(&mut self, key: u64, frame: u64) -> (r: Option<CachedImage>)
        requires
            cache_wf(old(self)@),
            used_by(old(self)@, frame),
        ensures
            final(self)@ == touched(old(self)@, key, frame),
            r == (match entry_for(old(self)@, key) {
                Some(e) => Some(CachedImage { last_used: frame, ..e }),
                None => None,
            }),
            cache_wf(final(self)@),
            used_by(final(self)@, frame),
    {
        match self.remove(key, Ghost(frame)) {
            Some(e) => {
                let updated = CachedImage { last_used: frame, ..e };
                self.insert(updated, Ghost(frame));
                Some(updated)
            },
            None => None,
        }
    }

    /// Once the cache holds more than `CACHE_CAPACITY` entries, takes out
    /// the least recently used one and hands it back.
    pub fn evict(&mut self, Ghost(frame): Ghost<u64>) -> (r: Option<CachedImage>)
        requires
            cache_wf(old(self)@),
            used_by(old(self)@, frame),
        ensures
            (final(self)@, r) == evicted(old(self)@),
            cache_wf(final(self)@),
            used_by(final(self)@, frame),
            r matches Some(e) ==> forall|i: int|
                0 <= i < old(self)@.len() ==> e.last_used <= #[trigger] old(self)@[i].last_used,
    {
        proof {
            lemma_evict_wf(self@, frame);
        }
        if self.entries.len() > CACHE_CAPACITY {
            let e = self.entries.remove(0);
            assert(self.entries@ =~= old(self)@.subrange(1, old(self)@.len() as int));
            Some(e)
        } else {
            None
        }
    }

    /// Empties the cache, handing back every entry.
    pub fn drain(&mut self) -> (r: Vec<CachedImage>)
        ensures
            r@ == old(self)@,
            final(self)@ == Seq::<CachedImage>::empty(),
    {
        let mut out: Vec<CachedImage> = Vec::new();
        std::mem::swap(&mut out, &mut self.entries);
        out
    }
}

} // verus!
