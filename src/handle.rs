//! Ownership wrapper for OS-level shared-resource handles.
use vstd::prelude::*;

verus! {

/// The platform's null/invalid sentinel for a handle value.
pub const NULL_HANDLE: u64 = 0;

/// What a `NativeHandle` holds: the raw handle value, and whether this
/// wrapper must release it.
pub struct HandleView {
    pub raw: u64,
    pub owned: bool,
}

/// A shared-resource handle in one of two ownership kinds: owned (this
/// wrapper must release it exactly once) or borrowed (it must never release
/// it). Clones never alias an owned handle: see [`NativeHandle::clone_with`].
#[derive(Debug)]
pub struct NativeHandle {
    raw: u64,
    owned: bool,
}

/// The wrapper that results from duplicating `source`, where `duplicate` is
/// what the duplication produced (`None` when it failed).
pub open spec fn duplicated_view(source: u64, duplicate: Option<u64>) -> HandleView {
    if source == NULL_HANDLE {
        HandleView { raw: NULL_HANDLE, owned: false }
    } else {
        match duplicate {
            Some(d) if d != NULL_HANDLE => HandleView { raw: d, owned: true },
            _ => HandleView { raw: source, owned: false },
        }
    }
}

/// The handle value a wrapper must close when it goes away, if any.
pub open spec fn release_of(h: HandleView) -> Option<u64> {
    if h.owned && h.raw != NULL_HANDLE {
        Some(h.raw)
    } else {
        None
    }
}

impl View for NativeHandle {
    type V = HandleView;

    closed spec fn view(&self) -> HandleView {
        HandleView { raw: self.raw, owned: self.owned }
    }
}

impl NativeHandle {
    /// The invalid handle, owning nothing.
    pub fn invalid() -> (h: NativeHandle)
        ensures
            h@ == (HandleView { raw: NULL_HANDLE, owned: false }),
    {
        NativeHandle { raw: NULL_HANDLE, owned: false }
    }

    /// Wraps a handle that belongs to someone else (the host renderer's
    /// device, a callback's transient handle): it is never released here.
    pub fn borrowed(raw: u64) -> (h: NativeHandle)
        ensures
            h@ == (HandleView { raw: raw, owned: false }),
    {
        NativeHandle { raw, owned: false }
    }

    /// Builds the wrapper for a transient handle `source` once it has been
    /// duplicated. A successful duplicate is owned; a null source gives the
    /// invalid handle; a failed duplication falls back to borrowing the
    /// source, which is never closed here.
    pub fn from_handle(source: u64, duplicate: Option<u64>) -> (h: NativeHandle)
        ensures
            h@ == duplicated_view(source, duplicate),
    {
        if source == NULL_HANDLE {
            return NativeHandle::invalid();
        }
        match duplicate {
            Some(d) => {
                if d != NULL_HANDLE {
                    NativeHandle { raw: d, owned: true }
                } else {
                    NativeHandle { raw: source, owned: false }
                }
            },
            None => NativeHandle { raw: source, owned: false },
        }
    }

    /// The clone of this handle, where `duplicate` is the result of
    /// duplicating it: an independently owned copy when duplication
    /// succeeded, a borrowed alias otherwise.
    pub fn clone_with(&self, duplicate: Option<u64>) -> (h: NativeHandle)
        ensures
            h@ == duplicated_view(self@.raw, duplicate),
    {
        NativeHandle::from_handle(self.raw, duplicate)
    }

    /// Whether the wrapped value is not the null sentinel.
    pub fn is_valid(&self) -> (r: bool)
        ensures
            r == (self@.raw != NULL_HANDLE),
    {
        self.raw != NULL_HANDLE
    }

    /// The wrapped handle value.
    pub fn as_handle(&self) -> (r: u64)
        ensures
            r == self@.raw,
    {
        self.raw
    }

    /// Whether this wrapper must release the handle.
    pub fn is_owned(&self) -> (r: bool)
        ensures
            r == self@.owned,
    {
        self.owned
    }

    /// Gives the wrapper up, returning the handle value that must now be
    /// closed: the owned handle, or nothing for a borrowed or invalid one.
    /// Taking `self` by value makes this happen at most once.
    pub fn release(self) -> (r: Option<u64>)
        ensures
            r == release_of(self@),
    {
        if self.owned && self.raw != NULL_HANDLE {
            Some(self.raw)
        } else {
            None
        }
    }
}

impl Default for NativeHandle {
    fn default() -> (h: NativeHandle)
        ensures
            h@ == (HandleView { raw: NULL_HANDLE, owned: false }),
    {
        NativeHandle::invalid()
    }
}

/// Ownership of native handles: an owned handle is closed exactly once, by
/// the one wrapper that holds it; a borrowed handle is never closed; and a
/// clone of an owned handle, made from a fresh duplicate, owns that
/// duplicate on its own, so releasing both the original and the clone
/// closes two different handles, each once.
pub proof fn lemma_handle_ownership(h: HandleView, duplicate: u64)
    requires
        duplicate != NULL_HANDLE,
        duplicate != h.raw,
    ensures
        h.owned && h.raw != NULL_HANDLE ==> release_of(h) == Some(h.raw),
        !h.owned ==> release_of(h) is None,
        h.owned && h.raw != NULL_HANDLE ==> {
            let c = duplicated_view(h.raw, Some(duplicate));
            &&& c.owned
            &&& release_of(c) == Some(duplicate)
            &&& release_of(c) != release_of(h)
        },
        release_of(duplicated_view(h.raw, None)) is None,
{
}

} // verus!
