//! Implements the [DrawingSurface] struct and the lock protocol around it.

use core::marker::PhantomData;

use vstd::prelude::*;

use crate::dsi::DrawingSurfaceInfo;
use crate::dsi::RawDrawingSurfaceInfo;
use crate::rect::NativeRect;
use crate::rect::Rect;

verus! {

/// Lock-result bit reporting that the native lock operation failed, as the
/// native headers define it.
pub const JAWT_LOCK_ERROR: i32 = 0x1;

/// Lock-result bit reporting that the clip region has changed, as the native
/// headers define it.
pub const JAWT_LOCK_CLIP_CHANGED: i32 = 0x2;

/// Lock-result bit reporting that the bounds of the surface have changed, as
/// the native headers define it.
pub const JAWT_LOCK_BOUNDS_CHANGED: i32 = 0x4;

/// Lock-result bit reporting that the surface itself has changed, as the
/// native headers define it.
pub const JAWT_LOCK_SURFACE_CHANGED: i32 = 0x8;

/// The informational lock-result bits: every defined bit but the error bit.
pub const JAWT_LOCK_FLAGS_MASK: i32 = JAWT_LOCK_CLIP_CHANGED | JAWT_LOCK_BOUNDS_CHANGED
    | JAWT_LOCK_SURFACE_CHANGED;

/// The informational flags a successful native lock operation reported:
/// a subset of clip changed, bounds changed and surface changed. They speak
/// only of the one lock cycle that produced them.
#[derive(Debug, Clone, Copy, PartialEq, Eq, Structural, PartialOrd, Ord, Hash)]
pub struct DrawingSurfaceLockResult {
    bits: i32,
}

impl DrawingSurfaceLockResult {
    /// The underlying bits.
    pub closed spec fn spec_bits(self) -> i32 {
        self.bits
    }

    /// Keeps the defined informational bits of a raw native lock result and
    /// drops every other bit, the error bit included.
    pub fn from_bits_truncate(bits: i32) -> (r: Self)
        ensures
            r.spec_bits() == bits & JAWT_LOCK_FLAGS_MASK,
    {
        Self { bits: bits & JAWT_LOCK_FLAGS_MASK }
    }

    /// Returns the underlying bits.
    pub fn bits(self) -> (r: i32)
        ensures
            r == self.spec_bits(),
    {
        self.bits
    }

    /// Whether every bit of `other` is set in `self`.
    pub fn contains(self, other: Self) -> (r: bool)
        ensures
            r == (self.spec_bits() & other.spec_bits() == other.spec_bits()),
    {
        self.bits & other.bits == other.bits
    }

    /// Whether the clip region changed during the lock that produced this
    /// result.
    pub fn clip_changed(self) -> (r: bool)
        ensures
            r == (self.spec_bits() & JAWT_LOCK_CLIP_CHANGED != 0),
    {
        self.bits & JAWT_LOCK_CLIP_CHANGED != 0
    }

    /// Whether the bounds of the surface changed during the lock that
    /// produced this result.
    pub fn bounds_changed(self) -> (r: bool)
        ensures
            r == (self.spec_bits() & JAWT_LOCK_BOUNDS_CHANGED != 0),
    {
        self.bits & JAWT_LOCK_BOUNDS_CHANGED != 0
    }

    /// Whether the surface itself changed during the lock that produced this
    /// result.
    pub fn surface_changed(self) -> (r: bool)
        ensures
            r == (self.spec_bits() & JAWT_LOCK_SURFACE_CHANGED != 0),
    {
        self.bits & JAWT_LOCK_SURFACE_CHANGED != 0
    }
}

/// The drawing surface of one component: the native surface handle paired
/// with the free function captured from the acquiring function table. All
/// operations on one surface must stay on the thread that acquired it, and
/// the captured free function must be invoked on the handle exactly once,
/// after the surface was unlocked.
#[derive(Debug)]
pub struct DrawingSurface {
    handle: u64,
    free: u64,
}

impl DrawingSurface {
    /// The native surface handle.
    pub closed spec fn spec_handle(self) -> u64 {
        self.handle
    }

    /// The free function captured when the surface was acquired; releasing
    /// the surface must go through exactly this entry point.
    pub closed spec fn spec_free_fn(self) -> u64 {
        self.free
    }

    /// A surface is well formed when its native handle is present.
    pub open spec fn wf(self) -> bool {
        self.spec_handle() != 0
    }

    /// What [DrawingSurface::from_raw_parts] constructs: the given handle
    /// paired with the given free function.
    pub closed spec fn spec_from_raw_parts(inner: u64, free: u64) -> DrawingSurface {
        DrawingSurface { handle: inner, free }
    }

    /// Pairs a native surface handle with the free function that the
    /// acquiring table held. `inner` must come from the native
    /// `GetDrawingSurface` entry point and `free` must be the same table's
    /// `FreeDrawingSurface` value.
    pub fn from_raw_parts(inner: u64, free: u64) -> (r: Self)
        requires
            inner != 0,
        ensures
            r == DrawingSurface::spec_from_raw_parts(inner, free),
            r.spec_handle() == inner,
            r.spec_free_fn() == free,
            r.wf(),
    {
        Self { handle: inner, free }
    }

    /// The native surface handle; the native surface struct behind it holds
    /// the lock, unlock and get-info entry points.
    pub fn handle(&self) -> (r: u64)
        ensures
            r == self.spec_handle(),
    {
        self.handle
    }

    /// Destructs the surface into the native handle and the captured free
    /// function. Invoking the free function on the handle is what releasing
    /// the surface means.
    pub fn into_raw_parts(self) -> (r: (u64, u64))
        ensures
            r.0 == self.spec_handle(),
            r.1 == self.spec_free_fn(),
    {
        (self.handle, self.free)
    }

    /// The call that releases this surface: the captured free function,
    /// applied to the surface handle. This is the exact pair recorded at
    /// acquisition time, whatever tables were acquired since.
    pub fn free_call(&self) -> (r: (u64, u64))
        ensures
            r.0 == self.spec_free_fn(),
            r.1 == self.spec_handle(),
    {
        (self.free, self.handle)
    }

    /// Decides the outcome of the native lock operation on this surface,
    /// given the bits that operation returned. A result with the error bit
    /// set means the lock failed: no guard is produced and the surface stays
    /// unlocked. Otherwise the surface is locked: the informational bits are
    /// kept and a guard scoped to the surface is produced, and the surface
    /// cannot be locked again before the guard is gone.
    pub fn lock<'a>(&'a mut self, native_result: i32) -> (r: Option<
        (DrawingSurfaceLockResult, DrawingSurfaceGuard<'a>),
    >)
        ensures
            *final(self) == *old(self),
            (native_result & JAWT_LOCK_ERROR != 0) <==> r is None,
            r matches Some(p) ==> p.0.spec_bits() == native_result & JAWT_LOCK_FLAGS_MASK
                && p.1.spec_surface_handle() == old(self).spec_handle(),
    {
        if native_result & JAWT_LOCK_ERROR != 0 {
            return None;
        }
        Some(
            (
                DrawingSurfaceLockResult::from_bits_truncate(native_result),
                DrawingSurfaceGuard { surface_handle: self.handle, _surface: PhantomData },
            ),
        )
    }
}

/// Proof that one surface is currently locked. The guard borrows the surface
/// for as long as it lives, so the surface can be locked again, released or
/// destructed only after the guard is gone; dropping the guard is what
/// obliges the embedding layer to invoke the native unlock operation, exactly
/// once per guard.
pub struct DrawingSurfaceGuard<'a> {
    surface_handle: u64,
    _surface: PhantomData<&'a DrawingSurface>,
}

impl DrawingSurfaceGuard<'_> {
    /// The handle of the locked surface.
    pub closed spec fn spec_surface_handle(self) -> u64 {
        self.surface_handle
    }

    /// The call that undoes this lock: the native unlock operation, applied
    /// to the locked surface's handle. `unlock_fn` is the `Unlock` value read
    /// from the native surface.
    pub fn unlock_call(&self, unlock_fn: u64) -> (r: (u64, u64))
        ensures
            r.0 == unlock_fn,
            r.1 == self.spec_surface_handle(),
    {
        (unlock_fn, self.surface_handle)
    }

    /// Takes the snapshot of the locked surface's geometry and platform
    /// handle. `native` carries the fields the embedding layer read from the
    /// struct that the native get-info operation returned, or nothing when
    /// that operation returned null; `free_fn` is the surface's free-info
    /// value, captured into the snapshot for its release. The snapshot
    /// borrows this guard and cannot outlive it: it is gone before the
    /// surface is unlocked.
    pub fn drawing_surface_info<'b>(
        &'b mut self,
        native: Option<RawDrawingSurfaceInfo>,
        free_fn: u64,
    ) -> (r: Option<DrawingSurfaceInfo<'b>>)
        requires
            native matches Some(raw) ==> raw.wf(),
        ensures
            *final(self) == *old(self),
            native is None <==> r is None,
            native matches Some(raw) ==> r matches Some(info) && info.spec_ds() == raw.ds
                && info.spec_info_handle() == raw.info_handle && info.spec_free_fn() == free_fn
                && info.spec_bounds() == raw.bounds && info.spec_clip_size() == raw.clip_size
                && info.spec_clip() == raw.clip@.map_values(|n: NativeRect| Rect::spec_from_sys(n))
                && info.spec_platform_info() == raw.platform_info,
    {
        match native {
            None => None,
            Some(raw) => Some(DrawingSurfaceInfo::from_raw_parts(raw, free_fn)),
        }
    }
}

/// Pairing a handle with a free function records exactly that handle and that
/// free function.
pub proof fn lemma_from_raw_parts_fields(inner: u64, free: u64)
    ensures
        DrawingSurface::spec_from_raw_parts(inner, free).spec_handle() == inner,
        DrawingSurface::spec_from_raw_parts(inner, free).spec_free_fn() == free,
{
}

} // verus!
