//! Implements the [DrawingSurfaceInfo] struct.

use core::marker::PhantomData;

use vstd::prelude::*;

use crate::ds::DrawingSurfaceGuard;
use crate::md::macos::SurfaceLayers;
use crate::md::unix::X11DrawingSurfaceInfo;
use crate::md::windows::Win32DrawingSurfaceInfo;
use crate::rect::NativeRect;
use crate::rect::Rect;

verus! {

/// The platform-specific handle bundle embedded in a drawing surface info.
/// Exactly one variant applies to a given surface, decided by the platform
/// the component lives on; the value is a view into the info's memory, never
/// separately owned.
#[derive(Debug, Clone, Copy)]
pub enum DrawingSurfacePlatformInfo {
    /// Win32 GDI handles.
    Win32(Win32DrawingSurfaceInfo),
    /// The macOS surface-layers protocol object.
    MacOs(SurfaceLayers),
    /// X11 display and drawable.
    X11(X11DrawingSurfaceInfo),
}

/// The fields of a native drawing surface info, as the embedding layer reads
/// them out of the struct that the native get-info operation returned: the
/// surface the info belongs to, the info struct's own handle, the bounding
/// rectangle, the clip rectangle array with the count field that gives its
/// length, and the platform-specific part.
#[derive(Debug, Clone)]
pub struct RawDrawingSurfaceInfo {
    /// The native drawing surface this info describes.
    pub ds: u64,
    /// The handle of the native info struct itself; the free operation is
    /// invoked on it.
    pub info_handle: u64,
    /// The bounding rectangle of the drawing surface.
    pub bounds: NativeRect,
    /// The native count field: how many clip rectangles the array holds.
    pub clip_size: i32,
    /// The clip rectangle array, exactly `clip_size` entries long.
    pub clip: Vec<NativeRect>,
    /// The platform-specific handle bundle.
    pub platform_info: DrawingSurfacePlatformInfo,
}

impl RawDrawingSurfaceInfo {
    /// What the native interface guarantees of an info it handed out: the
    /// struct is present and the clip array is as long as the count field
    /// says.
    pub open spec fn wf(self) -> bool {
        &&& self.info_handle != 0
        &&& self.clip_size >= 0
        &&& self.clip@.len() == self.clip_size
    }
}

/// A snapshot of one drawing surface's geometry and platform handle, taken
/// while the surface is locked. The snapshot borrows the lock guard that
/// produced it and therefore cannot be observed after the guard is gone;
/// dropping it obliges the embedding layer to invoke the free function
/// captured at retrieval time, exactly once, on the native info struct.
#[derive(Debug)]
pub struct DrawingSurfaceInfo<'a> {
    ds: u64,
    info_handle: u64,
    free: u64,
    bounds: NativeRect,
    clip_size: i32,
    clip: Vec<Rect>,
    platform_info: DrawingSurfacePlatformInfo,
    _guard: PhantomData<DrawingSurfaceGuard<'a>>,
}

impl<'a> DrawingSurfaceInfo<'a> {
    /// The native drawing surface this info describes.
    pub closed spec fn spec_ds(self) -> u64 {
        self.ds
    }

    /// The handle of the native info struct.
    pub closed spec fn spec_info_handle(self) -> u64 {
        self.info_handle
    }

    /// The free function captured when the info was retrieved; releasing the
    /// info must go through exactly this entry point.
    pub closed spec fn spec_free_fn(self) -> u64 {
        self.free
    }

    /// The bounding rectangle, in the native layout.
    pub closed spec fn spec_bounds(self) -> NativeRect {
        self.bounds
    }

    /// The native count field of the clip rectangle array.
    pub closed spec fn spec_clip_size(self) -> i32 {
        self.clip_size
    }

    /// The clip rectangles.
    pub closed spec fn spec_clip(self) -> Seq<Rect> {
        self.clip@
    }

    /// The platform-specific handle bundle.
    pub closed spec fn spec_platform_info(self) -> DrawingSurfacePlatformInfo {
        self.platform_info
    }

    /// The clip sequence is always exactly as long as the native count field
    /// says, and the count is never negative.
    #[verifier::type_invariant]
    pub closed spec fn inv(self) -> bool {
        &&& self.clip_size >= 0
        &&& self.clip@.len() == self.clip_size
    }

    /// Wraps the fields read from a native drawing surface info, converting
    /// each clip rectangle into [Rect]. `raw` must come from the native
    /// get-info operation and `free` must be the owning surface's
    /// free-info value.
    pub fn from_raw_parts(raw: RawDrawingSurfaceInfo, free: u64) -> (r: DrawingSurfaceInfo<'a>)
        requires
            raw.wf(),
        ensures
            r.spec_ds() == raw.ds,
            r.spec_info_handle() == raw.info_handle,
            r.spec_free_fn() == free,
            r.spec_bounds() == raw.bounds,
            r.spec_clip_size() == raw.clip_size,
            r.spec_clip() == raw.clip@.map_values(|n: NativeRect| Rect::spec_from_sys(n)),
            r.spec_platform_info() == raw.platform_info,
    {
        let mut clip: Vec<Rect> = Vec::new();
        let mut i: usize = 0;
        while i < raw.clip.len()
            invariant
                i <= raw.clip@.len(),
                clip@.len() == i,
                forall|j: int| 0 <= j < i ==> clip@[j] == Rect::spec_from_sys(raw.clip@[j]),
            decreases raw.clip@.len() - i,
        {
            let converted = Rect::from_sys(raw.clip[i]);
            clip.push(converted);
            i = i + 1;
        }
        proof {
            assert(clip@ =~= raw.clip@.map_values(|n: NativeRect| Rect::spec_from_sys(n)));
        }
        DrawingSurfaceInfo {
            ds: raw.ds,
            info_handle: raw.info_handle,
            free,
            bounds: raw.bounds,
            clip_size: raw.clip_size,
            clip,
            platform_info: raw.platform_info,
            _guard: PhantomData,
        }
    }

    /// Destructs the info into the native info handle and the captured free
    /// function. Invoking the free function on the handle is what releasing
    /// the info means.
    pub fn into_raw_parts(self) -> (r: (u64, u64))
        ensures
            r.0 == self.spec_info_handle(),
            r.1 == self.spec_free_fn(),
    {
        (self.info_handle, self.free)
    }

    /// The call that releases this info: the captured free function, applied
    /// to the native info handle. This is the exact pair recorded when the
    /// info was retrieved.
    pub fn free_call(&self) -> (r: (u64, u64))
        ensures
            r.0 == self.spec_free_fn(),
            r.1 == self.spec_info_handle(),
    {
        (self.free, self.info_handle)
    }

    /// The native drawing surface this info describes.
    pub fn ds(&self) -> (r: u64)
        ensures
            r == self.spec_ds(),
    {
        self.ds
    }

    /// Bounding rectangle of the drawing surface.
    pub fn bounds(&self) -> (r: Rect)
        ensures
            r == Rect::spec_from_sys(self.spec_bounds()),
    {
        Rect::from_sys(self.bounds)
    }

    /// Clip rectangle array: always exactly as many rectangles as the native
    /// count field reported, in the order the JVM provided, with no further
    /// ordering promised.
    pub fn clip(&self) -> (r: &Vec<Rect>)
        ensures
            r@ == self.spec_clip(),
            r@.len() == self.spec_clip_size(),
    {
        proof {
            use_type_invariant(self);
        }
        &self.clip
    }

    /// The platform-specific handle bundle.
    pub fn platform_info(&self) -> (r: &DrawingSurfacePlatformInfo)
        ensures
            *r == self.spec_platform_info(),
    {
        &self.platform_info
    }
}

} // verus!
