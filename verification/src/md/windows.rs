//! Microsoft Windows specific declarations for the AWT native interface.

use vstd::prelude::*;

verus! {

/// The Windows platform information embedded in a drawing surface info. The
/// native layout starts with a union of a window handle, a bitmap handle and
/// a pointer to raw DIB bits; all three share the same storage, carried here
/// as `handle_bits`. The device context and the palette follow.
#[derive(Debug, Clone, Copy, PartialEq, Eq, Structural)]
pub struct Win32DrawingSurfaceInfo {
    /// The shared storage of the handle union: a window handle, a bitmap
    /// handle or a pointer to DIB bits, with nothing in the layout saying
    /// which.
    pub handle_bits: u64,
    /// The device context handle.
    pub hdc: u64,
    /// The palette handle.
    pub hpalette: u64,
}

/// Represents a native window, DDB, or DIB handle.
#[derive(Debug, Clone, Copy, PartialEq, Eq, Structural)]
pub enum SurfaceKind {
    Window(u64),
    Bitmap(u64),
    DIBits(u64),
}

/// The error returned when a [SurfaceKind] holds a different kind of handle
/// than the one asked for.
#[derive(Debug, Clone, Copy, PartialEq, Eq, Structural)]
pub struct DifferentSurfaceKind;

impl DifferentSurfaceKind {
    /// A description of this error.
    pub fn message(&self) -> (r: &'static str)
        ensures
            r@ == "different kind of surface"@,
    {
        "different kind of surface"
    }
}

impl Win32DrawingSurfaceInfo {
    /// What [Win32DrawingSurfaceInfo::surface_kind] decides, as a function of
    /// the union storage and the two probe outcomes.
    pub open spec fn spec_surface_kind(self, is_window: bool, is_bitmap: bool) -> Option<
        SurfaceKind,
    > {
        if is_window {
            Some(SurfaceKind::Window(self.handle_bits))
        } else if is_bitmap {
            Some(SurfaceKind::Bitmap(self.handle_bits))
        } else if self.handle_bits != 0 {
            Some(SurfaceKind::DIBits(self.handle_bits))
        } else {
            None
        }
    }

    /// Discriminates the handle union. The native layout carries no tag, so
    /// the kind is decided by probing, in this fixed order: a handle that the
    /// OS reports as a valid window is a window; otherwise a handle whose GDI
    /// object type is a bitmap is a bitmap; otherwise any non-null value is a
    /// pointer to DIB bits; and nothing valid is no kind at all. `is_window`
    /// is the outcome of the OS window-validity query on the handle bits, and
    /// `is_bitmap` the outcome of the GDI object-type query.
    pub fn surface_kind(&self, is_window: bool, is_bitmap: bool) -> (r: Option<SurfaceKind>)
        ensures
            r == self.spec_surface_kind(is_window, is_bitmap),
    {
        if is_window {
            return Some(SurfaceKind::Window(self.handle_bits));
        }
        if is_bitmap {
            return Some(SurfaceKind::Bitmap(self.handle_bits));
        }
        if self.handle_bits != 0 {
            return Some(SurfaceKind::DIBits(self.handle_bits));
        }
        None
    }

    /// The device context handle.
    pub fn hdc(&self) -> (r: u64)
        ensures
            r == self.hdc,
    {
        self.hdc
    }

    /// The palette handle.
    pub fn hpalette(&self) -> (r: u64)
        ensures
            r == self.hpalette,
    {
        self.hpalette
    }
}

/// The probe order decides the surface kind: a valid window wins over every
/// other reading of the union, a bitmap wins over raw DIB bits, raw bits
/// count only when non-null, and a union that no probe accepts has no kind.
/// An ambiguous union that could match several probes therefore always takes
/// the first matching one.
pub proof fn lemma_surface_kind_probe_order(
    info: Win32DrawingSurfaceInfo,
    is_window: bool,
    is_bitmap: bool,
)
    ensures
        is_window ==> info.spec_surface_kind(is_window, is_bitmap) == Some(
            SurfaceKind::Window(info.handle_bits),
        ),
        !is_window && is_bitmap ==> info.spec_surface_kind(is_window, is_bitmap) == Some(
            SurfaceKind::Bitmap(info.handle_bits),
        ),
        !is_window && !is_bitmap && info.handle_bits != 0 ==> info.spec_surface_kind(
            is_window,
            is_bitmap,
        ) == Some(SurfaceKind::DIBits(info.handle_bits)),
        !is_window && !is_bitmap && info.handle_bits == 0 ==> info.spec_surface_kind(
            is_window,
            is_bitmap,
        ) is None,
{
}

impl SurfaceKind {
    /// The window handle, if this is a window.
    pub fn window(self) -> (r: Option<u64>)
        ensures
            r == (match self {
                SurfaceKind::Window(h) => Some(h),
                _ => None,
            }),
    {
        match self {
            SurfaceKind::Window(h) => Some(h),
            _ => None,
        }
    }

    /// The window handle. The surface must be a window.
    pub fn unwrap_window(self) -> (r: u64)
        requires
            self is Window,
        ensures
            self == SurfaceKind::Window(r),
    {
        match self {
            SurfaceKind::Window(h) => h,
            _ => unreached(),
        }
    }

    /// The window handle, or the error saying the surface is of a different
    /// kind.
    pub fn try_window(self) -> (r: Result<u64, DifferentSurfaceKind>)
        ensures
            r == (match self {
                SurfaceKind::Window(h) => Ok::<u64, DifferentSurfaceKind>(h),
                _ => Err(DifferentSurfaceKind),
            }),
    {
        match self {
            SurfaceKind::Window(h) => Ok(h),
            _ => Err(DifferentSurfaceKind),
        }
    }

    /// The bitmap handle, if this is a bitmap.
    pub fn bitmap(self) -> (r: Option<u64>)
        ensures
            r == (match self {
                SurfaceKind::Bitmap(h) => Some(h),
                _ => None,
            }),
    {
        match self {
            SurfaceKind::Bitmap(h) => Some(h),
            _ => None,
        }
    }

    /// The bitmap handle. The surface must be a bitmap.
    pub fn unwrap_bitmap(self) -> (r: u64)
        requires
            self is Bitmap,
        ensures
            self == SurfaceKind::Bitmap(r),
    {
        match self {
            SurfaceKind::Bitmap(h) => h,
            _ => unreached(),
        }
    }

    /// The bitmap handle, or the error saying the surface is of a different
    /// kind.
    pub fn try_bitmap(self) -> (r: Result<u64, DifferentSurfaceKind>)
        ensures
            r == (match self {
                SurfaceKind::Bitmap(h) => Ok::<u64, DifferentSurfaceKind>(h),
                _ => Err(DifferentSurfaceKind),
            }),
    {
        match self {
            SurfaceKind::Bitmap(h) => Ok(h),
            _ => Err(DifferentSurfaceKind),
        }
    }

    /// The pointer to the DIB bits, if this surface is one.
    pub fn di_bits(self) -> (r: Option<u64>)
        ensures
            r == (match self {
                SurfaceKind::DIBits(h) => Some(h),
                _ => None,
            }),
    {
        match self {
            SurfaceKind::DIBits(h) => Some(h),
            _ => None,
        }
    }

    /// The pointer to the DIB bits. The surface must be one.
    pub fn unwrap_di_bits(self) -> (r: u64)
        requires
            self is DIBits,
        ensures
            self == SurfaceKind::DIBits(r),
    {
        match self {
            SurfaceKind::DIBits(h) => h,
            _ => unreached(),
        }
    }

    /// The pointer to the DIB bits, or the error saying the surface is of a
    /// different kind.
    pub fn try_di_bits(self) -> (r: Result<u64, DifferentSurfaceKind>)
        ensures
            r == (match self {
                SurfaceKind::DIBits(h) => Ok::<u64, DifferentSurfaceKind>(h),
                _ => Err(DifferentSurfaceKind),
            }),
    {
        match self {
            SurfaceKind::DIBits(h) => Ok(h),
            _ => Err(DifferentSurfaceKind),
        }
    }
}

} // verus!
