//! Unix (X11) specific declarations for the AWT native interface.

use vstd::prelude::*;

use crate::dsi::DrawingSurfaceInfo;

verus! {

/// The X11 platform information embedded in a drawing surface info: the
/// drawable, the display connection, the visual and colormap identifiers, the
/// depth, and the optional colour-lookup entry point that later interface
/// versions provide.
#[derive(Debug, Clone, Copy)]
pub struct X11DrawingSurfaceInfo {
    /// The drawable identifier of the surface.
    pub drawable: u64,
    /// The display connection the drawable lives on.
    pub display: u64,
    /// The visual identifier.
    pub visual_id: u64,
    /// The colormap identifier.
    pub colormap_id: u64,
    /// The depth of the drawable.
    pub depth: i32,
    /// The colour-lookup entry point, when the interface version provides it.
    pub get_awt_color: Option<u64>,
}

/// Why no window could be produced for a drawable: either the X11 library
/// could not be opened at all, or the connection works but the drawable is
/// some other kind of drawable than a window. Callers may recover differently
/// from the two, so they are never conflated.
#[derive(Debug, Clone, Copy, PartialEq, Eq, Structural)]
pub enum WindowRetrievalError {
    /// The X11 library could not be opened.
    XlibOpenFailed,
    /// The drawable exists but is not a window.
    DrawableIsNotWindow(u64),
}

impl WindowRetrievalError {
    /// A description of this error.
    pub fn message(&self) -> (r: &'static str)
        ensures
            self is XlibOpenFailed ==> r@ == "failed to open X11"@,
            self is DrawableIsNotWindow ==> r@ == "drawable is not a window"@,
    {
        match self {
            WindowRetrievalError::XlibOpenFailed => "failed to open X11",
            WindowRetrievalError::DrawableIsNotWindow(_) => "drawable is not a window",
        }
    }
}

/// One pending invocation of the native colour-lookup entry point: the
/// resolved function, the drawing surface it belongs to, and the colour
/// components to look up.
#[derive(Debug, Clone, Copy, PartialEq, Eq, Structural)]
pub struct AwtColorQuery {
    /// The colour-lookup entry point to invoke.
    pub fn_id: u64,
    /// The native drawing surface the queried info belongs to.
    pub ds: u64,
    /// The red component.
    pub red: i32,
    /// The green component.
    pub green: i32,
    /// The blue component.
    pub blue: i32,
}

impl X11DrawingSurfaceInfo {
    /// What [X11DrawingSurfaceInfo::window] decides, as a function of the two
    /// probe outcomes.
    pub open spec fn spec_window(self, xlib_opened: bool, attributes_status: i32) -> Result<
        u64,
        WindowRetrievalError,
    > {
        if !xlib_opened {
            Err(WindowRetrievalError::XlibOpenFailed)
        } else if attributes_status == 0 {
            Err(WindowRetrievalError::DrawableIsNotWindow(self.drawable))
        } else {
            Ok(self.drawable)
        }
    }

    /// The drawable identifier of the surface.
    pub fn drawable(&self) -> (r: u64)
        ensures
            r == self.drawable,
    {
        self.drawable
    }

    /// Validates that the drawable is in fact a window and returns it
    /// unchanged. The validation is a live X11 round trip: `xlib_opened` says
    /// whether the X11 library could be opened, and `attributes_status` is
    /// the status the window-attributes query returned for the drawable, zero
    /// meaning the drawable is no window. A failure to open the library and a
    /// drawable of the wrong kind stay two distinguishable errors.
    pub fn window(&self, xlib_opened: bool, attributes_status: i32) -> (r: Result<
        u64,
        WindowRetrievalError,
    >)
        ensures
            r == self.spec_window(xlib_opened, attributes_status),
    {
        if !xlib_opened {
            return Err(WindowRetrievalError::XlibOpenFailed);
        }
        if attributes_status == 0 {
            return Err(WindowRetrievalError::DrawableIsNotWindow(self.drawable));
        }
        Ok(self.drawable)
    }

    /// The display connection the drawable lives on.
    pub fn display(&self) -> (r: u64)
        ensures
            r == self.display,
    {
        self.display
    }

    /// The visual identifier.
    pub fn visual_id(&self) -> (r: u64)
        ensures
            r == self.visual_id,
    {
        self.visual_id
    }

    /// The colormap identifier.
    pub fn colormap_id(&self) -> (r: u64)
        ensures
            r == self.colormap_id,
    {
        self.colormap_id
    }

    /// The depth of the drawable.
    pub fn depth(&self) -> (r: i32)
        ensures
            r == self.depth,
    {
        self.depth
    }

    /// The call that looks up the closest colour the surface can represent:
    /// the colour-lookup entry point, applied to the info's native drawing
    /// surface and the given components. The entry point must be present,
    /// which only interface version 1.4 and later guarantee.
    pub fn get_awt_color<'a>(
        &self,
        dsi: &DrawingSurfaceInfo<'a>,
        red: i32,
        green: i32,
        blue: i32,
    ) -> (r: AwtColorQuery)
        requires
            self.get_awt_color is Some,
        ensures
            r.fn_id == self.get_awt_color.unwrap(),
            r.ds == dsi.spec_ds(),
            r.red == red,
            r.green == green,
            r.blue == blue,
    {
        AwtColorQuery {
            fn_id: self.get_awt_color.unwrap(),
            ds: dsi.ds(),
            red,
            green,
            blue,
        }
    }
}

/// The two failure modes of the window accessor are never conflated, and a
/// valid window always comes back unchanged: with no X11 connection the
/// result is the open failure whatever the drawable looks like; with a
/// connection, a zero attributes status yields the not-a-window error naming
/// the drawable, and any other status yields the drawable itself.
pub proof fn lemma_window_failure_modes_distinct(
    info: X11DrawingSurfaceInfo,
    xlib_opened: bool,
    attributes_status: i32,
)
    ensures
        info.spec_window(xlib_opened, attributes_status) == Err::<u64, WindowRetrievalError>(
            WindowRetrievalError::XlibOpenFailed,
        ) <==> !xlib_opened,
        info.spec_window(xlib_opened, attributes_status) == Err::<u64, WindowRetrievalError>(
            WindowRetrievalError::DrawableIsNotWindow(info.drawable),
        ) <==> (xlib_opened && attributes_status == 0),
        info.spec_window(xlib_opened, attributes_status) == Ok::<u64, WindowRetrievalError>(
            info.drawable,
        ) <==> (xlib_opened && attributes_status != 0),
{
}

} // verus!
