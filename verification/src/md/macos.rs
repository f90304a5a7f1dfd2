//! macOS specific declarations for the AWT native interface.

use vstd::prelude::*;

verus! {

/// The macOS platform information embedded in a drawing surface info: the
/// surface-layers protocol object. It exposes the rendering layer currently
/// installed on the surface, if any, and the enclosing window's layer, whose
/// content scale and frame a caller copies before attaching its own layer as
/// a sublayer. Installing a layer goes through [SurfaceLayers::set_layer].
#[derive(Debug, Clone, Copy)]
pub struct SurfaceLayers {
    layer: Option<u64>,
    window_layer: u64,
}

impl SurfaceLayers {
    /// The rendering layer currently installed on the surface, if any.
    pub closed spec fn spec_layer(self) -> Option<u64> {
        self.layer
    }

    /// The layer of the enclosing window.
    pub closed spec fn spec_window_layer(self) -> u64 {
        self.window_layer
    }

    /// Wraps the layer state read from the native protocol object.
    pub fn from_raw_parts(layer: Option<u64>, window_layer: u64) -> (r: Self)
        ensures
            r.spec_layer() == layer,
            r.spec_window_layer() == window_layer,
    {
        Self { layer, window_layer }
    }

    /// The rendering layer currently installed on the surface, if any.
    pub fn layer(&self) -> (r: Option<u64>)
        ensures
            r == self.spec_layer(),
    {
        self.layer
    }

    /// Installs the given layer as the surface's rendering layer, or removes
    /// the installed one. The window's layer is untouched.
    pub fn set_layer(&mut self, layer: Option<u64>)
        ensures
            final(self).spec_layer() == layer,
            final(self).spec_window_layer() == old(self).spec_window_layer(),
    {
        self.layer = layer;
    }

    /// The layer of the enclosing window, used to match content scale and
    /// frame.
    pub fn window_layer(&self) -> (r: u64)
        ensures
            r == self.spec_window_layer(),
    {
        self.window_layer
    }
}

} // verus!
