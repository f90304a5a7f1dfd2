//! Cross-platform model of the Java AWT Native Interface (JAWT).
//!
//! Native code embedded in a JVM obtains drawing surfaces for AWT components
//! through a table of function pointers that the JVM fills in. This crate
//! states and verifies the protocol around those entry points: how the table
//! is resolved and cached, how a drawing surface is acquired together with the
//! free function that must later release it, the lock/unlock state machine,
//! the geometry snapshot taken while a surface is locked, and the
//! platform-specific handle views (Win32 GDI objects, macOS layers,
//! X11 drawables). Every native call itself is a foreign, unsafe operation;
//! the embedding layer performs it and hands its result to the functions
//! here, which decide what it means.

mod awt;
mod ds;
mod dsi;
mod headers;
pub mod md;
mod rect;
mod version;

pub use awt::Awt;
pub use awt::AwtCall;
pub use awt::AwtEmbeddedFrame;
pub use awt::JawtTable;
pub use awt::lemma_free_function_captured_at_acquisition;
pub use ds::DrawingSurface;
pub use ds::DrawingSurfaceGuard;
pub use ds::DrawingSurfaceLockResult;
pub use ds::JAWT_LOCK_BOUNDS_CHANGED;
pub use ds::JAWT_LOCK_CLIP_CHANGED;
pub use ds::JAWT_LOCK_ERROR;
pub use ds::JAWT_LOCK_FLAGS_MASK;
pub use ds::JAWT_LOCK_SURFACE_CHANGED;
pub use dsi::DrawingSurfaceInfo;
pub use dsi::DrawingSurfacePlatformInfo;
pub use dsi::RawDrawingSurfaceInfo;
pub use headers::Header;
pub use headers::Platform;
pub use rect::NativeRect;
pub use rect::Rect;
pub use rect::lemma_rect_round_trip;
pub use version::AwtVersion;
pub use version::JAWT_MACOSX_USE_CALAYER;
pub use version::JAWT_VERSION_1_3;
pub use version::JAWT_VERSION_1_4;
pub use version::JAWT_VERSION_1_7;
pub use version::JAWT_VERSION_9;
