//! Implements the [AwtVersion] struct.

use vstd::prelude::*;

verus! {

/// Version constant for JAWT 1.3, as the native headers define it.
pub const JAWT_VERSION_1_3: i32 = 0x00010003;

/// Version constant for JAWT 1.4, as the native headers define it.
pub const JAWT_VERSION_1_4: i32 = 0x00010004;

/// Version constant for JAWT 1.7, as the native headers define it.
pub const JAWT_VERSION_1_7: i32 = 0x00010007;

/// Version constant for JAWT 9, as the native headers define it.
pub const JAWT_VERSION_9: i32 = 0x00090000;

/// Flag requesting the layer-backed rendering model on macOS, as the native
/// headers define it: the most significant bit of the requested version.
pub const JAWT_MACOSX_USE_CALAYER: i32 = -2147483648;

/// Structure that represents a version of the AWT function table. Specifying
/// an earlier version limits the entry points the JVM fills in.
#[derive(Debug, Clone, Copy, PartialEq, Eq, Structural, PartialOrd, Ord, Hash)]
pub struct AwtVersion(pub(crate) i32);

impl AwtVersion {
    /// The underlying integer value.
    pub closed spec fn spec_inner(self) -> i32 {
        self.0
    }

    /// Constructs an [AwtVersion] from an integer value. The caller should
    /// verify the value before calling this function.
    pub fn from_raw(value: i32) -> (v: Self)
        ensures
            v.spec_inner() == value,
    {
        Self(value)
    }

    /// Returns the underlying integer value of the given [AwtVersion].
    pub fn inner(self) -> (r: i32)
        ensures
            r == self.spec_inner(),
    {
        self.0
    }

    /// The version to request for the layer-backed rendering model on macOS:
    /// this version with the layer flag set. Interface versions before 1.7
    /// must be requested this way or the JVM reports failure, to keep
    /// applications of the older rendering models away; from 1.7 on the
    /// layer-backed model is the only one and the flag is implied.
    pub fn with_ca_layer(self) -> (v: Self)
        ensures
            v.spec_inner() == self.spec_inner() | JAWT_MACOSX_USE_CALAYER,
    {
        Self(self.0 | JAWT_MACOSX_USE_CALAYER)
    }

    /// JAWT version 1.3.
    pub fn version_1_3() -> (v: Self)
        ensures
            v.spec_inner() == JAWT_VERSION_1_3,
    {
        Self(JAWT_VERSION_1_3)
    }

    /// JAWT version 1.4.
    pub fn version_1_4() -> (v: Self)
        ensures
            v.spec_inner() == JAWT_VERSION_1_4,
    {
        Self(JAWT_VERSION_1_4)
    }

    /// JAWT version 1.7.
    pub fn version_1_7() -> (v: Self)
        ensures
            v.spec_inner() == JAWT_VERSION_1_7,
    {
        Self(JAWT_VERSION_1_7)
    }

    /// JAWT version 9.
    pub fn version_9() -> (v: Self)
        ensures
            v.spec_inner() == JAWT_VERSION_9,
    {
        Self(JAWT_VERSION_9)
    }
}

} // verus!
