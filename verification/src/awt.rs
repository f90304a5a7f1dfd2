//! Implements the [Awt] struct.

use vstd::prelude::*;

use crate::ds::DrawingSurface;
use crate::headers::Platform;
use crate::rect::Rect;
use crate::version::AwtVersion;

verus! {

/// The native AWT function table: the version that was requested and
/// honoured, and the entry points the JVM filled in. Each entry point is the
/// resolved native function, or nothing where the JVM left the slot empty.
#[derive(Debug, Clone, Copy)]
pub struct JawtTable {
    /// The interface version the table was requested with.
    pub version: i32,
    /// Returns the drawing surface of a component.
    pub get_drawing_surface: Option<u64>,
    /// Releases a drawing surface.
    pub free_drawing_surface: Option<u64>,
    /// Locks the entire AWT for synchronization.
    pub lock: Option<u64>,
    /// Unlocks the entire AWT.
    pub unlock: Option<u64>,
    /// Returns the component behind a native platform handle.
    pub get_component: Option<u64>,
    /// Creates a frame embedded in a native container.
    pub create_embedded_frame: Option<u64>,
    /// Moves and resizes an embedded frame.
    pub set_bounds: Option<u64>,
    /// Activates or deactivates an embedded frame window.
    pub synthesize_window_activation: Option<u64>,
}

/// One pending invocation of an entry point of the AWT function table: which
/// resolved native function the embedding layer must call, and with what
/// arguments.
#[derive(Debug, Clone, Copy, PartialEq, Eq, Structural)]
pub enum AwtCall {
    /// Invoke the AWT-wide lock.
    Lock { fn_id: u64 },
    /// Invoke the AWT-wide unlock.
    Unlock { fn_id: u64 },
    /// Ask for the component behind a platform handle.
    GetComponent { fn_id: u64, platform_info: u64 },
    /// Create a frame embedded in the native container behind a platform
    /// handle.
    CreateEmbeddedFrame { fn_id: u64, platform_info: u64 },
    /// Move and resize an embedded frame.
    SetBounds { fn_id: u64, frame: u64, x: i32, y: i32, width: i32, height: i32 },
    /// Activate or deactivate an embedded frame window.
    SynthesizeWindowActivation { fn_id: u64, frame: u64, activate: bool },
}

/// Structure for containing native AWT functions.
#[derive(Debug, Clone)]
pub struct Awt(pub(crate) JawtTable);

impl Awt {
    /// The underlying function table.
    pub closed spec fn table(self) -> JawtTable {
        self.0
    }

    /// What acquiring a drawing surface from this table yields, as a
    /// function of the native handle the get-surface entry point returned.
    pub closed spec fn spec_drawing_surface(self, native_handle: u64) -> Option<DrawingSurface> {
        if native_handle == 0 {
            None
        } else {
            Some(
                DrawingSurface::spec_from_raw_parts(
                    native_handle,
                    self.0.free_drawing_surface.unwrap(),
                ),
            )
        }
    }

    /// Construct a safe [Awt] instance from a raw [JawtTable] instance. The
    /// table must have been filled in by the native entry-point getter.
    pub fn from_inner(inner: JawtTable) -> (a: Self)
        ensures
            a.table() == inner,
    {
        Self(inner)
    }

    /// Returns a shared reference to the underlying [JawtTable] instance.
    pub fn as_ref(&self) -> (r: &JawtTable)
        ensures
            *r == self.table(),
    {
        &self.0
    }

    /// Returns a mutable reference to the underlying [JawtTable] instance.
    /// The caller should ensure that the table keeps holding valid entry
    /// points.
    pub fn as_mut(&mut self) -> (r: &mut JawtTable)
        ensures
            *r == old(self).table(),
            final(self).table() == *final(r),
    {
        &mut self.0
    }

    /// Consumes [Awt] and returns the underlying [JawtTable] instance.
    pub fn into_inner(self) -> (r: JawtTable)
        ensures
            r == self.table(),
    {
        self.0
    }

    /// Selects the entry-point getter to use: a getter already cached by an
    /// earlier resolution wins; otherwise the finders are tried in their
    /// fixed order, dynamic lookup through the running JVM first, static
    /// linkage second, and the first that succeeded is taken (and is what an
    /// idempotent cache update must record).
    pub fn find_get_awt(
        cached: Option<u64>,
        dynamic: Option<u64>,
        static_linked: Option<u64>,
    ) -> (r: Option<u64>)
        ensures
            cached is Some ==> r == cached,
            cached is None && dynamic is Some ==> r == dynamic,
            cached is None && dynamic is None ==> r == static_linked,
    {
        if cached.is_some() {
            return cached;
        }
        if dynamic.is_some() {
            return dynamic;
        }
        static_linked
    }

    /// The path of the JAWT library under a Java home directory, as the
    /// dynamic resolution builds it before loading the library and resolving
    /// the entry-point getter from it: the home followed by `\bin\jawt.dll`
    /// on Windows, `/lib/libjawt.dylib` on macOS, and `/lib/libjawt.so` on
    /// every other Unix-family system.
    pub fn jawt_library_path(java_home: &str, platform: Platform) -> (r: String)
        ensures
            r@ == java_home@ + Awt::spec_jawt_library_suffix(platform),
    {
        let mut path = java_home.to_owned();
        match platform {
            Platform::Windows => path.append("\\bin\\jawt.dll"),
            Platform::MacOS => path.append("/lib/libjawt.dylib"),
            Platform::Unix => path.append("/lib/libjawt.so"),
        }
        path
    }

    /// The platform's suffix of the JAWT library path under a Java home.
    pub open spec fn spec_jawt_library_suffix(platform: Platform) -> Seq<char> {
        match platform {
            Platform::Windows => "\\bin\\jawt.dll"@,
            Platform::MacOS => "/lib/libjawt.dylib"@,
            Platform::Unix => "/lib/libjawt.so"@,
        }
    }

    /// The table handed to the entry-point getter: the requested version,
    /// with every entry point still empty for the JVM to fill in.
    pub fn initial_table(version: i32) -> (t: JawtTable)
        ensures
            t.version == version,
            t.get_drawing_surface is None,
            t.free_drawing_surface is None,
            t.lock is None,
            t.unlock is None,
            t.get_component is None,
            t.create_embedded_frame is None,
            t.set_bounds is None,
            t.synthesize_window_activation is None,
    {
        JawtTable {
            version,
            get_drawing_surface: None,
            free_drawing_surface: None,
            lock: None,
            unlock: None,
            get_component: None,
            create_embedded_frame: None,
            set_bounds: None,
            synthesize_window_activation: None,
        }
    }

    /// Decides the outcome of requesting the AWT function table. `get_awt` is
    /// the resolved entry-point getter, if any; `native_success` is the
    /// boolean the getter returned; `filled` is the table as the getter left
    /// it. With no getter, or with the getter reporting failure, there is no
    /// AWT; otherwise the filled table is wrapped as is.
    pub fn from_version_raw(
        get_awt: Option<u64>,
        native_success: bool,
        filled: JawtTable,
    ) -> (r: Option<Awt>)
        ensures
            get_awt is None ==> r is None,
            get_awt is Some && !native_success ==> r is None,
            get_awt is Some && native_success ==> (r matches Some(a) && a.table() == filled),
    {
        if get_awt.is_none() {
            return None;
        }
        if !native_success {
            return None;
        }
        Some(Awt(filled))
    }

    /// Version of this structure.
    pub fn version(&self) -> (v: AwtVersion)
        ensures
            v.spec_inner() == self.table().version,
    {
        AwtVersion::from_raw(self.0.version)
    }

    /// Return a [DrawingSurface] from the handle the native get-surface entry
    /// point returned for a component. A null handle means an error the JVM
    /// has already reported on its own side, and yields no surface. On
    /// success the surface pairs the handle with this table's free-surface
    /// entry point, captured now and not looked up again, so the matching
    /// deallocator is used even if call sites later swap table instances.
    pub fn drawing_surface(&self, native_handle: u64) -> (r: Option<DrawingSurface>)
        requires
            self.table().get_drawing_surface is Some,
            self.table().free_drawing_surface is Some,
        ensures
            r == self.spec_drawing_surface(native_handle),
            native_handle == 0 <==> r is None,
            r matches Some(ds) ==> ds.wf() && ds.spec_handle() == native_handle
                && ds.spec_free_fn() == self.table().free_drawing_surface.unwrap(),
    {
        if native_handle == 0 {
            return None;
        }
        let free = self.0.free_drawing_surface.unwrap();
        Some(DrawingSurface::from_raw_parts(native_handle, free))
    }

    /// The call that locks the entire AWT for synchronization purposes. The
    /// unlock call must follow it. The entry point must be present, which
    /// only interface version 1.4 and later guarantee.
    pub fn lock(&self) -> (r: AwtCall)
        requires
            self.table().lock is Some,
        ensures
            r == (AwtCall::Lock { fn_id: self.table().lock.unwrap() }),
    {
        AwtCall::Lock { fn_id: self.0.lock.unwrap() }
    }

    /// The call that unlocks the entire AWT. The lock call must have come
    /// before it. The entry point must be present, which only interface
    /// version 1.4 and later guarantee.
    pub fn unlock(&self) -> (r: AwtCall)
        requires
            self.table().unlock is Some,
        ensures
            r == (AwtCall::Unlock { fn_id: self.table().unlock.unwrap() }),
    {
        AwtCall::Unlock { fn_id: self.0.unlock.unwrap() }
    }

    /// The call that asks for the component behind a native platform handle:
    /// a window handle on Windows, a drawable on X11. The handle is presumed
    /// valid; nothing validates it, and the native call answers null when no
    /// component matches. The entry point must be present, which only
    /// interface version 1.4 and later guarantee.
    pub fn component_of(&self, platform_info: u64) -> (r: AwtCall)
        requires
            self.table().get_component is Some,
        ensures
            r == (AwtCall::GetComponent {
                fn_id: self.table().get_component.unwrap(),
                platform_info,
            }),
    {
        AwtCall::GetComponent { fn_id: self.0.get_component.unwrap(), platform_info }
    }

    /// The call that creates a frame embedded in the native container behind
    /// the given platform handle; the native call answers null when no frame
    /// could be created, which [AwtEmbeddedFrame::from_inner] then turns into
    /// no value. The entry point must be present, which only interface
    /// version 9 and later guarantee.
    pub fn new_embedded_frame(&self, platform_info: u64) -> (r: AwtCall)
        requires
            self.table().create_embedded_frame is Some,
        ensures
            r == (AwtCall::CreateEmbeddedFrame {
                fn_id: self.table().create_embedded_frame.unwrap(),
                platform_info,
            }),
    {
        AwtCall::CreateEmbeddedFrame { fn_id: self.0.create_embedded_frame.unwrap(), platform_info }
    }

    /// The call that moves and resizes an embedded frame: the new top-left
    /// corner relative to the native parent, and the new size, taken apart
    /// from the given rectangle. The entry point must be present, which only
    /// interface version 9 and later guarantee.
    pub fn set_bounds(&self, embedded_frame: AwtEmbeddedFrame, new_location: Rect) -> (r: AwtCall)
        requires
            self.table().set_bounds is Some,
        ensures
            r == (AwtCall::SetBounds {
                fn_id: self.table().set_bounds.unwrap(),
                frame: embedded_frame.spec_inner(),
                x: new_location.x,
                y: new_location.y,
                width: new_location.width,
                height: new_location.height,
            }),
    {
        AwtCall::SetBounds {
            fn_id: self.0.set_bounds.unwrap(),
            frame: embedded_frame.into_inner(),
            x: new_location.x,
            y: new_location.y,
            width: new_location.width,
            height: new_location.height,
        }
    }

    /// The call that synthesizes a native message activating or deactivating
    /// an embedded frame window: activation when `activate` holds,
    /// deactivation otherwise. The entry point must be present, which only
    /// interface version 9 and later guarantee.
    pub fn synthesize_window_activation(
        &self,
        embedded_frame: AwtEmbeddedFrame,
        activate: bool,
    ) -> (r: AwtCall)
        requires
            self.table().synthesize_window_activation is Some,
        ensures
            r == (AwtCall::SynthesizeWindowActivation {
                fn_id: self.table().synthesize_window_activation.unwrap(),
                frame: embedded_frame.spec_inner(),
                activate,
            }),
    {
        AwtCall::SynthesizeWindowActivation {
            fn_id: self.0.synthesize_window_activation.unwrap(),
            frame: embedded_frame.into_inner(),
            activate,
        }
    }
}

/// A frame placed in a native container, as the create-embedded-frame entry
/// point returned it.
#[derive(Debug, Clone, Copy)]
pub struct AwtEmbeddedFrame {
    inner: u64,
}

impl AwtEmbeddedFrame {
    /// The native reference to the frame object.
    pub closed spec fn spec_inner(self) -> u64 {
        self.inner
    }

    /// Construct a safe [AwtEmbeddedFrame] from the raw object reference the
    /// create-embedded-frame entry point returned: a null reference means no
    /// frame could be created and yields no value.
    pub fn from_inner(inner: u64) -> (r: Option<Self>)
        ensures
            inner == 0 <==> r is None,
            r matches Some(f) ==> f.spec_inner() == inner,
    {
        if inner == 0 {
            return None;
        }
        Some(Self { inner })
    }

    /// Consumes [AwtEmbeddedFrame] and returns the underlying native object
    /// reference.
    pub fn into_inner(self) -> (r: u64)
        ensures
            r == self.spec_inner(),
    {
        self.inner
    }
}

/// The free function a surface is released through is the one captured from
/// its own acquiring table at acquisition time: surfaces acquired from two
/// tables each carry their own table's free entry point, so acquiring from a
/// different table afterwards never changes which deallocator an earlier
/// surface uses.
pub proof fn lemma_free_function_captured_at_acquisition(
    first: Awt,
    later: Awt,
    h1: u64,
    h2: u64,
)
    requires
        first.table().free_drawing_surface is Some,
        later.table().free_drawing_surface is Some,
        h1 != 0,
        h2 != 0,
    ensures
        first.spec_drawing_surface(h1) matches Some(s1) && s1.spec_free_fn()
            == first.table().free_drawing_surface.unwrap(),
        later.spec_drawing_surface(h2) matches Some(s2) && s2.spec_free_fn()
            == later.table().free_drawing_surface.unwrap(),
{
    crate::ds::lemma_from_raw_parts_fields(h1, first.table().free_drawing_surface.unwrap());
    crate::ds::lemma_from_raw_parts_fields(h2, later.table().free_drawing_surface.unwrap());
}

} // verus!
