//! The native header set that the raw bindings are generated from: which
//! platform family a build targets, and where each required header lives in
//! the JDK source tree.

use vstd::prelude::*;

verus! {

/// A platform family the native interface distinguishes.
#[derive(Debug, Clone, Copy, PartialEq, Eq, Structural)]
pub enum Platform {
    Windows,
    MacOS,
    Unix,
}

impl Platform {
    /// Decides the platform family from the build-target probes, in the
    /// fixed order the families are distinguished: a Windows target is
    /// Windows whatever else holds, a macOS target is macOS, and every other
    /// target falls back to Unix. `windows` and `macos` are the outcomes of
    /// the target-platform probes of the build.
    pub fn current(windows: bool, macos: bool) -> (r: Self)
        ensures
            windows ==> r == Platform::Windows,
            !windows && macos ==> r == Platform::MacOS,
            !windows && !macos ==> r == Platform::Unix,
    {
        if windows {
            Platform::Windows
        } else if macos {
            Platform::MacOS
        } else {
            Platform::Unix
        }
    }
}

/// One of the four native headers the raw bindings need: the shared and the
/// platform-dependent halves of the JNI and JAWT headers.
#[derive(Debug, Clone, Copy, PartialEq, Eq, Structural)]
pub enum Header {
    Jni,
    JniPlatform,
    Jawt,
    JawtPlatform,
}

impl Header {
    /// What [Header::module] returns for each header.
    pub open spec fn spec_module(self) -> Seq<char> {
        match self {
            Header::Jni | Header::JniPlatform => "java.base"@,
            Header::Jawt | Header::JawtPlatform => "java.desktop"@,
        }
    }

    /// What [Header::platform] returns for each header and platform.
    pub open spec fn spec_platform(self, platform: Platform) -> Seq<char> {
        match (self, platform) {
            (Header::Jni, _) | (Header::Jawt, _) => "share"@,
            (Header::JniPlatform, Platform::Windows) => "windows"@,
            (Header::JniPlatform, _) => "unix"@,
            (Header::JawtPlatform, Platform::Windows) => "windows"@,
            (Header::JawtPlatform, Platform::MacOS) => "macosx"@,
            (Header::JawtPlatform, Platform::Unix) => "unix"@,
        }
    }

    /// What [Header::filename] returns for each header.
    pub open spec fn spec_filename(self) -> Seq<char> {
        match self {
            Header::Jni => "jni.h"@,
            Header::JniPlatform => "jni_md.h"@,
            Header::Jawt => "jawt.h"@,
            Header::JawtPlatform => "jawt_md.h"@,
        }
    }

    /// Every header, in the order they are fetched and generated.
    pub fn all() -> (r: Vec<Header>)
        ensures
            r@ == seq![Header::Jni, Header::JniPlatform, Header::Jawt, Header::JawtPlatform],
    {
        let mut all: Vec<Header> = Vec::new();
        all.push(Header::Jni);
        all.push(Header::JniPlatform);
        all.push(Header::Jawt);
        all.push(Header::JawtPlatform);
        proof {
            assert(all@ =~= seq![
                Header::Jni,
                Header::JniPlatform,
                Header::Jawt,
                Header::JawtPlatform,
            ]);
        }
        all
    }

    /// The JDK module the header belongs to: the JNI headers live in the base
    /// module, the JAWT headers in the desktop module.
    pub fn module(self) -> (r: &'static str)
        ensures
            r@ == self.spec_module(),
    {
        match self {
            Header::Jni | Header::JniPlatform => "java.base",
            Header::Jawt | Header::JawtPlatform => "java.desktop",
        }
    }

    /// The platform directory the header lives in: the shared headers under
    /// `share`, the platform-dependent ones under their platform's name, with
    /// the JNI platform header sharing one `unix` directory for every
    /// Unix-family system, macOS included.
    pub fn platform(self, platform: Platform) -> (r: &'static str)
        ensures
            r@ == self.spec_platform(platform),
    {
        match (self, platform) {
            (Header::Jni, _) | (Header::Jawt, _) => "share",
            (Header::JniPlatform, Platform::Windows) => "windows",
            (Header::JniPlatform, _) => "unix",
            (Header::JawtPlatform, Platform::Windows) => "windows",
            (Header::JawtPlatform, Platform::MacOS) => "macosx",
            (Header::JawtPlatform, Platform::Unix) => "unix",
        }
    }

    /// The header's file name.
    pub fn filename(self) -> (r: &'static str)
        ensures
            r@ == self.spec_filename(),
    {
        match self {
            Header::Jni => "jni.h",
            Header::JniPlatform => "jni_md.h",
            Header::Jawt => "jawt.h",
            Header::JawtPlatform => "jawt_md.h",
        }
    }

    /// Where the downloaded header is written: its file name under the given
    /// destination directory.
    pub fn destination(self, destination_dir: &str) -> (r: String)
        ensures
            r@ == destination_dir@ + "/"@ + self.spec_filename(),
    {
        let mut path = destination_dir.to_owned();
        path.append("/");
        path.append(self.filename());
        path
    }
}

} // verus!
