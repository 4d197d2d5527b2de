//! The parameters governing a single build invocation.

use vstd::prelude::*;

verus! {

/// The platform family whose toolchain pipeline is driven.
#[derive(Clone, Copy, Debug, PartialEq, Eq, Structural)]
pub enum Platform {
    /// Autotools and make, driven through a POSIX shell.
    Posix,
    /// The vstools project converter and the platform build tool.
    Windows,
}

/// The architecture the platform build tool is invoked for.
#[derive(Clone, Copy, Debug, PartialEq, Eq, Structural)]
pub enum Arch {
    X64,
    Win32,
}

/// Static linking embeds the archive in the consumer binary; dynamic linking
/// resolves a shared library at load time.
#[derive(Clone, Copy, Debug, PartialEq, Eq, Structural)]
pub enum LinkMode {
    Static,
    Dynamic,
}

/// Everything one build invocation needs to know. Assembled once at the top
/// level; no component reads process-wide state itself.
pub struct BuildConfig {
    /// Platform family of the host toolchain.
    pub platform: Platform,
    /// Architecture the build tool targets (meaningful on Windows).
    pub arch: Arch,
    /// Link mode, fixed for the duration of one build.
    pub link_mode: LinkMode,
    /// Root of the library's source tree.
    pub lib_path: String,
    /// Name of the library, the last component of `lib_path`.
    pub lib_name: String,
    /// Executable name of the interpreter that runs the project converter.
    pub python_exec: String,
}

impl BuildConfig {
    /// True when the build produces a shared library.
    pub open spec fn spec_shared(self) -> bool {
        self.link_mode is Dynamic
    }

    pub fn shared(&self) -> (r: bool)
        ensures
            r == self.spec_shared(),
    {
        match self.link_mode {
            LinkMode::Dynamic => true,
            LinkMode::Static => false,
        }
    }
}

} // verus!
