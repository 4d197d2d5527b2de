//! The artifact locator: the correctness gate after a build.
//!
//! A single, platform-and-mode-specific expected path is computed for the
//! link-search directory and for the include directory; there is no search
//! and no fallback. Each must exist, as observed by the host: a native build
//! that silently produced nothing must not proceed to binding generation
//! against stale or partial artifacts.

use vstd::prelude::*;
use crate::config::{BuildConfig, Platform};
use crate::errors::{ArtifactKind, BuildError};
use crate::pathname::{join, spec_join};
use crate::toolchain::{spec_prefix_dir, spec_tool_platform};

verus! {

/// The filesystem locations a successful build must have produced.
#[derive(Debug)]
pub struct BuildArtifacts {
    /// The directory the linker must search for the produced library.
    pub lib_dir: String,
    /// The directory holding the public headers, handed to binding
    /// generation.
    pub include_dir: String,
}

/// Where the built library must lie: under the install prefix on POSIX,
/// under the converted project's release directory on Windows.
pub open spec fn spec_lib_dir(cfg: BuildConfig) -> Seq<char> {
    match cfg.platform {
        Platform::Posix => spec_join(Platform::Posix, spec_prefix_dir(cfg), "lib"@),
        Platform::Windows => spec_join(
            Platform::Windows,
            spec_join(
                Platform::Windows,
                spec_join(Platform::Windows, cfg.lib_path@, "vs2015"@),
                "Release"@,
            ),
            spec_tool_platform(cfg.arch),
        ),
    }
}

/// Where the public headers must lie: under the install prefix on POSIX,
/// directly under the source tree on Windows.
pub open spec fn spec_include_dir(cfg: BuildConfig) -> Seq<char> {
    match cfg.platform {
        Platform::Posix => spec_join(Platform::Posix, spec_prefix_dir(cfg), "include"@),
        Platform::Windows => spec_join(Platform::Windows, cfg.lib_path@, "include"@),
    }
}

/// The expected link-search directory for this build.
pub fn expected_lib_dir(cfg: &BuildConfig) -> (r: String)
    ensures
        r@ == spec_lib_dir(*cfg),
{
    match cfg.platform {
        Platform::Posix => {
            let prefix = join(Platform::Posix, cfg.lib_path.as_str(), "dist");
            join(Platform::Posix, prefix.as_str(), "lib")
        },
        Platform::Windows => {
            let a = join(Platform::Windows, cfg.lib_path.as_str(), "vs2015");
            let b = join(Platform::Windows, a.as_str(), "Release");
            match cfg.arch {
                crate::config::Arch::X64 => join(Platform::Windows, b.as_str(), "x64"),
                crate::config::Arch::Win32 => join(Platform::Windows, b.as_str(), "Win32"),
            }
        },
    }
}

/// The expected include directory for this build.
pub fn expected_include_dir(cfg: &BuildConfig) -> (r: String)
    ensures
        r@ == spec_include_dir(*cfg),
{
    match cfg.platform {
        Platform::Posix => {
            let prefix = join(Platform::Posix, cfg.lib_path.as_str(), "dist");
            join(Platform::Posix, prefix.as_str(), "include")
        },
        Platform::Windows => join(Platform::Windows, cfg.lib_path.as_str(), "include"),
    }
}

/// Validate the build's artifacts. `lib_dir_exists` and `include_dir_exists`
/// are the host's observations of the two expected paths. A missing library
/// directory is reported first; a build may not proceed past either absence.
pub fn locate_artifacts(cfg: &BuildConfig, lib_dir_exists: bool, include_dir_exists: bool) -> (r:
    Result<BuildArtifacts, BuildError>)
    ensures
        (r is Ok) == (lib_dir_exists && include_dir_exists),
        r matches Ok(a) ==> a.lib_dir@ == spec_lib_dir(*cfg) && a.include_dir@
            == spec_include_dir(*cfg),
        !lib_dir_exists ==> r == Err::<BuildArtifacts, BuildError>(
            BuildError::MissingArtifact(ArtifactKind::LibraryDir),
        ),
        lib_dir_exists && !include_dir_exists ==> r == Err::<BuildArtifacts, BuildError>(
            BuildError::MissingArtifact(ArtifactKind::IncludeDir),
        ),
{
    if !lib_dir_exists {
        Err(BuildError::MissingArtifact(ArtifactKind::LibraryDir))
    } else if !include_dir_exists {
        Err(BuildError::MissingArtifact(ArtifactKind::IncludeDir))
    } else {
        Ok(BuildArtifacts {
            lib_dir: expected_lib_dir(cfg),
            include_dir: expected_include_dir(cfg),
        })
    }
}

} // verus!
