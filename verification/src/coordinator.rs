//! The build coordinator: the per-library decisions taken before and after
//! the toolchain runs. It fixes the link mode, resolves where the source
//! tree comes from (a local override takes precedence over acquisition),
//! assembles the build configuration, and emits the linker directives the
//! host prints for its build tool.

use vstd::prelude::*;
use crate::acquire::{opt_view, SourceOrigin};
use crate::config::{Arch, BuildConfig, LinkMode, Platform};
use crate::errors::{ArtifactKind, BuildError};
use crate::pathname::{file_name, file_name_of, spec_starts_with, starts_with, str_views};

verus! {

/// The interpreter that runs the project converter: the caller's override
/// when one is supplied, the conventional executable name otherwise.
pub open spec fn spec_interpreter(override_exec: Option<Seq<char>>) -> Seq<char> {
    match override_exec {
        Some(p) => p,
        None => "python.exe"@,
    }
}

/// Pick the interpreter executable, honouring the override.
pub fn interpreter_executable(override_exec: Option<String>) -> (r: String)
    ensures
        r@ == spec_interpreter(opt_view(override_exec)),
{
    match override_exec {
        Some(p) => p,
        None => String::from_str("python.exe"),
    }
}

/// Resolve where the source tree comes from: a supplied local override is
/// used as given and takes precedence; otherwise the default root is owned
/// by acquisition.
pub fn resolve_source_root(override_path: Option<String>, default_root: String) -> (r: (
    String,
    SourceOrigin,
))
    ensures
        override_path matches Some(p) ==> r.0 == p && r.1 == SourceOrigin::LocalOverride,
        override_path is None ==> r.0 == default_root && r.1 == SourceOrigin::Fetched,
{
    match override_path {
        Some(p) => (p, SourceOrigin::LocalOverride),
        None => (default_root, SourceOrigin::Fetched),
    }
}

/// Assemble the configuration of one build invocation. The library's name is
/// the last component of its source path.
pub fn make_config(
    platform: Platform,
    arch: Arch,
    link_mode: LinkMode,
    lib_path: String,
    interpreter_override: Option<String>,
) -> (r: BuildConfig)
    ensures
        r.platform == platform,
        r.arch == arch,
        r.link_mode == link_mode,
        r.lib_path == lib_path,
        r.lib_name@ == file_name_of(lib_path@),
        r.python_exec@ == spec_interpreter(opt_view(interpreter_override)),
{
    let lib_name = file_name(lib_path.as_str());
    let python_exec = interpreter_executable(interpreter_override);
    BuildConfig { platform, arch, link_mode, lib_path, lib_name, python_exec }
}

/// The name the linker knows the library by: on POSIX the conventional `lib`
/// prefix of the tree's name is dropped, on Windows it is kept.
pub open spec fn spec_link_name(platform: Platform, lib_name: Seq<char>) -> Seq<char> {
    match platform {
        Platform::Windows => lib_name,
        Platform::Posix => if spec_starts_with(lib_name, "lib"@) {
            lib_name.subrange(3, lib_name.len() as int)
        } else {
            lib_name
        },
    }
}

/// The linker's name for the library.
pub fn link_name(platform: Platform, lib_name: &str) -> (r: String)
    ensures
        r@ == spec_link_name(platform, lib_name@),
{
    proof {
        reveal_strlit("lib");
    }
    match platform {
        Platform::Windows => String::from_str(lib_name),
        Platform::Posix => {
            if starts_with(lib_name, "lib") {
                let n = lib_name.unicode_len();
                String::from_str(lib_name.substring_char(3, n))
            } else {
                String::from_str(lib_name)
            }
        },
    }
}

/// The directive that adds `dir` to the host build tool's native link
/// search path.
pub open spec fn spec_link_search_directive(dir: Seq<char>) -> Seq<char> {
    "cargo:rustc-link-search=native="@ + dir
}

/// Emit the link-search directive for `dir`.
pub fn link_search_directive(dir: &str) -> (r: String)
    ensures
        r@ == spec_link_search_directive(dir@),
{
    let mut out = String::from_str("cargo:rustc-link-search=native=");
    out.append(dir);
    out
}

/// The directive that links `name` in the given mode.
pub open spec fn spec_link_lib_directive(mode: LinkMode, name: Seq<char>) -> Seq<char> {
    match mode {
        LinkMode::Static => "cargo:rustc-link-lib=static="@ + name,
        LinkMode::Dynamic => "cargo:rustc-link-lib=dylib="@ + name,
    }
}

/// Emit the link-lib directive for `name` in the given mode.
pub fn link_lib_directive(mode: LinkMode, name: &str) -> (r: String)
    ensures
        r@ == spec_link_lib_directive(mode, name@),
{
    let mut out = match mode {
        LinkMode::Static => String::from_str("cargo:rustc-link-lib=static="),
        LinkMode::Dynamic => String::from_str("cargo:rustc-link-lib=dylib="),
    };
    out.append(name);
    out
}

/// All link-lib directives of one library: the library itself under its
/// linker name, and, when statically linking on Windows, each transitively
/// required dependency archive too (the library's own static archive does
/// not bundle its dependencies).
pub open spec fn spec_link_lib_directives(
    platform: Platform,
    mode: LinkMode,
    lib_name: Seq<char>,
    static_deps: Seq<Seq<char>>,
) -> Seq<Seq<char>> {
    let own = seq![spec_link_lib_directive(mode, spec_link_name(platform, lib_name))];
    if platform is Windows && mode is Static {
        own + static_deps.map(|i: int, d: Seq<char>| spec_link_lib_directive(LinkMode::Static, d))
    } else {
        own
    }
}

/// Emit the link-lib directives for one library.
pub fn link_lib_directives(
    platform: Platform,
    mode: LinkMode,
    lib_name: &str,
    static_deps: &Vec<String>,
) -> (r: Vec<String>)
    ensures
        str_views(r@) == spec_link_lib_directives(
            platform,
            mode,
            lib_name@,
            str_views(static_deps@),
        ),
{
    let mut out: Vec<String> = Vec::new();
    let name = link_name(platform, lib_name);
    out.push(link_lib_directive(mode, name.as_str()));
    let emit_deps = match (platform, mode) {
        (Platform::Windows, LinkMode::Static) => true,
        _ => false,
    };
    if emit_deps {
        let mut i: usize = 0;
        while i < static_deps.len()
            invariant
                i <= static_deps@.len(),
                out@.len() == 1 + i,
                out@[0]@ == spec_link_lib_directive(mode, spec_link_name(platform, lib_name@)),
                forall|j: int|
                    0 <= j < i ==> out@[j + 1]@ == spec_link_lib_directive(
                        LinkMode::Static,
                        static_deps@[j]@,
                    ),
            decreases static_deps@.len() - i,
        {
            let d = link_lib_directive(LinkMode::Static, static_deps[i].as_str());
            out.push(d);
            i = i + 1;
        }
    }
    proof {
        assert(str_views(out@) =~~= spec_link_lib_directives(
            platform,
            mode,
            lib_name@,
            str_views(static_deps@),
        ));
    }
    out
}

/// The directives for linking a library dynamically without building it:
/// the override search path, when one is supplied, then the library itself.
pub open spec fn spec_dynamic_link_directives(
    override_path: Option<Seq<char>>,
    platform: Platform,
    lib_name: Seq<char>,
) -> Seq<Seq<char>> {
    let own = seq![spec_link_lib_directive(LinkMode::Dynamic, spec_link_name(platform, lib_name))];
    match override_path {
        Some(p) => seq![spec_link_search_directive(p)] + own,
        None => own,
    }
}

/// Decide the directives for a dynamic link against an already-built
/// library. A supplied override search path must exist, as observed by the
/// host (`override_exists`); a missing one is a missing artifact, not a
/// directive pointing nowhere. Without an override the library is resolved
/// from the system's own search path.
pub fn dynamic_link_directives(
    override_path: Option<String>,
    override_exists: bool,
    platform: Platform,
    lib_name: &str,
) -> (r: Result<Vec<String>, BuildError>)
    ensures
        (r is Ok) == (override_path is None || override_exists),
        r matches Ok(v) ==> str_views(v@) == spec_dynamic_link_directives(
            opt_view(override_path),
            platform,
            lib_name@,
        ),
        r matches Err(e) ==> e == BuildError::MissingArtifact(ArtifactKind::LibraryDir),
{
    let mut out: Vec<String> = Vec::new();
    match override_path {
        Some(p) => {
            if !override_exists {
                return Err(BuildError::MissingArtifact(ArtifactKind::LibraryDir));
            }
            out.push(link_search_directive(p.as_str()));
        },
        None => {},
    }
    let name = link_name(platform, lib_name);
    out.push(link_lib_directive(LinkMode::Dynamic, name.as_str()));
    proof {
        assert(str_views(out@) =~~= spec_dynamic_link_directives(
            opt_view(override_path),
            platform,
            lib_name@,
        ));
    }
    Ok(out)
}

/// The fixed, versioned URL the NTFS-parsing library's source archive is
/// fetched from.
pub open spec fn spec_ntfs_archive_url() -> Seq<char> {
    "https://github.com/libyal/libfsntfs/releases/download/20190104/libfsntfs-experimental-20190104.tar.gz"@
}

/// The fixed archive URL of the NTFS-parsing library.
pub fn ntfs_archive_url() -> (r: String)
    ensures
        r@ == spec_ntfs_archive_url(),
{
    String::from_str(
        "https://github.com/libyal/libfsntfs/releases/download/20190104/libfsntfs-experimental-20190104.tar.gz",
    )
}

/// The directory name the NTFS-parsing library's archive extracts to.
pub open spec fn spec_ntfs_expected_dir() -> Seq<char> {
    "libfsntfs-20190104"@
}

/// The expected extracted-tree name of the NTFS-parsing library.
pub fn ntfs_expected_dir() -> (r: String)
    ensures
        r@ == spec_ntfs_expected_dir(),
{
    String::from_str("libfsntfs-20190104")
}

} // verus!
