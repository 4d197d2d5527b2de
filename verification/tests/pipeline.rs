use common_build::acquire::{finish_acquire, plan_acquire, AcquirePlan, SourceOrigin};
use common_build::artifacts::{expected_include_dir, expected_lib_dir, locate_artifacts};
use common_build::config::{Arch, BuildConfig, LinkMode, Platform};
use common_build::coordinator::{
    dynamic_link_directives, interpreter_executable, link_lib_directive, link_lib_directives,
    link_search_directive, make_config, ntfs_archive_url, ntfs_expected_dir, resolve_source_root,
};
use common_build::errors::{ArtifactKind, BuildError, SpawnErrorKind};
use common_build::toolchain::{
    arch_for_target, plan, step_action, Pipeline, Step, StepAction, StepOutcome,
};

fn posix_static_config(lib_path: &str) -> BuildConfig {
    make_config(
        Platform::Posix,
        Arch::X64,
        LinkMode::Static,
        lib_path.to_string(),
        None,
    )
}

fn windows_config(mode: LinkMode, lib_path: &str, python: Option<&str>) -> BuildConfig {
    make_config(
        Platform::Windows,
        Arch::X64,
        mode,
        lib_path.to_string(),
        python.map(|p| p.to_string()),
    )
}

#[test]
fn empty_workdir_plans_fetch_of_fixed_url_then_reuses_tree() {
    let url = ntfs_archive_url();
    let dir = ntfs_expected_dir();

    // First invocation: nothing extracted yet, so the fixed URL is fetched.
    let first = plan_acquire(None, "work", url.as_str(), dir.as_str(), false, Platform::Posix);
    match first {
        AcquirePlan::FetchAndExtract { url: u, expected_path } => {
            assert_eq!(
                u,
                "https://github.com/libyal/libfsntfs/releases/download/20190104/libfsntfs-experimental-20190104.tar.gz"
            );
            assert_eq!(expected_path, "work/libfsntfs-20190104");
            let got = finish_acquire(expected_path, true).unwrap();
            assert_eq!(got, "work/libfsntfs-20190104");
        }
        _ => panic!("expected a fetch for an empty working directory"),
    }

    // Second invocation with the tree present: reused, zero network calls.
    let second = plan_acquire(None, "work", url.as_str(), dir.as_str(), true, Platform::Posix);
    match second {
        AcquirePlan::UseExisting(p) => assert_eq!(p, "work/libfsntfs-20190104"),
        _ => panic!("a present tree must be reused without a fetch"),
    }
}

#[test]
fn extraction_that_leaves_no_tree_is_source_unavailable() {
    let r = finish_acquire("work/libfsntfs-20190104".to_string(), false);
    assert_eq!(r, Err(BuildError::SourceUnavailable));
}

#[test]
fn local_override_skips_fetch_and_drives_static_posix_pipeline() {
    // Local override path supplied, static build.
    let url = ntfs_archive_url();
    let planned = plan_acquire(
        Some("/opt/libbfio".to_string()),
        "work",
        url.as_str(),
        "libbfio",
        false,
        Platform::Posix,
    );
    match planned {
        AcquirePlan::UseLocal(p) => assert_eq!(p, "/opt/libbfio"),
        _ => panic!("an override must be used directly, with no fetch"),
    }

    let cfg = posix_static_config("/opt/libbfio");
    assert_eq!(cfg.lib_name, "libbfio");

    // The POSIX pipeline configures with --enable-shared=no.
    let action = step_action(Step::Configure, &cfg);
    match action {
        StepAction::Run(c) => {
            assert_eq!(c.program, "sh");
            assert_eq!(
                c.args,
                vec![
                    "configure".to_string(),
                    "--prefix=/opt/libbfio/dist".to_string(),
                    "--enable-shared=no".to_string()
                ]
            );
            assert_eq!(c.current_dir, "/opt/libbfio");
            assert!(c.env.is_empty());
        }
        _ => panic!("configure must be a plain command"),
    }

    // On success the header directory is under the install prefix.
    let headers = expected_include_dir(&cfg);
    assert_eq!(headers, "/opt/libbfio/dist/include");
}

#[test]
fn shared_posix_configure_omits_the_static_flag() {
    let cfg = make_config(
        Platform::Posix,
        Arch::X64,
        LinkMode::Dynamic,
        "/src/libbfio".to_string(),
        None,
    );
    match step_action(Step::Configure, &cfg) {
        StepAction::Run(c) => {
            assert_eq!(
                c.args,
                vec!["configure".to_string(), "--prefix=/src/libbfio/dist".to_string()]
            );
        }
        _ => panic!("configure must be a plain command"),
    }
}

#[test]
fn posix_plan_runs_in_strict_order() {
    let steps = plan(Platform::Posix);
    assert_eq!(
        steps,
        vec![Step::SyncDeps, Step::Autogen, Step::Configure, Step::Compile, Step::Install]
    );
    let steps = plan(Platform::Windows);
    assert_eq!(
        steps,
        vec![
            Step::SyncDeps,
            Step::Autogen,
            Step::RemoveStaleProject,
            Step::ConvertProject,
            Step::InvokeBuildTool
        ]
    );
}

#[test]
fn failed_compile_aborts_before_install() {
    let mut p = Pipeline::new(Platform::Posix);
    assert_eq!(p.current_step(), Some(Step::SyncDeps));
    p.record(StepOutcome::Exited(true));
    assert_eq!(p.current_step(), Some(Step::Autogen));
    p.record(StepOutcome::Exited(true));
    assert_eq!(p.current_step(), Some(Step::Configure));
    p.record(StepOutcome::Exited(true));
    assert_eq!(p.current_step(), Some(Step::Compile));

    // The compile step exits non-zero: the pipeline aborts.
    p.record(StepOutcome::Exited(false));
    assert_eq!(p.failure(), Some(BuildError::ProcessExitFailure(Step::Compile)));
    assert_eq!(p.current_step(), None);
    assert!(!p.is_done());

    // Whatever is reported later, the install step is never issued.
    p.record(StepOutcome::Exited(true));
    assert_eq!(p.current_step(), None);
    assert_eq!(p.failure(), Some(BuildError::ProcessExitFailure(Step::Compile)));
}

#[test]
fn all_steps_succeeding_completes_the_pipeline() {
    let mut p = Pipeline::new(Platform::Posix);
    for _ in 0..5 {
        assert!(p.current_step().is_some());
        p.record(StepOutcome::Exited(true));
    }
    assert!(p.is_done());
    assert_eq!(p.current_step(), None);
    assert_eq!(p.failure(), None);
}

#[test]
fn stale_project_removal_failure_is_ignored() {
    let mut p = Pipeline::new(Platform::Windows);
    p.record(StepOutcome::Exited(true));
    p.record(StepOutcome::Exited(true));
    assert_eq!(p.current_step(), Some(Step::RemoveStaleProject));
    // The directory may legitimately not exist; the pipeline advances anyway.
    p.record(StepOutcome::Exited(false));
    assert_eq!(p.failure(), None);
    assert_eq!(p.current_step(), Some(Step::ConvertProject));
}

#[test]
fn interpreter_not_found_is_a_distinct_actionable_failure() {
    let mut p = Pipeline::new(Platform::Windows);
    p.record(StepOutcome::Exited(true));
    p.record(StepOutcome::Exited(true));
    p.record(StepOutcome::Exited(true));
    assert_eq!(p.current_step(), Some(Step::ConvertProject));
    p.record(StepOutcome::SpawnFailed(SpawnErrorKind::NotFound));
    let err = p.failure().unwrap();
    assert_eq!(
        err,
        BuildError::ProcessSpawnFailure(Step::ConvertProject, SpawnErrorKind::NotFound)
    );
    assert_eq!(
        err.message(),
        "could not start the interpreter; set the interpreter override to a working executable"
    );
    // A generic exit failure reads differently.
    assert_eq!(
        BuildError::ProcessExitFailure(Step::ConvertProject).message(),
        "an external build step exited with a failure status"
    );
}

#[test]
fn windows_convert_and_build_tool_commands_are_exact() {
    let cfg = windows_config(LinkMode::Static, "C:\\src\\libbfio", Some("py.exe"));
    assert_eq!(cfg.lib_name, "libbfio");
    assert_eq!(cfg.python_exec, "py.exe");

    match step_action(Step::RemoveStaleProject, &cfg) {
        StepAction::RemoveDir(d) => assert_eq!(d, "C:\\src\\libbfio\\vs2015"),
        _ => panic!("stale project removal is a directory removal"),
    }

    match step_action(Step::ConvertProject, &cfg) {
        StepAction::Run(c) => {
            assert_eq!(c.program, "py.exe");
            assert_eq!(
                c.args,
                vec![
                    "..\\..\\vstools\\scripts\\msvscpp-convert.py".to_string(),
                    "--extend-with-x64".to_string(),
                    "--output-format".to_string(),
                    "2015".to_string(),
                    "msvscpp\\libbfio.sln".to_string()
                ]
            );
            assert_eq!(c.env, vec![("PYTHONPATH".to_string(), "..\\..\\vstools".to_string())]);
        }
        _ => panic!("conversion must be a plain command"),
    }

    match step_action(Step::InvokeBuildTool, &cfg) {
        StepAction::RunBuildTool(c) => {
            assert_eq!(c.program, "msbuild");
            assert_eq!(
                c.args,
                vec![
                    "vs2015\\libbfio.sln".to_string(),
                    "/p:PlatformToolset=v141".to_string(),
                    "/p:Platform=x64".to_string(),
                    "/p:ConfigurationType=StaticLibrary".to_string()
                ]
            );
        }
        _ => panic!("the build tool is resolved by the host"),
    }

    // A shared build passes no configuration-type flag.
    let shared = windows_config(LinkMode::Dynamic, "C:\\src\\libbfio", None);
    assert_eq!(shared.python_exec, "python.exe");
    match step_action(Step::InvokeBuildTool, &shared) {
        StepAction::RunBuildTool(c) => {
            assert_eq!(
                c.args,
                vec![
                    "vs2015\\libbfio.sln".to_string(),
                    "/p:PlatformToolset=v141".to_string(),
                    "/p:Platform=x64".to_string()
                ]
            );
        }
        _ => panic!("the build tool is resolved by the host"),
    }
}

#[test]
fn build_tool_architecture_follows_the_target_triple() {
    assert_eq!(arch_for_target("x86_64-pc-windows-msvc"), Arch::X64);
    assert_eq!(arch_for_target("i686-pc-windows-msvc"), Arch::Win32);
    let cfg = make_config(
        Platform::Windows,
        arch_for_target("i686-pc-windows-msvc"),
        LinkMode::Dynamic,
        "C:\\src\\libbfio".to_string(),
        None,
    );
    match step_action(Step::InvokeBuildTool, &cfg) {
        StepAction::RunBuildTool(c) => {
            assert!(c.args.contains(&"/p:Platform=Win32".to_string()));
        }
        _ => panic!("the build tool is resolved by the host"),
    }
}

#[test]
fn missing_lib_dir_is_a_missing_artifact() {
    // An override path lacking a lib subdirectory must fail, not proceed.
    let cfg = posix_static_config("/opt/libfsntfs");
    let r = locate_artifacts(&cfg, false, true);
    assert_eq!(r.unwrap_err(), BuildError::MissingArtifact(ArtifactKind::LibraryDir));
    let r = locate_artifacts(&cfg, true, false);
    assert_eq!(r.unwrap_err(), BuildError::MissingArtifact(ArtifactKind::IncludeDir));
    let a = locate_artifacts(&cfg, true, true).unwrap();
    assert_eq!(a.lib_dir, "/opt/libfsntfs/dist/lib");
    assert_eq!(a.include_dir, "/opt/libfsntfs/dist/include");
}

#[test]
fn windows_artifacts_lie_under_the_release_directory() {
    let cfg = windows_config(LinkMode::Static, "C:\\src\\libbfio", None);
    assert_eq!(expected_lib_dir(&cfg), "C:\\src\\libbfio\\vs2015\\Release\\x64");
    assert_eq!(expected_include_dir(&cfg), "C:\\src\\libbfio\\include");
}

#[test]
fn linker_directives_name_the_library_and_windows_static_deps() {
    let deps = vec![
        "libcerror".to_string(),
        "libcdata".to_string(),
        "libcthreads".to_string(),
    ];

    // POSIX drops the lib prefix and never needs the dependency archives.
    let posix = link_lib_directives(Platform::Posix, LinkMode::Static, "libbfio", &deps);
    assert_eq!(posix, vec!["cargo:rustc-link-lib=static=bfio".to_string()]);
    let posix_dyn = link_lib_directives(Platform::Posix, LinkMode::Dynamic, "libbfio", &deps);
    assert_eq!(posix_dyn, vec!["cargo:rustc-link-lib=dylib=bfio".to_string()]);

    // Windows keeps the prefix and statically links the dependencies too.
    let win = link_lib_directives(Platform::Windows, LinkMode::Static, "libbfio", &deps);
    assert_eq!(
        win,
        vec![
            "cargo:rustc-link-lib=static=libbfio".to_string(),
            "cargo:rustc-link-lib=static=libcerror".to_string(),
            "cargo:rustc-link-lib=static=libcdata".to_string(),
            "cargo:rustc-link-lib=static=libcthreads".to_string()
        ]
    );
    let win_dyn = link_lib_directives(Platform::Windows, LinkMode::Dynamic, "libbfio", &deps);
    assert_eq!(win_dyn, vec!["cargo:rustc-link-lib=dylib=libbfio".to_string()]);

    assert_eq!(
        link_search_directive("/opt/libbfio/dist/lib"),
        "cargo:rustc-link-search=native=/opt/libbfio/dist/lib"
    );
    assert_eq!(
        link_lib_directive(LinkMode::Static, "fsntfs"),
        "cargo:rustc-link-lib=static=fsntfs"
    );
}

#[test]
fn source_resolution_prefers_the_override() {
    let (root, origin) =
        resolve_source_root(Some("/opt/libbfio".to_string()), "work/libbfio".to_string());
    assert_eq!(root, "/opt/libbfio");
    assert_eq!(origin, SourceOrigin::LocalOverride);

    let (root, origin) = resolve_source_root(None, "work/libbfio".to_string());
    assert_eq!(root, "work/libbfio");
    assert_eq!(origin, SourceOrigin::Fetched);
}

#[test]
fn dynamic_override_must_exist_before_it_is_emitted() {
    // An override lacking the library is a missing artifact, not a directive.
    let r = dynamic_link_directives(
        Some("/opt/libfsntfs/lib".to_string()),
        false,
        Platform::Posix,
        "libfsntfs",
    );
    assert_eq!(r, Err(BuildError::MissingArtifact(ArtifactKind::LibraryDir)));

    let r = dynamic_link_directives(
        Some("/opt/libfsntfs/lib".to_string()),
        true,
        Platform::Posix,
        "libfsntfs",
    )
    .unwrap();
    assert_eq!(
        r,
        vec![
            "cargo:rustc-link-search=native=/opt/libfsntfs/lib".to_string(),
            "cargo:rustc-link-lib=dylib=fsntfs".to_string()
        ]
    );

    // Without an override the system search path is trusted as is.
    let r = dynamic_link_directives(None, false, Platform::Posix, "libfsntfs").unwrap();
    assert_eq!(r, vec!["cargo:rustc-link-lib=dylib=fsntfs".to_string()]);
}

#[test]
fn interpreter_override_is_honoured() {
    assert_eq!(interpreter_executable(None), "python.exe");
    assert_eq!(interpreter_executable(Some("py3".to_string())), "py3");
}
