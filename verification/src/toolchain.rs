//! The toolchain driver: a linear pipeline of external build steps.
//!
//! The pipeline itself is a state machine. The host asks for the current
//! step, performs it (spawns the process, removes the directory), and
//! reports the outcome; the machine decides whether the pipeline advances
//! or aborts. Any failure is terminal: there is no retry and no recovery,
//! native builds not being safely resumable mid-step.

use vstd::prelude::*;
use crate::config::{Arch, BuildConfig, Platform};
use crate::errors::{BuildError, SpawnErrorKind};
use crate::pathname::{contains, spec_contains, spec_join};

verus! {

/// The external steps a toolchain pipeline is made of.
#[derive(Clone, Copy, Debug, PartialEq, Eq, Structural)]
pub enum Step {
    /// Run the dependency-sync script of the source tree.
    SyncDeps,
    /// Run the autogen script of the source tree.
    Autogen,
    /// Run the configure script with prefix and link-mode flags.
    Configure,
    /// Run the compiler driver.
    Compile,
    /// Run the install target.
    Install,
    /// Delete the generated project directory left by a prior run.
    RemoveStaleProject,
    /// Convert the project format with the external interpreter.
    ConvertProject,
    /// Invoke the platform build tool against the converted solution.
    InvokeBuildTool,
}

/// What happened when the host performed one pipeline step.
#[derive(Clone, Copy, Debug, PartialEq, Eq, Structural)]
pub enum StepOutcome {
    /// The tool ran to completion; the payload is true on a zero exit status.
    Exited(bool),
    /// The tool could not be started.
    SpawnFailed(SpawnErrorKind),
}

/// The ordered steps of the pipeline for one platform family. Each step is a
/// precondition for the next; there is no branching back.
pub open spec fn spec_plan(platform: Platform) -> Seq<Step> {
    match platform {
        Platform::Posix => seq![
            Step::SyncDeps,
            Step::Autogen,
            Step::Configure,
            Step::Compile,
            Step::Install,
        ],
        Platform::Windows => seq![
            Step::SyncDeps,
            Step::Autogen,
            Step::RemoveStaleProject,
            Step::ConvertProject,
            Step::InvokeBuildTool,
        ],
    }
}

/// The pipeline plan as a vector, in execution order.
pub fn plan(platform: Platform) -> (r: Vec<Step>)
    ensures
        r@ == spec_plan(platform),
{
    let mut steps: Vec<Step> = Vec::new();
    match platform {
        Platform::Posix => {
            steps.push(Step::SyncDeps);
            steps.push(Step::Autogen);
            steps.push(Step::Configure);
            steps.push(Step::Compile);
            steps.push(Step::Install);
        },
        Platform::Windows => {
            steps.push(Step::SyncDeps);
            steps.push(Step::Autogen);
            steps.push(Step::RemoveStaleProject);
            steps.push(Step::ConvertProject);
            steps.push(Step::InvokeBuildTool);
        },
    }
    proof {
        assert(steps@ =~= spec_plan(platform));
    }
    steps
}

/// The error a step's outcome amounts to, or `None` when the pipeline may
/// advance. Failures of the stale-project removal are ignored: the directory
/// may legitimately not exist.
pub open spec fn spec_step_failure(step: Step, outcome: StepOutcome) -> Option<BuildError> {
    if step is RemoveStaleProject {
        None
    } else {
        match outcome {
            StepOutcome::Exited(true) => None,
            StepOutcome::Exited(false) => Some(BuildError::ProcessExitFailure(step)),
            StepOutcome::SpawnFailed(kind) => Some(BuildError::ProcessSpawnFailure(step, kind)),
        }
    }
}

/// Executable twin of [`spec_step_failure`].
pub fn step_failure(step: Step, outcome: StepOutcome) -> (r: Option<BuildError>)
    ensures
        r == spec_step_failure(step, outcome),
{
    if let Step::RemoveStaleProject = step {
        None
    } else {
        match outcome {
            StepOutcome::Exited(true) => None,
            StepOutcome::Exited(false) => Some(BuildError::ProcessExitFailure(step)),
            StepOutcome::SpawnFailed(kind) => Some(
                BuildError::ProcessSpawnFailure(step, kind),
            ),
        }
    }
}

/// The state of one pipeline run: which step comes next, and whether an
/// earlier step already aborted the run.
pub struct Pipeline {
    /// Platform family, fixing the plan.
    pub platform: Platform,
    /// Index of the next step in the plan.
    pub next: usize,
    /// The failure that aborted the run, if any.
    pub failure: Option<BuildError>,
}

impl Pipeline {
    /// The next index never runs past the plan.
    pub open spec fn wf(self) -> bool {
        self.next <= spec_plan(self.platform).len()
    }

    /// An earlier step failed; the run is over.
    pub open spec fn spec_aborted(self) -> bool {
        self.failure is Some
    }

    /// Every step completed and none failed.
    pub open spec fn spec_done(self) -> bool {
        self.failure is None && self.next == spec_plan(self.platform).len()
    }

    /// The step the host must perform next; `None` once the run is done or
    /// aborted.
    pub open spec fn spec_current(self) -> Option<Step> {
        if self.failure is Some || self.next >= spec_plan(self.platform).len() {
            None
        } else {
            Some(spec_plan(self.platform)[self.next as int])
        }
    }

    /// A fresh pipeline, positioned at the first step of the plan.
    pub fn new(platform: Platform) -> (r: Pipeline)
        ensures
            r == spec_new_pipeline(platform),
            r.platform == platform,
            r.next == 0,
            r.failure is None,
            r.wf(),
            r.spec_current() == Some(spec_plan(platform)[0]),
    {
        Pipeline { platform, next: 0, failure: None }
    }

    /// The step the host must perform next.
    pub fn current_step(&self) -> (r: Option<Step>)
        requires
            self.wf(),
        ensures
            r == self.spec_current(),
    {
        if self.failure.is_some() {
            None
        } else {
            let steps = plan(self.platform);
            if self.next < steps.len() {
                Some(steps[self.next])
            } else {
                None
            }
        }
    }

    /// The failure that aborted the run, if any.
    pub fn failure(&self) -> (r: Option<BuildError>)
        ensures
            r == self.failure,
    {
        self.failure
    }

    /// Whether every step completed.
    pub fn is_done(&self) -> (r: bool)
        ensures
            r == self.spec_done(),
    {
        let steps = plan(self.platform);
        self.failure.is_none() && self.next == steps.len()
    }

    /// Record the outcome of the current step: advance on success, abort on
    /// failure, and do nothing when no step was pending.
    pub fn record(&mut self, outcome: StepOutcome)
        requires
            old(self).wf(),
        ensures
            *final(self) == spec_advance(*old(self), outcome),
            final(self).wf(),
    {
        let current = self.current_step();
        match current {
            None => {},
            Some(step) => {
                match step_failure(step, outcome) {
                    None => {
                        self.next = self.next + 1;
                    },
                    Some(err) => {
                        self.failure = Some(err);
                    },
                }
            },
        }
    }
}

/// One transition of the pipeline state machine.
pub open spec fn spec_advance(p: Pipeline, outcome: StepOutcome) -> Pipeline {
    match p.spec_current() {
        None => p,
        Some(step) => match spec_step_failure(step, outcome) {
            None => Pipeline { platform: p.platform, next: (p.next + 1) as usize, failure: p.failure },
            Some(err) => Pipeline { platform: p.platform, next: p.next, failure: Some(err) },
        },
    }
}

/// The pipeline state after consuming a whole sequence of outcomes.
pub open spec fn spec_run(p: Pipeline, outcomes: Seq<StepOutcome>) -> Pipeline
    decreases outcomes.len(),
{
    if outcomes.len() == 0 {
        p
    } else {
        spec_run(spec_advance(p, outcomes[0]), outcomes.drop_first())
    }
}

/// An aborted pipeline never changes again.
pub proof fn lemma_aborted_stays(p: Pipeline, outcomes: Seq<StepOutcome>)
    requires
        p.spec_aborted(),
    ensures
        spec_run(p, outcomes) == p,
    decreases outcomes.len(),
{
    if outcomes.len() > 0 {
        assert(spec_advance(p, outcomes[0]) == p);
        lemma_aborted_stays(p, outcomes.drop_first());
    }
}

/// Once a step fails, no further step is ever issued: whatever outcomes
/// follow, the current step stays `None`.
pub proof fn lemma_abort_is_final(p: Pipeline, outcomes: Seq<StepOutcome>)
    requires
        p.spec_aborted(),
    ensures
        spec_run(p, outcomes).spec_aborted(),
        forall|i: int|
            0 <= i <= outcomes.len() ==> spec_run(p, outcomes.take(i)).spec_current() is None,
{
    assert forall|i: int| 0 <= i <= outcomes.len() implies spec_run(
        p,
        outcomes.take(i),
    ).spec_current() is None by {
        lemma_aborted_stays(p, outcomes.take(i));
    }
    lemma_aborted_stays(p, outcomes);
}

/// The pipeline a fresh run starts from.
pub open spec fn spec_new_pipeline(platform: Platform) -> Pipeline {
    Pipeline { platform, next: 0, failure: None }
}

/// From a live state, a string of successful outcomes walks the rest of the
/// plan in order and completes it.
proof fn lemma_successes_walk_the_plan(p: Pipeline, outcomes: Seq<StepOutcome>)
    requires
        p.wf(),
        !p.spec_aborted(),
        outcomes.len() == spec_plan(p.platform).len() - p.next,
        forall|i: int| 0 <= i < outcomes.len() ==> outcomes[i] == StepOutcome::Exited(true),
    ensures
        spec_run(p, outcomes).spec_done(),
        forall|i: int|
            0 <= i < outcomes.len() ==> spec_run(p, outcomes.take(i)).spec_current() == Some(
                spec_plan(p.platform)[p.next + i],
            ),
    decreases outcomes.len(),
{
    if outcomes.len() == 0 {
        assert(p.spec_done());
    } else {
        let stepped = spec_advance(p, outcomes[0]);
        assert(p.spec_current() == Some(spec_plan(p.platform)[p.next as int]));
        assert(stepped.next == p.next + 1 && !stepped.spec_aborted());
        lemma_successes_walk_the_plan(stepped, outcomes.drop_first());
        assert forall|i: int|
            0 <= i < outcomes.len() implies spec_run(p, outcomes.take(i)).spec_current() == Some(
            spec_plan(p.platform)[p.next + i],
        ) by {
            if i == 0 {
                assert(spec_run(p, outcomes.take(0)) == p);
            } else {
                assert(outcomes.take(i).drop_first() =~= outcomes.drop_first().take(i - 1));
                assert(spec_run(p, outcomes.take(i)) == spec_run(
                    stepped,
                    outcomes.drop_first().take(i - 1),
                ));
            }
        }
    }
}

/// Strict ordering, the successful direction: a run in which every step
/// exits zero issues exactly the plan's steps, in the plan's order, and
/// completes the pipeline.
pub proof fn lemma_all_success_runs_plan_in_order(platform: Platform, outcomes: Seq<StepOutcome>)
    requires
        outcomes.len() == spec_plan(platform).len(),
        forall|i: int| 0 <= i < outcomes.len() ==> outcomes[i] == StepOutcome::Exited(true),
    ensures
        spec_run(spec_new_pipeline(platform), outcomes).spec_done(),
        forall|i: int|
            0 <= i < outcomes.len() ==> spec_run(
                spec_new_pipeline(platform),
                outcomes.take(i),
            ).spec_current() == Some(spec_plan(platform)[i]),
{
    lemma_successes_walk_the_plan(spec_new_pipeline(platform), outcomes);
}

/// A completed pipeline never changes again and never issues another step.
pub proof fn lemma_done_stays(p: Pipeline, outcomes: Seq<StepOutcome>)
    requires
        p.spec_done(),
    ensures
        spec_run(p, outcomes) == p,
    decreases outcomes.len(),
{
    if outcomes.len() > 0 {
        assert(spec_advance(p, outcomes[0]) == p);
        lemma_done_stays(p, outcomes.drop_first());
    }
}

/// Fail-fast: when any step other than the ignored stale-project removal
/// exits non-zero or cannot be spawned, the pipeline aborts at once, and no
/// step is ever issued again, whatever outcomes are reported later.
pub proof fn lemma_failure_blocks_all_later_steps(
    p: Pipeline,
    outcome: StepOutcome,
    later: Seq<StepOutcome>,
)
    requires
        p.wf(),
        p.spec_current() matches Some(step) && step != Step::RemoveStaleProject,
        outcome != StepOutcome::Exited(true),
    ensures
        spec_advance(p, outcome).spec_aborted(),
        forall|i: int|
            0 <= i <= later.len() ==> spec_run(
                spec_advance(p, outcome),
                later.take(i),
            ).spec_current() is None,
{
    let step = p.spec_current()->Some_0;
    assert(spec_step_failure(step, outcome) is Some);
    lemma_abort_is_final(spec_advance(p, outcome), later);
}

/// Strict step ordering: a compile step that exits non-zero (or cannot be
/// spawned) aborts the pipeline, and the install step is never issued
/// afterwards, whatever outcomes are reported later.
pub proof fn lemma_compile_failure_blocks_install(
    p: Pipeline,
    outcome: StepOutcome,
    later: Seq<StepOutcome>,
)
    requires
        p.wf(),
        p.spec_current() == Some(Step::Compile),
        outcome != StepOutcome::Exited(true),
    ensures
        spec_advance(p, outcome).spec_aborted(),
        forall|i: int|
            0 <= i <= later.len() ==> spec_run(
                spec_advance(p, outcome),
                later.take(i),
            ).spec_current() != Some(Step::Install),
{
    lemma_failure_blocks_all_later_steps(p, outcome, later);
}

/// The mathematical content of one external command: program name, argument
/// strings, working directory and extra environment entries.
pub struct CommandModel {
    pub program: Seq<char>,
    pub args: Seq<Seq<char>>,
    pub dir: Seq<char>,
    pub env: Seq<(Seq<char>, Seq<char>)>,
}

/// What the host must do for one step.
pub struct CommandSpec {
    /// Executable to spawn (or, for the build tool, the tool name the host
    /// resolves through its toolchain discovery).
    pub program: String,
    /// Arguments, in order.
    pub args: Vec<String>,
    /// Working directory of the spawned process.
    pub current_dir: String,
    /// Extra environment entries for the spawned process.
    pub env: Vec<(String, String)>,
}

impl View for CommandSpec {
    type V = CommandModel;

    open spec fn view(&self) -> CommandModel {
        CommandModel {
            program: self.program@,
            args: self.args@.map(|i: int, a: String| a@),
            dir: self.current_dir@,
            env: self.env@.map(|i: int, p: (String, String)| (p.0@, p.1@)),
        }
    }
}

/// The mathematical content of a step action.
pub enum ActionModel {
    Run(CommandModel),
    RemoveDir(Seq<char>),
    RunBuildTool(CommandModel),
}

/// The action the host performs for one pipeline step.
pub enum StepAction {
    /// Spawn the command and wait for it.
    Run(CommandSpec),
    /// Delete the directory tree; errors are ignored.
    RemoveDir(String),
    /// Resolve the named platform build tool for the target architecture,
    /// then spawn it with the given arguments.
    RunBuildTool(CommandSpec),
}

impl View for StepAction {
    type V = ActionModel;

    open spec fn view(&self) -> ActionModel {
        match self {
            StepAction::Run(c) => ActionModel::Run(c@),
            StepAction::RemoveDir(d) => ActionModel::RemoveDir(d@),
            StepAction::RunBuildTool(c) => ActionModel::RunBuildTool(c@),
        }
    }
}

/// A plain command: program, arguments, working directory, no environment.
pub open spec fn spec_run_model(program: Seq<char>, args: Seq<Seq<char>>, dir: Seq<char>) -> ActionModel {
    ActionModel::Run(CommandModel { program, args, dir, env: Seq::empty() })
}

/// The install prefix handed to configure: the `dist` directory under the
/// source tree, so that static and dynamic artifacts stay inside the tree.
pub open spec fn spec_prefix_dir(cfg: BuildConfig) -> Seq<char> {
    spec_join(Platform::Posix, cfg.lib_path@, "dist"@)
}

/// The configure arguments: the install prefix always, and
/// `--enable-shared=no` exactly when the build is static (without the flag
/// configure defaults to a shared build).
pub open spec fn spec_configure_args(cfg: BuildConfig) -> Seq<Seq<char>> {
    let base = seq!["configure"@, "--prefix="@ + spec_prefix_dir(cfg)];
    if cfg.spec_shared() {
        base
    } else {
        base + seq!["--enable-shared=no"@]
    }
}

/// The solution file the converter reads.
pub open spec fn spec_source_solution(cfg: BuildConfig) -> Seq<char> {
    "msvscpp\\"@ + cfg.lib_name@ + ".sln"@
}

/// The converted solution file the build tool consumes.
pub open spec fn spec_converted_solution(cfg: BuildConfig) -> Seq<char> {
    "vs2015\\"@ + cfg.lib_name@ + ".sln"@
}

/// The platform name the build tool is told to target.
pub open spec fn spec_tool_platform(arch: Arch) -> Seq<char> {
    match arch {
        Arch::X64 => "x64"@,
        Arch::Win32 => "Win32"@,
    }
}

/// The build-tool arguments: converted solution, toolset, platform, and the
/// static configuration type exactly when the build is static (without the
/// flag the tool builds a shared library).
pub open spec fn spec_build_tool_args(cfg: BuildConfig) -> Seq<Seq<char>> {
    let base = seq![
        spec_converted_solution(cfg),
        "/p:PlatformToolset=v141"@,
        "/p:Platform="@ + spec_tool_platform(cfg.arch),
    ];
    if cfg.spec_shared() {
        base
    } else {
        base + seq!["/p:ConfigurationType=StaticLibrary"@]
    }
}

/// The converter arguments: the conversion script, extension and output
/// format, then the solution to convert.
pub open spec fn spec_convert_args(cfg: BuildConfig) -> Seq<Seq<char>> {
    seq![
        "..\\..\\vstools\\scripts\\msvscpp-convert.py"@,
        "--extend-with-x64"@,
        "--output-format"@,
        "2015"@,
        spec_source_solution(cfg),
    ]
}

/// What the host must do for each step of the plan.
pub open spec fn spec_step_action(step: Step, cfg: BuildConfig) -> ActionModel {
    match step {
        Step::SyncDeps => match cfg.platform {
            Platform::Posix => spec_run_model("sh"@, seq!["synclibs.sh"@], cfg.lib_path@),
            Platform::Windows => spec_run_model(
                "powershell"@,
                seq!["-File"@, "synclibs.ps1"@],
                cfg.lib_path@,
            ),
        },
        Step::Autogen => match cfg.platform {
            Platform::Posix => spec_run_model("sh"@, seq!["autogen.sh"@], cfg.lib_path@),
            Platform::Windows => spec_run_model(
                "powershell"@,
                seq!["-File"@, "autogen.ps1"@],
                cfg.lib_path@,
            ),
        },
        Step::Configure => spec_run_model("sh"@, spec_configure_args(cfg), cfg.lib_path@),
        Step::Compile => spec_run_model("make"@, Seq::empty(), cfg.lib_path@),
        Step::Install => spec_run_model("make"@, seq!["install"@], cfg.lib_path@),
        Step::RemoveStaleProject => ActionModel::RemoveDir(
            spec_join(Platform::Windows, cfg.lib_path@, "vs2015"@),
        ),
        Step::ConvertProject => ActionModel::Run(
            CommandModel {
                program: cfg.python_exec@,
                args: spec_convert_args(cfg),
                dir: cfg.lib_path@,
                env: seq![("PYTHONPATH"@, "..\\..\\vstools"@)],
            },
        ),
        Step::InvokeBuildTool => ActionModel::RunBuildTool(
            CommandModel {
                program: "msbuild"@,
                args: spec_build_tool_args(cfg),
                dir: cfg.lib_path@,
                env: Seq::empty(),
            },
        ),
    }
}

/// The action the host must perform for `step` under `cfg`.
pub fn step_action(step: Step, cfg: &BuildConfig) -> (r: StepAction)
    ensures
        r@ == spec_step_action(step, *cfg),
{
    match step {
        Step::SyncDeps => {
            let mut args: Vec<String> = Vec::new();
            let program: String;
            match cfg.platform {
                Platform::Posix => {
                    program = String::from_str("sh");
                    args.push(String::from_str("synclibs.sh"));
                },
                Platform::Windows => {
                    program = String::from_str("powershell");
                    args.push(String::from_str("-File"));
                    args.push(String::from_str("synclibs.ps1"));
                },
            }
            let c = CommandSpec {
                program,
                args,
                current_dir: String::from_str(cfg.lib_path.as_str()),
                env: Vec::new(),
            };
            proof {
                lemma_action_eq(StepAction::Run(c)@, spec_step_action(step, *cfg));
            }
            StepAction::Run(c)
        },
        Step::Autogen => {
            let mut args: Vec<String> = Vec::new();
            let program: String;
            match cfg.platform {
                Platform::Posix => {
                    program = String::from_str("sh");
                    args.push(String::from_str("autogen.sh"));
                },
                Platform::Windows => {
                    program = String::from_str("powershell");
                    args.push(String::from_str("-File"));
                    args.push(String::from_str("autogen.ps1"));
                },
            }
            let c = CommandSpec {
                program,
                args,
                current_dir: String::from_str(cfg.lib_path.as_str()),
                env: Vec::new(),
            };
            proof {
                lemma_action_eq(StepAction::Run(c)@, spec_step_action(step, *cfg));
            }
            StepAction::Run(c)
        },
        Step::Configure => {
            let mut args: Vec<String> = Vec::new();
            args.push(String::from_str("configure"));
            let mut prefix_arg = String::from_str("--prefix=");
            let prefix_dir = crate::pathname::join(Platform::Posix, cfg.lib_path.as_str(), "dist");
            prefix_arg.append(prefix_dir.as_str());
            args.push(prefix_arg);
            if !cfg.shared() {
                args.push(String::from_str("--enable-shared=no"));
            }
            let c = CommandSpec {
                program: String::from_str("sh"),
                args,
                current_dir: String::from_str(cfg.lib_path.as_str()),
                env: Vec::new(),
            };
            proof {
                lemma_action_eq(StepAction::Run(c)@, spec_step_action(step, *cfg));
            }
            StepAction::Run(c)
        },
        Step::Compile => {
            let c = CommandSpec {
                program: String::from_str("make"),
                args: Vec::new(),
                current_dir: String::from_str(cfg.lib_path.as_str()),
                env: Vec::new(),
            };
            proof {
                lemma_action_eq(StepAction::Run(c)@, spec_step_action(step, *cfg));
            }
            StepAction::Run(c)
        },
        Step::Install => {
            let mut args: Vec<String> = Vec::new();
            args.push(String::from_str("install"));
            let c = CommandSpec {
                program: String::from_str("make"),
                args,
                current_dir: String::from_str(cfg.lib_path.as_str()),
                env: Vec::new(),
            };
            proof {
                lemma_action_eq(StepAction::Run(c)@, spec_step_action(step, *cfg));
            }
            StepAction::Run(c)
        },
        Step::RemoveStaleProject => {
            let dir = crate::pathname::join(Platform::Windows, cfg.lib_path.as_str(), "vs2015");
            StepAction::RemoveDir(dir)
        },
        Step::ConvertProject => {
            let mut args: Vec<String> = Vec::new();
            args.push(String::from_str("..\\..\\vstools\\scripts\\msvscpp-convert.py"));
            args.push(String::from_str("--extend-with-x64"));
            args.push(String::from_str("--output-format"));
            args.push(String::from_str("2015"));
            let mut solution = String::from_str("msvscpp\\");
            solution.append(cfg.lib_name.as_str());
            solution.append(".sln");
            args.push(solution);
            let mut env: Vec<(String, String)> = Vec::new();
            env.push((String::from_str("PYTHONPATH"), String::from_str("..\\..\\vstools")));
            let c = CommandSpec {
                program: String::from_str(cfg.python_exec.as_str()),
                args,
                current_dir: String::from_str(cfg.lib_path.as_str()),
                env,
            };
            proof {
                lemma_action_eq(StepAction::Run(c)@, spec_step_action(step, *cfg));
            }
            StepAction::Run(c)
        },
        Step::InvokeBuildTool => {
            let mut args: Vec<String> = Vec::new();
            let mut solution = String::from_str("vs2015\\");
            solution.append(cfg.lib_name.as_str());
            solution.append(".sln");
            args.push(solution);
            args.push(String::from_str("/p:PlatformToolset=v141"));
            let mut platform_arg = String::from_str("/p:Platform=");
            match cfg.arch {
                Arch::X64 => platform_arg.append("x64"),
                Arch::Win32 => platform_arg.append("Win32"),
            }
            args.push(platform_arg);
            if !cfg.shared() {
                args.push(String::from_str("/p:ConfigurationType=StaticLibrary"));
            }
            let c = CommandSpec {
                program: String::from_str("msbuild"),
                args,
                current_dir: String::from_str(cfg.lib_path.as_str()),
                env: Vec::new(),
            };
            proof {
                lemma_action_eq(StepAction::RunBuildTool(c)@, spec_step_action(step, *cfg));
            }
            StepAction::RunBuildTool(c)
        },
    }
}

/// Two action models whose parts are extensionally equal are equal.
proof fn lemma_action_eq(a: ActionModel, b: ActionModel)
    requires
        match (a, b) {
            (ActionModel::Run(ca), ActionModel::Run(cb)) => ca.program =~= cb.program
                && ca.args =~~= cb.args && ca.dir =~= cb.dir && ca.env =~~= cb.env,
            (ActionModel::RemoveDir(da), ActionModel::RemoveDir(db)) => da =~= db,
            (ActionModel::RunBuildTool(ca), ActionModel::RunBuildTool(cb)) => ca.program
                =~= cb.program && ca.args =~~= cb.args && ca.dir =~= cb.dir && ca.env =~~= cb.env,
            _ => false,
        },
    ensures
        a == b,
{
}

/// The architecture the build tool is invoked for: 64-bit exactly when the
/// target triple names an x86_64 machine.
pub fn arch_for_target(target: &str) -> (r: Arch)
    ensures
        r == (if spec_contains(target@, "x86_64"@) {
            Arch::X64
        } else {
            Arch::Win32
        }),
{
    if contains(target, "x86_64") {
        Arch::X64
    } else {
        Arch::Win32
    }
}

} // verus!
