//! The startup sequencer: from validated flags, a lint mode and the
//! resolved configuration to the ordered plan that brings the stack up.

use vstd::prelude::*;

verus! {

use vstd::string::StringExecFns;
use crate::command::{Action, ActionV, CommandInvocation, FailurePolicy, InvocationV, Plan, Step,
StepV, note, note_v, shell, shell_v, steps_view};
use crate::config::{Config, ConfigV, ConfigError};
use crate::lint::{LintMode, lint_steps, lint_steps_spec};

/// The startup options as they come in from the command line, before
/// validation.
#[derive(Clone, Copy)]
pub struct StartOptions {
    pub lint: LintMode,
    pub no_cache: bool,
    pub force_pull: bool,
    pub force_rebuild: bool,
    pub fresh: bool,
}

/// `fresh` is mutually exclusive with each of the other three flags:
/// selecting it already implies them, so combining is a configuration
/// error, not a silent merge.
pub open spec fn conflicting(o: StartOptions) -> bool {
    o.fresh && (o.no_cache || o.force_pull || o.force_rebuild)
}

/// The validated flag set: constructing one rejects illegal combinations,
/// so every value of this type satisfies `wf`.
#[derive(Clone, Copy)]
pub struct StartupFlags {
    pub fresh: bool,
    pub no_cache: bool,
    pub force_pull: bool,
    pub force_rebuild: bool,
}

impl StartupFlags {
    /// No conflicting combination.
    pub open spec fn wf(self) -> bool {
        !(self.fresh && (self.no_cache || self.force_pull || self.force_rebuild))
    }

    /// Validates the raw options.  Exactly the conflicting combinations are
    /// rejected, before any plan exists and hence before any command could
    /// run.
    pub fn new(opts: &StartOptions) -> (r: Result<StartupFlags, ConfigError>)
        ensures
            r is Ok <==> !conflicting(*opts),
            r matches Ok(f) ==> f.wf() && f.fresh == opts.fresh && f.no_cache == opts.no_cache
                && f.force_pull == opts.force_pull && f.force_rebuild == opts.force_rebuild,
            r matches Err(e) ==> e is ConflictingFlags,
    {
        if opts.fresh && (opts.no_cache || opts.force_pull || opts.force_rebuild) {
            Result::Err(ConfigError::ConflictingFlags)
        } else {
            Result::Ok(
                StartupFlags {
                    fresh: opts.fresh,
                    no_cache: opts.no_cache,
                    force_pull: opts.force_pull,
                    force_rebuild: opts.force_rebuild,
                },
            )
        }
    }
}

/// The teardown invocation used by a fresh startup, as a plain program with
/// arguments (never run through a shell).
pub open spec fn compose_down_step() -> StepV {
    StepV {
        action: ActionV::Run {
            invocation: InvocationV::Program {
                program: "docker"@,
                args: seq!["compose"@, "down"@, "-v"@],
            },
        },
        policy: FailurePolicy::Fatal,
        guard: Option::None,
    }
}

/// The first steps: a full teardown for a fresh start, else a log-only
/// marker that the teardown is skipped.
pub open spec fn start_prefix(fresh: bool) -> Seq<StepV> {
    if fresh {
        seq![note_v("Performing fresh startup..."@), compose_down_step()]
    } else {
        seq![note_v("Skipping docker compose down..."@)]
    }
}

/// The image build command; the cache is bypassed if `no_cache` or `fresh`
/// was selected.
pub open spec fn build_cmd(bypass_cache: bool, cfg: ConfigV) -> Seq<char> {
    "docker build"@ + (if bypass_cache {
        " --no-cache"@
    } else {
        Seq::<char>::empty()
    }) + " --build-arg FE_BASE_IMAGE="@ + cfg.fe_base_image + " --build-arg CR8S_VERSION="@
        + cfg.version + " -f Dockerfile.fe-server -t "@ + cfg.fe_server_image + " ."@
}

/// The one-shot seeding command for the default administrative principal.
pub open spec fn seed_admin_cmd() -> Seq<char> {
    "docker compose run -q --rm cli create-user --username admin@example.com --password password123 --roles admin,editor,viewer"@
}

/// Everything after the lint steps: build the image, pull fresh images if
/// asked to, bring the stack up, wait for health, load the schema, seed the
/// administrative principal, and start the server.
pub open spec fn start_tail(flags: StartupFlags, cfg: ConfigV) -> Seq<StepV> {
    seq![
        note_v("Building cr8s-fe-server image with base:"@ + cfg.fe_base_image + "..."@),
        shell_v(build_cmd(flags.no_cache || flags.fresh, cfg)),
    ] + (if flags.fresh || flags.force_pull {
        seq![
            note_v("Pulling new images..."@),
            shell_v("docker compose pull postgres redis server"@),
        ]
    } else {
        Seq::<StepV>::empty()
    }) + seq![
        note_v("Start all services..."@),
        shell_v("docker compose up -d"@),
        note_v("Waiting for services to be healthy..."@),
        shell_v("docker compose up --wait"@),
        note_v("Loading database schema..."@),
        shell_v("docker compose run -q --rm cli load-schema"@),
        note_v("Creating default admin user..."@),
        shell_v(seed_admin_cmd()),
        note_v("Starting backend server..."@),
        shell_v("docker compose up -d server"@),
        note_v("Backend services ready"@),
        note_v("Frontend trunk compile has started but is not complete!"@),
    ]
}

/// The full startup plan.  `force_rebuild` does not change the step list:
/// it only signals intent to the orchestration tool's own recreate
/// semantics.
pub open spec fn start_plan_spec(flags: StartupFlags, lint: LintMode, cfg: ConfigV) -> Seq<
    StepV,
> {
    start_prefix(flags.fresh) + lint_steps_spec(
        lint,
        cfg,
        start_prefix(flags.fresh).len() as int,
    ) + start_tail(flags, cfg)
}

/// Builds the steps after the lint block.
fn tail_steps(flags: &StartupFlags, cfg: &Config) -> (r: Vec<Step>)
    ensures
        steps_view(r@) == start_tail(*flags, cfg@),
{
    let mut steps: Vec<Step> = Vec::new();
    let mut build_note = String::from_str("Building cr8s-fe-server image with base:");
    build_note.append(cfg.fe_base_image.as_str());
    build_note.append("...");
    steps.push(
        Step {
            action: Action::Note { text: build_note },
            policy: FailurePolicy::Fatal,
            guard: Option::None,
        },
    );

    let bypass_cache = flags.no_cache || flags.fresh;
    let mut build = String::from_str("docker build");
    if bypass_cache {
        build.append(" --no-cache");
    }
    build.append(" --build-arg FE_BASE_IMAGE=");
    build.append(cfg.fe_base_image.as_str());
    build.append(" --build-arg CR8S_VERSION=");
    build.append(cfg.version.as_str());
    build.append(" -f Dockerfile.fe-server -t ");
    build.append(cfg.fe_server_image.as_str());
    build.append(" .");
    proof {
        assert(build@ =~= build_cmd(bypass_cache, cfg@));
    }
    steps.push(shell(build));

    if flags.fresh || flags.force_pull {
        steps.push(note("Pulling new images..."));
        steps.push(shell(String::from_str("docker compose pull postgres redis server")));
    }
    steps.push(note("Start all services..."));
    steps.push(shell(String::from_str("docker compose up -d")));
    steps.push(note("Waiting for services to be healthy..."));
    steps.push(shell(String::from_str("docker compose up --wait")));
    steps.push(note("Loading database schema..."));
    steps.push(shell(String::from_str("docker compose run -q --rm cli load-schema")));
    steps.push(note("Creating default admin user..."));
    steps.push(
        shell(
            String::from_str(
                "docker compose run -q --rm cli create-user --username admin@example.com --password password123 --roles admin,editor,viewer",
            ),
        ),
    );
    steps.push(note("Starting backend server..."));
    steps.push(shell(String::from_str("docker compose up -d server")));
    steps.push(note("Backend services ready"));
    steps.push(note("Frontend trunk compile has started but is not complete!"));
    proof {
        assert(steps_view(steps@) =~= start_tail(*flags, cfg@));
    }
    steps
}

/// Builds the startup plan for validated flags.
pub fn start(flags: &StartupFlags, lint: LintMode, cfg: &Config) -> (p: Plan)
    requires
        flags.wf(),
    ensures
        p@ == start_plan_spec(*flags, lint, cfg@),
{
    let mut steps: Vec<Step> = Vec::new();
    if flags.fresh {
        steps.push(note("Performing fresh startup..."));
        let mut args: Vec<String> = Vec::new();
        args.push(String::from_str("compose"));
        args.push(String::from_str("down"));
        args.push(String::from_str("-v"));
        proof {
            assert(args.deep_view() =~= seq!["compose"@, "down"@, "-v"@]);
        }
        steps.push(
            Step {
                action: Action::Run {
                    invocation: CommandInvocation::Program {
                        program: String::from_str("docker"),
                        args,
                    },
                },
                policy: FailurePolicy::Fatal,
                guard: Option::None,
            },
        );
    } else {
        steps.push(note("Skipping docker compose down..."));
    }
    proof {
        assert(steps_view(steps@) =~= start_prefix(flags.fresh));
    }
    let base = steps.len();
    let mut lsteps = lint_steps(lint, cfg, base);
    steps.append(&mut lsteps);
    proof {
        assert(steps_view(steps@) =~= start_prefix(flags.fresh) + lint_steps_spec(
            lint,
            cfg@,
            base as int,
        ));
    }
    let ghost mid = steps_view(steps@);

    let mut tsteps = tail_steps(flags, cfg);
    steps.append(&mut tsteps);
    proof {
        assert(steps_view(steps@) =~= mid + start_tail(*flags, cfg@));
        assert(steps_view(steps@) =~= start_plan_spec(*flags, lint, cfg@));
    }
    Plan { steps }
}

} // verus!
