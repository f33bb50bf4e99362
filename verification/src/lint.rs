//! The lint orchestrator: materializes a mode-dependent check script,
//! runs it inside the toolchain container, and always cleans the script up
//! afterwards, whatever the containerized run did.

use vstd::prelude::*;

verus! {

use vstd::string::StringExecFns;
use crate::command::{Action, ActionV, CommandInvocation, FailurePolicy, InvocationV, Plan, Step,
StepV, note, note_v, shell_v, steps_view};
use crate::config::{Config, ConfigV, build_cache_spec, package_cache_spec};
use crate::text::{join_strings, join_with};

/// How much linting runs before startup.
#[derive(Clone, Copy, PartialEq, Eq, Structural, Debug)]
pub enum LintMode {
    /// Skip all checks; nothing is written and nothing runs.
    Off,
    /// Format check plus the strict static-analysis check.
    Basic,
    /// Format check, the static-analysis check over all targets and
    /// features, and two advisory dependency checks that may fail freely.
    Full,
}

/// The fixed name of the ephemeral check script.
pub open spec fn script_file() -> Seq<char> {
    "run-checks.sh"@
}

/// The lines every generated script starts with: shebang, fail-fast
/// settings, a banner, and the format check that always comes first.
pub open spec fn script_header() -> Seq<Seq<char>> {
    seq![
        "#!/bin/bash"@,
        "set -euo pipefail"@,
        "echo 'Running lint checks...'"@,
        "cargo fmt --all -- --check"@,
    ]
}

/// The lines of the generated check script for a mode; empty for `Off`.
pub open spec fn script_lines_spec(mode: LintMode) -> Seq<Seq<char>> {
    match mode {
        LintMode::Off => Seq::empty(),
        LintMode::Basic => script_header().push("cargo clippy --all-targets -- -D warnings"@),
        LintMode::Full => script_header().push(
            "cargo clippy --all-targets --all-features -- -D warnings"@,
        ).push("(cargo audit || true)"@).push("(cargo outdated || true)"@),
    }
}

/// The script body: its lines joined by newlines, newline-terminated.
pub open spec fn script_text_spec(mode: LintMode) -> Seq<char> {
    join_with(script_lines_spec(mode), "\n"@) + "\n"@
}

/// The shell command that runs the script inside the toolchain container,
/// with the two scratch caches bind-mounted and the working directory
/// mounted read-write.
pub open spec fn lint_container_cmd(cfg: ConfigV) -> Seq<char> {
    "docker run --rm -u root -v \"$PWD:$PWD\" -v "@ + build_cache_spec(cfg.scratch_dir)
        + ":/app/target -v "@ + package_cache_spec(cfg.scratch_dir)
        + ":/usr/local/cargo/registry -w $PWD "@ + cfg.rust_dev_image + " ./run-checks.sh"@
}

/// The lint steps as they stand in a plan whose step `base` is the first of
/// them: write the script, run it in the container, then always echo and
/// remove the script (best-effort, guarded by the write step).
pub open spec fn lint_steps_spec(mode: LintMode, cfg: ConfigV, base: int) -> Seq<StepV> {
    if mode is Off {
        Seq::empty()
    } else {
        seq![
            note_v("Generating lint script: run-checks.sh"@),
            StepV {
                action: ActionV::WriteScript {
                    path: script_file(),
                    content: script_text_spec(mode),
                },
                policy: FailurePolicy::Fatal,
                guard: Option::None,
            },
            note_v("Running lint checks using container: "@ + cfg.rust_dev_image),
            shell_v(lint_container_cmd(cfg)),
            StepV {
                action: ActionV::Run {
                    invocation: InvocationV::Shell { command: "cat run-checks.sh"@ },
                },
                policy: FailurePolicy::BestEffort,
                guard: Option::Some(base + 1),
            },
            StepV {
                action: ActionV::RemoveFile { path: script_file() },
                policy: FailurePolicy::BestEffort,
                guard: Option::Some(base + 1),
            },
        ]
    }
}

/// For `Off` the orchestrator is a no-op: not a single step, so no command
/// ever runs and no script file is ever created.
pub proof fn lemma_lint_off_is_noop(cfg: ConfigV, base: int)
    ensures
        lint_steps_spec(LintMode::Off, cfg, base) == Seq::<StepV>::empty(),
{
}

/// How the Basic and Full scripts relate: they share the four header lines
/// (ending in the format check, always first); Basic adds the strict
/// static-analysis line; Full instead widens that line to all targets and
/// features and appends the two advisory checks, each wrapped so that its
/// failure never aborts the script.
pub proof fn lemma_basic_vs_full_script()
    ensures
        script_lines_spec(LintMode::Basic).len() == 5,
        script_lines_spec(LintMode::Full).len() == 7,
        script_lines_spec(LintMode::Full).take(4) == script_lines_spec(LintMode::Basic).take(4),
        script_lines_spec(LintMode::Basic)[4] == "cargo clippy --all-targets -- -D warnings"@,
        script_lines_spec(LintMode::Full)[4]
            == "cargo clippy --all-targets --all-features -- -D warnings"@,
        script_lines_spec(LintMode::Full)[5] == "(cargo audit || true)"@,
        script_lines_spec(LintMode::Full)[6] == "(cargo outdated || true)"@,
{
    assert(script_lines_spec(LintMode::Full).take(4) =~= script_lines_spec(
        LintMode::Basic,
    ).take(4));
}

/// Renders the lines of the check script for a mode.
pub fn script_lines(mode: LintMode) -> (r: Vec<String>)
    ensures
        r.deep_view() == script_lines_spec(mode),
{
    let mut r: Vec<String> = Vec::new();
    match mode {
        LintMode::Off => {
            proof {
                assert(r.deep_view() =~= script_lines_spec(mode));
            }
        },
        LintMode::Basic => {
            r.push(String::from_str("#!/bin/bash"));
            r.push(String::from_str("set -euo pipefail"));
            r.push(String::from_str("echo 'Running lint checks...'"));
            r.push(String::from_str("cargo fmt --all -- --check"));
            r.push(String::from_str("cargo clippy --all-targets -- -D warnings"));
            proof {
                assert(r.deep_view() =~= script_lines_spec(mode));
            }
        },
        LintMode::Full => {
            r.push(String::from_str("#!/bin/bash"));
            r.push(String::from_str("set -euo pipefail"));
            r.push(String::from_str("echo 'Running lint checks...'"));
            r.push(String::from_str("cargo fmt --all -- --check"));
            r.push(String::from_str("cargo clippy --all-targets --all-features -- -D warnings"));
            r.push(String::from_str("(cargo audit || true)"));
            r.push(String::from_str("(cargo outdated || true)"));
            proof {
                assert(r.deep_view() =~= script_lines_spec(mode));
            }
        },
    }
    r
}

/// Renders the script body for a mode.
pub fn script_text(mode: LintMode) -> (r: String)
    ensures
        r@ == script_text_spec(mode),
{
    let lines = script_lines(mode);
    let mut r = join_strings(&lines, "\n");
    r.append("\n");
    r
}

/// Builds the shell command that runs the script in the toolchain container.
pub fn container_command(cfg: &Config) -> (r: String)
    ensures
        r@ == lint_container_cmd(cfg@),
{
    let mut r = String::from_str("docker run --rm -u root -v \"$PWD:$PWD\" -v ");
    r.append(cfg.scratch_dir.as_str());
    r.append("/dev-target");
    r.append(":/app/target -v ");
    r.append(cfg.scratch_dir.as_str());
    r.append("/dev-cargo");
    r.append(":/usr/local/cargo/registry -w $PWD ");
    r.append(cfg.rust_dev_image.as_str());
    r.append(" ./run-checks.sh");
    proof {
        assert(r@ =~= lint_container_cmd(cfg@));
    }
    r
}

/// Builds the lint steps for a plan in which they start at step `base`.
pub fn lint_steps(mode: LintMode, cfg: &Config, base: usize) -> (r: Vec<Step>)
    requires
        base < 1000000,
    ensures
        steps_view(r@) == lint_steps_spec(mode, cfg@, base as int),
{
    let mut r: Vec<Step> = Vec::new();
    match mode {
        LintMode::Off => {
            proof {
                assert(steps_view(r@) =~= lint_steps_spec(mode, cfg@, base as int));
            }
        },
        _ => {
            r.push(note("Generating lint script: run-checks.sh"));
            r.push(
                Step {
                    action: Action::WriteScript {
                        path: String::from_str("run-checks.sh"),
                        content: script_text(mode),
                    },
                    policy: FailurePolicy::Fatal,
                    guard: Option::None,
                },
            );
            let mut container_note = String::from_str("Running lint checks using container: ");
            container_note.append(cfg.rust_dev_image.as_str());
            r.push(
                Step {
                    action: Action::Note { text: container_note },
                    policy: FailurePolicy::Fatal,
                    guard: Option::None,
                },
            );
            r.push(crate::command::shell(container_command(cfg)));
            r.push(
                Step {
                    action: Action::Run {
                        invocation: CommandInvocation::Shell {
                            command: String::from_str("cat run-checks.sh"),
                        },
                    },
                    policy: FailurePolicy::BestEffort,
                    guard: Option::Some(base + 1),
                },
            );
            r.push(
                Step {
                    action: Action::RemoveFile { path: String::from_str("run-checks.sh") },
                    policy: FailurePolicy::BestEffort,
                    guard: Option::Some(base + 1),
                },
            );
            proof {
                assert(steps_view(r@) =~= lint_steps_spec(mode, cfg@, base as int));
            }
        },
    }
    r
}

/// The whole lint orchestration as a plan of its own.
pub fn lint_plan(mode: LintMode, cfg: &Config) -> (p: Plan)
    ensures
        p@ == lint_steps_spec(mode, cfg@, 0),
{
    Plan { steps: lint_steps(mode, cfg, 0) }
}

} // verus!
