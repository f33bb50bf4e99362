//! The shutdown sequencer: tear the stack down (fatal on failure), then
//! best-effort removal of the two scratch cache directories, which may fail
//! without failing the overall operation.

use vstd::prelude::*;

verus! {

use vstd::string::StringExecFns;
use crate::command::{ExitOutcome, Plan, Step, StepV, note, note_v, shell, shell_best_effort,
shell_best_effort_v, shell_v, steps_view};
use crate::config::{Config, ConfigV, build_cache_spec, package_cache_spec};
use crate::session::{advance_state, initial_session, report_state};

/// The best-effort command that removes both scratch cache directories.
pub open spec fn scratch_cleanup_cmd(root: Seq<char>) -> Seq<char> {
    "sudo rm -rf "@ + build_cache_spec(root) + " "@ + package_cache_spec(root)
}

/// The shutdown plan: two announcements, the fatal teardown, and the
/// best-effort scratch cleanup.
pub open spec fn shutdown_plan_spec(cfg: ConfigV) -> Seq<StepV> {
    seq![
        note_v("Stopping services..."@),
        note_v("Cleaning up dev volumes..."@),
        shell_v("docker compose down -v"@),
        shell_best_effort_v(scratch_cleanup_cmd(cfg.scratch_dir)),
    ]
}

/// Builds the shutdown plan.
pub fn shutdown(cfg: &Config) -> (p: Plan)
    ensures
        p@ == shutdown_plan_spec(cfg@),
{
    let mut steps: Vec<Step> = Vec::new();
    steps.push(note("Stopping services..."));
    steps.push(note("Cleaning up dev volumes..."));
    steps.push(shell(String::from_str("docker compose down -v")));
    let mut cleanup = String::from_str("sudo rm -rf ");
    cleanup.append(cfg.scratch_dir.as_str());
    cleanup.append("/dev-target");
    cleanup.append(" ");
    cleanup.append(cfg.scratch_dir.as_str());
    cleanup.append("/dev-cargo");
    proof {
        assert(cleanup@ =~= scratch_cleanup_cmd(cfg@.scratch_dir));
    }
    steps.push(shell_best_effort(cleanup));
    proof {
        assert(steps_view(steps@) =~= shutdown_plan_spec(cfg@));
    }
    Plan { steps }
}

/// Shutdown reports success whenever the primary teardown succeeds: a live
/// session through the shutdown plan whose teardown comes back successful
/// ends with no recorded failure, whatever the outcome of the best-effort
/// scratch-directory removal.
pub proof fn lemma_shutdown_best_effort(cfg: ConfigV, cleanup_outcome: ExitOutcome)
    ensures
        ({
            let s0 = initial_session(shutdown_plan_spec(cfg), false);
            let s1 = advance_state(s0);
            let s2 = advance_state(s1);
            let s3 = advance_state(s2);
            let s4 = report_state(s3, ExitOutcome::Success);
            let s5 = advance_state(s4);
            let s6 = report_state(s5, cleanup_outcome);
            s6.err is None && s6.pos == 4 && !s6.awaiting
        }),
{
    let plan = shutdown_plan_spec(cfg);
    let s0 = initial_session(plan, false);
    let s1 = advance_state(s0);
    assert(s1.pos == 1 && s1.err is None && !s1.awaiting);
    let s2 = advance_state(s1);
    assert(s2.pos == 2 && s2.err is None && !s2.awaiting);
    let s3 = advance_state(s2);
    assert(s3.pos == 2 && s3.err is None && s3.awaiting);
    let s4 = report_state(s3, ExitOutcome::Success);
    assert(s4.pos == 3 && s4.err is None && !s4.awaiting);
    let s5 = advance_state(s4);
    assert(s5.pos == 3 && s5.err is None && s5.awaiting);
    let s6 = report_state(s5, cleanup_outcome);
    assert(plan[3].policy is BestEffort);
    assert(s6.err is None && s6.pos == 4 && !s6.awaiting);
}

} // verus!
