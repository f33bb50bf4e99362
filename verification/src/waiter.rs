//! The readiness waiter: one polling command against the local endpoint,
//! bounded by a caller-supplied timeout in seconds.

use vstd::prelude::*;

verus! {

use vstd::string::StringExecFns;
use crate::command::{Plan, Step, StepV, note, note_v, shell, shell_v, steps_view};
use crate::text::{dec_str, u64_to_dec};

/// The polling command: a fixed endpoint, the caller's timeout converted to
/// milliseconds, a fixed poll interval, an initial delay, and a settle
/// window after first success.
pub open spec fn wait_cmd(timeout_ms: nat) -> Seq<char> {
    "npx wait-on http://localhost:8080 --timeout "@ + dec_str(timeout_ms)
        + " --interval 2000 --delay 1000 --window 1000 --verbose"@
}

/// The readiness plan for a timeout in seconds.
pub open spec fn wait_plan_spec(timeout_secs: nat) -> Seq<StepV> {
    seq![note_v("Waiting for frontend to be ready..."@), shell_v(wait_cmd(timeout_secs * 1000))]
}

/// Builds the readiness plan.  The timeout is bounded so that the
/// conversion to milliseconds cannot overflow.
pub fn wait_for_frontend(timeout_secs: u64) -> (p: Plan)
    requires
        timeout_secs <= u64::MAX / 1000,
    ensures
        p@ == wait_plan_spec(timeout_secs as nat),
{
    let timeout_ms = timeout_secs * 1000;
    let mut cmd = String::from_str("npx wait-on http://localhost:8080 --timeout ");
    let ms = u64_to_dec(timeout_ms);
    cmd.append(ms.as_str());
    cmd.append(" --interval 2000 --delay 1000 --window 1000 --verbose");
    proof {
        assert(cmd@ =~= wait_cmd((timeout_secs * 1000) as nat));
    }
    let mut steps: Vec<Step> = Vec::new();
    steps.push(note("Waiting for frontend to be ready..."));
    steps.push(shell(cmd));
    proof {
        assert(steps_view(steps@) =~= wait_plan_spec(timeout_secs as nat));
    }
    Plan { steps }
}

} // verus!
