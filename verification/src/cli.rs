//! The dispatch surface: one subcommand in, one plan out.

use vstd::prelude::*;

verus! {

use crate::command::Plan;
use crate::config::{Config, ConfigError};
use crate::shutdown::{shutdown, shutdown_plan_spec};
use crate::startup::{StartOptions, StartupFlags, conflicting, start, start_plan_spec};
use crate::waiter::{wait_for_frontend, wait_plan_spec};

/// The subcommands the tool accepts.
pub enum Commands {
    /// Start backend services and initialize the environment.
    Start(StartOptions),
    /// Stop all containers and remove volumes.
    Shutdown,
    /// Wait for the frontend to finish compiling.
    Wait { timeout_secs: u64 },
}

/// The validated flag set a start command's options stand for.
pub open spec fn flags_of(o: StartOptions) -> StartupFlags {
    StartupFlags {
        fresh: o.fresh,
        no_cache: o.no_cache,
        force_pull: o.force_pull,
        force_rebuild: o.force_rebuild,
    }
}

/// Turns a subcommand into its plan.  A conflicting start configuration is
/// rejected here, before any plan exists, so nothing of it ever runs.
pub fn plan_for_command(cmd: &Commands, cfg: &Config) -> (r: Result<Plan, ConfigError>)
    requires
        cmd matches Commands::Wait { timeout_secs } ==> timeout_secs <= u64::MAX / 1000,
    ensures
        match cmd {
            Commands::Start(opts) => {
                if conflicting(*opts) {
                    r matches Err(e) && e is ConflictingFlags
                } else {
                    r matches Ok(p) && p@ == start_plan_spec(flags_of(*opts), opts.lint, cfg@)
                }
            },
            Commands::Shutdown => r matches Ok(p) && p@ == shutdown_plan_spec(cfg@),
            Commands::Wait { timeout_secs } => r matches Ok(p) && p@ == wait_plan_spec(
                *timeout_secs as nat,
            ),
        },
{
    match cmd {
        Commands::Start(opts) => {
            let flags = match StartupFlags::new(opts) {
                Result::Ok(f) => f,
                Result::Err(e) => {
                    return Result::Err(e);
                },
            };
            Result::Ok(start(&flags, opts.lint, cfg))
        },
        Commands::Shutdown => Result::Ok(shutdown(cfg)),
        Commands::Wait { timeout_secs } => Result::Ok(wait_for_frontend(*timeout_secs)),
    }
}

} // verus!
