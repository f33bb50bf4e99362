//! The command model: invocations, outcomes, plan steps and their views.
//!
//! A plan is an ordered list of steps.  Each step carries an action (an
//! announcement line, a command to run, or a filesystem action around the
//! ephemeral lint script), a failure policy, and an optional guard that
//! scopes cleanup actions to the step that created their resource.

use vstd::prelude::*;

verus! {

use vstd::string::StringExecFns;
use crate::text::join_with;

/// Whether planned actions are really performed or only logged.
#[derive(Clone, Copy, PartialEq, Eq, Structural, Debug)]
pub enum ExecutionMode {
    Live,
    DryRun,
}

/// A single external command: either a program with an argument list (never
/// interpreted by a shell) or one string handed to a single shell process.
pub enum CommandInvocation {
    Program { program: String, args: Vec<String> },
    Shell { command: String },
}

/// Mathematical model of a `CommandInvocation`.
pub enum InvocationV {
    Program { program: Seq<char>, args: Seq<Seq<char>> },
    Shell { command: Seq<char> },
}

impl View for CommandInvocation {
    type V = InvocationV;

    open spec fn view(&self) -> InvocationV {
        match self {
            CommandInvocation::Program { program, args } => InvocationV::Program {
                program: program@,
                args: args.deep_view(),
            },
            CommandInvocation::Shell { command } => InvocationV::Shell { command: command@ },
        }
    }
}

/// What happened to a performed action: clean exit, exit with a non-zero
/// code, or no exit code at all (the process was terminated by a signal, or
/// a filesystem action failed).
#[derive(Clone, Copy, Debug)]
pub enum ExitOutcome {
    Success,
    Failed { exit_code: Option<i32> },
}

/// Whether a step's failure aborts the enclosing sequence or is only logged.
#[derive(Clone, Copy, PartialEq, Eq, Structural, Debug)]
pub enum FailurePolicy {
    Fatal,
    BestEffort,
}

/// One planned action.
pub enum Action {
    /// A log-only announcement; never handed to the outside world.
    Note { text: String },
    /// An external command.
    Run { invocation: CommandInvocation },
    /// Write `content` to `path` and make it executable.
    WriteScript { path: String, content: String },
    /// Remove the file at `path`.
    RemoveFile { path: String },
}

/// Mathematical model of an `Action`.
pub enum ActionV {
    Note { text: Seq<char> },
    Run { invocation: InvocationV },
    WriteScript { path: Seq<char>, content: Seq<char> },
    RemoveFile { path: Seq<char> },
}

impl View for Action {
    type V = ActionV;

    open spec fn view(&self) -> ActionV {
        match self {
            Action::Note { text } => ActionV::Note { text: text@ },
            Action::Run { invocation } => ActionV::Run { invocation: invocation@ },
            Action::WriteScript { path, content } => ActionV::WriteScript {
                path: path@,
                content: content@,
            },
            Action::RemoveFile { path } => ActionV::RemoveFile { path: path@ },
        }
    }
}

/// One step of a plan.  `guard` is `Some(i)` for a cleanup step whose
/// resource is created by step `i`: once an earlier step has failed, the
/// cleanup still runs if and only if step `i` ran before the failure.
pub struct Step {
    pub action: Action,
    pub policy: FailurePolicy,
    pub guard: Option<usize>,
}

/// Mathematical model of a `Step`.
pub struct StepV {
    pub action: ActionV,
    pub policy: FailurePolicy,
    pub guard: Option<int>,
}

impl View for Step {
    type V = StepV;

    open spec fn view(&self) -> StepV {
        StepV {
            action: self.action@,
            policy: self.policy,
            guard: match self.guard {
                Option::Some(g) => Option::Some(g as int),
                Option::None => Option::None,
            },
        }
    }
}

/// The models of a sequence of steps.
pub open spec fn steps_view(s: Seq<Step>) -> Seq<StepV> {
    Seq::new(s.len(), |i: int| s[i]@)
}

/// An ordered list of steps.
pub struct Plan {
    pub steps: Vec<Step>,
}

impl View for Plan {
    type V = Seq<StepV>;

    open spec fn view(&self) -> Seq<StepV> {
        steps_view(self.steps@)
    }
}

/// The model of a log-only step.
pub open spec fn note_v(text: Seq<char>) -> StepV {
    StepV { action: ActionV::Note { text }, policy: FailurePolicy::Fatal, guard: Option::None }
}

/// The model of a fatal shell-command step.
pub open spec fn shell_v(command: Seq<char>) -> StepV {
    StepV {
        action: ActionV::Run { invocation: InvocationV::Shell { command } },
        policy: FailurePolicy::Fatal,
        guard: Option::None,
    }
}

/// The model of a best-effort shell-command step.
pub open spec fn shell_best_effort_v(command: Seq<char>) -> StepV {
    StepV {
        action: ActionV::Run { invocation: InvocationV::Shell { command } },
        policy: FailurePolicy::BestEffort,
        guard: Option::None,
    }
}

/// The command line an invocation stands for, as it is logged.
pub open spec fn invocation_text(inv: InvocationV) -> Seq<char> {
    match inv {
        InvocationV::Program { program, args } => {
            if args.len() == 0 {
                program
            } else {
                program + " "@ + join_with(args, " "@)
            }
        },
        InvocationV::Shell { command } => command,
    }
}

/// The one-line description of an action used in logs and failure reports.
pub open spec fn action_text(a: ActionV) -> Seq<char> {
    match a {
        ActionV::Note { text } => text,
        ActionV::Run { invocation } => invocation_text(invocation),
        ActionV::WriteScript { path, .. } => "write script "@ + path,
        ActionV::RemoveFile { path } => "remove file "@ + path,
    }
}

/// The log line written before an action is performed.
pub open spec fn live_line(a: ActionV) -> Seq<char> {
    "Running: "@ + action_text(a)
}

/// The log line written for an action under dry-run.
pub open spec fn dry_line(a: ActionV) -> Seq<char> {
    "Running(dry-run): "@ + action_text(a)
}

/// The log line written when a best-effort action fails.
pub open spec fn warn_line(a: ActionV) -> Seq<char> {
    "Warning: best-effort step failed: "@ + action_text(a)
}

/// Renders the one-line description of an action.
pub fn describe_action(a: &Action) -> (r: String)
    ensures
        r@ == action_text(a@),
{
    match a {
        Action::Note { text } => text.clone(),
        Action::Run { invocation } => match invocation {
            CommandInvocation::Shell { command } => command.clone(),
            CommandInvocation::Program { program, args } => {
                if args.len() == 0 {
                    program.clone()
                } else {
                    let mut r = program.clone();
                    r.append(" ");
                    let joined = crate::text::join_strings(args, " ");
                    r.append(joined.as_str());
                    r
                }
            },
        },
        Action::WriteScript { path, .. } => {
            let mut r = String::from_str("write script ");
            r.append(path.as_str());
            r
        },
        Action::RemoveFile { path } => {
            let mut r = String::from_str("remove file ");
            r.append(path.as_str());
            r
        },
    }
}

/// A command failure, preserving which step failed, what it was, and the
/// exit code (`None` when the process was terminated by a signal or the
/// action produced no code at all).
pub struct FailureRecord {
    pub step: usize,
    pub subject: String,
    pub exit_code: Option<i32>,
}

/// Mathematical model of a `FailureRecord`.
pub struct FailureV {
    pub step: int,
    pub subject: Seq<char>,
    pub exit_code: Option<i32>,
}

impl View for FailureRecord {
    type V = FailureV;

    open spec fn view(&self) -> FailureV {
        FailureV { step: self.step as int, subject: self.subject@, exit_code: self.exit_code }
    }
}

/// A step that only logs `text`.
pub fn note(text: &str) -> (s: Step)
    ensures
        s@ == (StepV {
            action: ActionV::Note { text: text@ },
            policy: FailurePolicy::Fatal,
            guard: Option::None,
        }),
{
    Step {
        action: Action::Note { text: String::from_str(text) },
        policy: FailurePolicy::Fatal,
        guard: Option::None,
    }
}

/// A fatal step running one shell command.
pub fn shell(command: String) -> (s: Step)
    ensures
        s@ == (StepV {
            action: ActionV::Run { invocation: InvocationV::Shell { command: command@ } },
            policy: FailurePolicy::Fatal,
            guard: Option::None,
        }),
{
    Step {
        action: Action::Run { invocation: CommandInvocation::Shell { command } },
        policy: FailurePolicy::Fatal,
        guard: Option::None,
    }
}

/// A best-effort step running one shell command.
pub fn shell_best_effort(command: String) -> (s: Step)
    ensures
        s@ == (StepV {
            action: ActionV::Run { invocation: InvocationV::Shell { command: command@ } },
            policy: FailurePolicy::BestEffort,
            guard: Option::None,
        }),
{
    Step {
        action: Action::Run { invocation: CommandInvocation::Shell { command } },
        policy: FailurePolicy::BestEffort,
        guard: Option::None,
    }
}

} // verus!
