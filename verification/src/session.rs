//! The execution session: walks a plan step by step, threading the
//! execution mode, the log and the first fatal failure through every
//! transition.
//!
//! The session itself performs nothing external.  Under dry-run it consumes
//! every step, logging what would run.  Under live execution it hands each
//! performable step out through a directive; the caller performs it and
//! reports the outcome.  Once a fatal failure is recorded, later steps are
//! skipped — except cleanup steps whose guard step ran before the failure,
//! which still run so that ephemeral resources are released on every path.

use vstd::prelude::*;

verus! {

use vstd::string::StringExecFns;
use crate::command::{Action, ActionV, ExecutionMode, ExitOutcome, FailurePolicy, FailureRecord,
FailureV, Plan, Step, StepV, action_text, describe_action, dry_line, live_line, warn_line};

/// What the caller of `advance` must do next.
#[derive(Clone, Copy, PartialEq, Eq, Structural, Debug)]
pub enum Directive {
    /// The session handled a step internally; call `advance` again.
    Advanced,
    /// Perform the action of the step at this index, then `report`.
    Perform(usize),
    /// The plan is exhausted.
    Finished,
}

/// Ghost state of a session.
pub struct SessionV {
    pub plan: Seq<StepV>,
    pub dry_run: bool,
    pub pos: int,
    pub awaiting: bool,
    pub err: Option<FailureV>,
    pub log: Seq<Seq<char>>,
}

/// The state a session starts in.
pub open spec fn initial_session(plan: Seq<StepV>, dry_run: bool) -> SessionV {
    SessionV {
        plan,
        dry_run,
        pos: 0,
        awaiting: false,
        err: Option::None,
        log: Seq::empty(),
    }
}

/// Whether step `i` still runs given the first recorded failure: with no
/// failure every step runs; after one, only a cleanup step whose guard step
/// ran before the failure.
pub open spec fn step_enabled(s: SessionV, i: int) -> bool {
    match s.err {
        Option::None => true,
        Option::Some(f) => match s.plan[i].guard {
            Option::Some(g) => g < f.step,
            Option::None => false,
        },
    }
}

/// One `advance` transition on the ghost state.
pub open spec fn advance_state(s: SessionV) -> SessionV {
    if s.pos >= s.plan.len() {
        s
    } else if !step_enabled(s, s.pos) {
        SessionV { pos: s.pos + 1, ..s }
    } else {
        match s.plan[s.pos].action {
            ActionV::Note { text } => SessionV { pos: s.pos + 1, log: s.log.push(text), ..s },
            a => {
                if s.dry_run {
                    SessionV { pos: s.pos + 1, log: s.log.push(dry_line(a)), ..s }
                } else {
                    SessionV { awaiting: true, log: s.log.push(live_line(a)), ..s }
                }
            },
        }
    }
}

/// The directive `advance` returns in a given state.
pub open spec fn advance_directive(s: SessionV) -> Directive {
    if s.pos >= s.plan.len() {
        Directive::Finished
    } else if !step_enabled(s, s.pos) {
        Directive::Advanced
    } else {
        match s.plan[s.pos].action {
            ActionV::Note { .. } => Directive::Advanced,
            a => {
                if s.dry_run {
                    Directive::Advanced
                } else {
                    Directive::Perform(s.pos as usize)
                }
            },
        }
    }
}

/// One `report` transition on the ghost state: success just moves on; a
/// best-effort failure logs a warning and moves on; a fatal failure records
/// the first failure.
pub open spec fn report_state(s: SessionV, outcome: ExitOutcome) -> SessionV {
    let st = s.plan[s.pos];
    match outcome {
        ExitOutcome::Success => SessionV { awaiting: false, pos: s.pos + 1, ..s },
        ExitOutcome::Failed { exit_code } => match st.policy {
            FailurePolicy::BestEffort => SessionV {
                awaiting: false,
                pos: s.pos + 1,
                log: s.log.push(warn_line(st.action)),
                ..s
            },
            FailurePolicy::Fatal => match s.err {
                Option::None => SessionV {
                    awaiting: false,
                    pos: s.pos + 1,
                    err: Option::Some(
                        FailureV { step: s.pos, subject: action_text(st.action), exit_code },
                    ),
                    ..s
                },
                Option::Some(_) => SessionV { awaiting: false, pos: s.pos + 1, ..s },
            },
        },
    }
}

/// A best-effort step never records a failure: whatever its outcome, the
/// session's first recorded failure is unchanged.
pub proof fn lemma_best_effort_never_fatal(s: SessionV, outcome: ExitOutcome)
    requires
        0 <= s.pos < s.plan.len(),
        s.plan[s.pos].policy is BestEffort,
    ensures
        report_state(s, outcome).err == s.err,
{
}

/// The log a dry run appends while consuming `plan` from step `i` on, with
/// no failure recorded: the announcement of every note and the dry-run line
/// of every other action, in plan order.
pub open spec fn dry_log_from(plan: Seq<StepV>, i: int) -> Seq<Seq<char>>
    decreases plan.len() - i,
    when 0 <= i <= plan.len()
{
    if i >= plan.len() {
        Seq::empty()
    } else {
        (match plan[i].action {
            ActionV::Note { text } => seq![text],
            a => seq![dry_line(a)],
        }) + dry_log_from(plan, i + 1)
    }
}

/// The full log of a dry run of `plan`.
pub open spec fn dry_log(plan: Seq<StepV>) -> Seq<Seq<char>> {
    dry_log_from(plan, 0)
}

/// A session over one plan.
pub struct Session {
    pub plan: Plan,
    pub mode: ExecutionMode,
    pub pos: usize,
    pub awaiting: bool,
    pub err: Option<FailureRecord>,
    pub log: Vec<String>,
}

impl View for Session {
    type V = SessionV;

    open spec fn view(&self) -> SessionV {
        SessionV {
            plan: self.plan@,
            dry_run: self.mode is DryRun,
            pos: self.pos as int,
            awaiting: self.awaiting,
            err: match self.err {
                Option::Some(f) => Option::Some(f@),
                Option::None => Option::None,
            },
            log: self.log.deep_view(),
        }
    }
}

impl Session {
    /// The session's structural invariant.
    pub open spec fn wf(self) -> bool {
        self.pos <= self.plan.steps.len() && (self.awaiting ==> self.pos
            < self.plan.steps.len())
    }

    /// Starts a session on a plan.
    pub fn new(plan: Plan, mode: ExecutionMode) -> (s: Session)
        ensures
            s@ == initial_session(plan@, mode is DryRun),
            s.wf(),
    {
        let s = Session {
            plan,
            mode,
            pos: 0,
            awaiting: false,
            err: Option::None,
            log: Vec::new(),
        };
        proof {
            assert(s.log.deep_view() =~= Seq::<Seq<char>>::empty());
        }
        s
    }

    /// One step of progress.  Notes, skipped steps and dry-run steps are
    /// consumed internally; under dry-run no step is ever handed out to be
    /// performed.
    pub fn advance(&mut self) -> (d: Directive)
        requires
            old(self).wf(),
            !old(self).awaiting,
        ensures
            final(self)@ == advance_state(old(self)@),
            d == advance_directive(old(self)@),
            final(self).wf(),
            old(self)@.dry_run ==> !(d is Perform),
            final(self).mode == old(self).mode,
    {
        if self.pos >= self.plan.steps.len() {
            return Directive::Finished;
        }
        let enabled = match &self.err {
            Option::None => true,
            Option::Some(f) => match self.plan.steps[self.pos].guard {
                Option::Some(g) => g < f.step,
                Option::None => false,
            },
        };
        if !enabled {
            self.pos = self.pos + 1;
            return Directive::Advanced;
        }
        match &self.plan.steps[self.pos].action {
            Action::Note { text } => {
                let t = text.clone();
                self.log.push(t);
                self.pos = self.pos + 1;
                proof {
                    assert(self.log.deep_view() =~= advance_state(old(self)@).log);
                }
                Directive::Advanced
            },
            a => {
                let described = describe_action(a);
                match self.mode {
                    ExecutionMode::DryRun => {
                        let mut line = String::from_str("Running(dry-run): ");
                        line.append(described.as_str());
                        self.log.push(line);
                        self.pos = self.pos + 1;
                        proof {
                            assert(self.log.deep_view() =~= advance_state(old(self)@).log);
                        }
                        Directive::Advanced
                    },
                    ExecutionMode::Live => {
                        let mut line = String::from_str("Running: ");
                        line.append(described.as_str());
                        self.log.push(line);
                        self.awaiting = true;
                        proof {
                            assert(self.log.deep_view() =~= advance_state(old(self)@).log);
                        }
                        Directive::Perform(self.pos)
                    },
                }
            },
        }
    }

    /// Takes the outcome of the step most recently handed out.
    pub fn report(&mut self, outcome: ExitOutcome)
        requires
            old(self).wf(),
            old(self).awaiting,
        ensures
            final(self)@ == report_state(old(self)@, outcome),
            final(self).wf(),
            !final(self).awaiting,
            final(self).mode == old(self).mode,
    {
        self.awaiting = false;
        match outcome {
            ExitOutcome::Success => {
                self.pos = self.pos + 1;
            },
            ExitOutcome::Failed { exit_code } => {
                match self.plan.steps[self.pos].policy {
                    FailurePolicy::BestEffort => {
                        let described = describe_action(&self.plan.steps[self.pos].action);
                        let mut line = String::from_str("Warning: best-effort step failed: ");
                        line.append(described.as_str());
                        self.log.push(line);
                        self.pos = self.pos + 1;
                        proof {
                            assert(self.log.deep_view() =~= report_state(
                                old(self)@,
                                outcome,
                            ).log);
                        }
                    },
                    FailurePolicy::Fatal => {
                        let already_failed = match &self.err {
                            Option::Some(_) => true,
                            Option::None => false,
                        };
                        if !already_failed {
                            let subject = describe_action(&self.plan.steps[self.pos].action);
                            self.err = Option::Some(
                                FailureRecord { step: self.pos, subject, exit_code },
                            );
                        }
                        self.pos = self.pos + 1;
                    },
                }
            },
        }
    }

    /// Whether every step has been consumed.
    pub fn is_finished(&self) -> (b: bool)
        requires
            self.wf(),
        ensures
            b == (self@.pos == self@.plan.len() && !self@.awaiting),
    {
        self.pos >= self.plan.steps.len() && !self.awaiting
    }

    /// The overall result: success exactly when no fatal failure was
    /// recorded.
    pub fn outcome(&self) -> (r: Result<(), &FailureRecord>)
        ensures
            r is Ok <==> self@.err is None,
            r matches Err(f) ==> self@.err == Option::Some(f@),
    {
        match &self.err {
            Option::None => Result::Ok(()),
            Option::Some(f) => Result::Err(f),
        }
    }

    /// The log so far.
    pub fn log(&self) -> (l: &Vec<String>)
        ensures
            l.deep_view() == self@.log,
    {
        &self.log
    }

    /// The step at a given index, for the caller performing it.
    pub fn step_at(&self, i: usize) -> (s: &Step)
        requires
            i < self@.plan.len(),
        ensures
            s@ == self@.plan[i as int],
    {
        &self.plan.steps[i]
    }

    /// Consumes the whole plan under dry-run.  No step is performed, no
    /// failure can be recorded, and the log gains exactly one line per
    /// step: the planned invocations in order.
    pub fn run_to_completion(&mut self)
        requires
            old(self).wf(),
            !old(self).awaiting,
            old(self)@.dry_run,
            old(self)@.err is None,
        ensures
            final(self).wf(),
            final(self)@.pos == final(self)@.plan.len(),
            !final(self)@.awaiting,
            final(self)@.err is None,
            final(self)@.plan == old(self)@.plan,
            final(self)@.dry_run,
            final(self)@.log == old(self)@.log + dry_log_from(
                old(self)@.plan,
                old(self)@.pos,
            ),
    {
        loop
            invariant_except_break
                self.wf(),
                !self.awaiting,
                self@.dry_run,
                self@.err is None,
                self@.plan == old(self)@.plan,
                old(self)@.pos <= self@.pos <= self@.plan.len(),
                self.mode == old(self).mode,
                old(self)@.log + dry_log_from(old(self)@.plan, old(self)@.pos) == self@.log
                    + dry_log_from(self@.plan, self@.pos),
            ensures
                self.wf(),
                !self.awaiting,
                self@.err is None,
                self@.plan == old(self)@.plan,
                self@.dry_run,
                self@.pos == self@.plan.len(),
                self.mode == old(self).mode,
                old(self)@.log + dry_log_from(old(self)@.plan, old(self)@.pos) == self@.log,
            decreases self@.plan.len() - self@.pos,
        {
            let ghost pre = self@;
            let d = self.advance();
            if let Directive::Finished = d {
                proof {
                    assert(pre.pos == pre.plan.len());
                    assert(dry_log_from(self@.plan, self@.pos) =~= Seq::<Seq<char>>::empty());
                    assert(self@.log + dry_log_from(self@.plan, self@.pos) =~= self@.log);
                }
                break;
            }
            proof {
                assert(pre.pos < pre.plan.len());
                let stepped = advance_state(pre);
                assert(stepped.pos == pre.pos + 1);
                assert(stepped.err is None);
                match pre.plan[pre.pos].action {
                    ActionV::Note { text } => {
                        assert(stepped.log == pre.log.push(text));
                        assert(pre.log + dry_log_from(pre.plan, pre.pos) =~= stepped.log
                            + dry_log_from(stepped.plan, stepped.pos));
                    },
                    a => {
                        assert(stepped.log == pre.log.push(dry_line(a)));
                        assert(pre.log + dry_log_from(pre.plan, pre.pos) =~= stepped.log
                            + dry_log_from(stepped.plan, stepped.pos));
                    },
                }
            }
        }
    }
}

} // verus!
