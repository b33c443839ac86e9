use vstd::prelude::*;

use crate::exec::{verdict, ExecMode, Failure, FailureView, Invocation, InvocationView, Outcome};
use crate::plan::{fmt_args_spec, plan, plan_spec, steps_view, Commands, Step, StepView};

verus! {

/// Where a session stands in its plan.
pub enum State {
    /// The step at this index comes next.
    Ready(usize),
    /// The call at this index was handed out and its outcome is awaited.
    Waiting(usize),
    /// A call failed; nothing more runs.
    Failed(Failure),
    /// Every step was carried out.
    Completed,
}

/// The mathematical model of a [`State`].
pub ghost enum StateView {
    Ready(nat),
    Waiting(nat),
    Failed(FailureView),
    Completed,
}

impl View for State {
    type V = StateView;

    open spec fn view(&self) -> StateView {
        match self {
            State::Ready(i) => StateView::Ready(*i as nat),
            State::Waiting(i) => StateView::Waiting(*i as nat),
            State::Failed(f) => StateView::Failed(f@),
            State::Completed => StateView::Completed,
        }
    }
}

/// What the caller is to do next.
pub enum Action {
    /// Show this line.
    Say(String),
    /// Run this call and report its outcome.
    Run(Invocation),
    /// Stop, with the overall result.
    Finish(Result<(), Failure>),
}

/// The mathematical model of an [`Action`].
pub ghost enum ActionView {
    Say(Seq<char>),
    Run(InvocationView),
    Finish(Result<(), FailureView>),
}

impl View for Action {
    type V = ActionView;

    open spec fn view(&self) -> ActionView {
        match self {
            Action::Say(m) => ActionView::Say(m@),
            Action::Run(inv) => ActionView::Run(inv@),
            Action::Finish(Ok(())) => ActionView::Finish(Ok(())),
            Action::Finish(Err(f)) => ActionView::Finish(Err(f@)),
        }
    }
}

/// The mathematical model of a [`Session`].
pub ghost struct SessionView {
    pub steps: Seq<StepView>,
    pub state: StateView,
}

/// A state is consistent with its plan: a ready index lies within the plan,
/// and an awaited step is a call.
pub open spec fn consistent(v: SessionView) -> bool {
    match v.state {
        StateView::Ready(i) => i <= v.steps.len(),
        StateView::Waiting(i) => i < v.steps.len() && v.steps[i as int] is Run,
        _ => true,
    }
}

/// The next state and the action handed out when the caller asks what to do.
pub open spec fn next_spec(steps: Seq<StepView>, state: StateView) -> (StateView, ActionView) {
    match state {
        StateView::Ready(i) => if i >= steps.len() {
            (StateView::Completed, ActionView::Finish(Ok(())))
        } else {
            match steps[i as int] {
                StepView::Say(m) => (StateView::Ready(i + 1), ActionView::Say(m)),
                StepView::Run(inv) => (StateView::Waiting(i), ActionView::Run(inv)),
            }
        },
        StateView::Waiting(i) => (state, ActionView::Run(steps[i as int]->Run_0)),
        StateView::Failed(f) => (state, ActionView::Finish(Err(f))),
        StateView::Completed => (state, ActionView::Finish(Ok(()))),
    }
}

/// The state after the awaited call ended with `outcome`: a silent call is
/// best effort and is passed whatever came of it; any other call is judged by
/// its mode, and its failure ends the session. Outside a wait nothing changes.
pub open spec fn report_spec(steps: Seq<StepView>, state: StateView, outcome: Outcome) -> StateView {
    match state {
        StateView::Waiting(i) => {
            let inv = steps[i as int]->Run_0;
            if inv.mode == ExecMode::Silent {
                StateView::Ready(i + 1)
            } else {
                match verdict(inv, outcome) {
                    None => StateView::Ready(i + 1),
                    Some(f) => StateView::Failed(f),
                }
            }
        },
        _ => state,
    }
}

/// Carries out a plan one step at a time: the caller asks for the next
/// action, performs it, and reports the outcome of each call. The first
/// failing call ends the session.
pub struct Session {
    steps: Vec<Step>,
    state: State,
}

impl View for Session {
    type V = SessionView;

    closed spec fn view(&self) -> SessionView {
        SessionView { steps: steps_view(self.steps@), state: self.state@ }
    }
}

impl Session {
    /// The session's state agrees with its plan.
    pub open spec fn wf(&self) -> bool {
        consistent(self@)
    }

    /// A session at the start of `steps`.
    pub fn new(steps: Vec<Step>) -> (s: Session)
        ensures
            s@ == (SessionView { steps: steps_view(steps@), state: StateView::Ready(0) }),
            s.wf(),
    {
        Session { steps, state: State::Ready(0) }
    }

    /// A session at the start of the plan for `cmd` rooted at `root`, or
    /// `None` for the SSH setup, which runs no programs.
    pub fn start(cmd: Commands, root: &str) -> (r: Option<Session>)
        ensures
            r is None <==> cmd is SetupZed,
            r matches Some(s) ==> s.wf() && s@.state == StateView::Ready(0) && Some(s@.steps) == plan_spec(cmd, root@),
    {
        match plan(cmd, root) {
            Some(steps) => Some(Session::new(steps)),
            None => None,
        }
    }

    /// Whether a call was handed out and its outcome is awaited.
    pub fn is_waiting(&self) -> (r: bool)
        ensures
            r == (self@.state is Waiting),
    {
        matches!(self.state, State::Waiting(_))
    }

    /// Hands out the next action and moves past it; a call is handed out
    /// again until its outcome is reported.
    pub fn next(&mut self) -> (a: Action)
        requires
            old(self).wf(),
        ensures
            final(self).wf(),
            final(self)@.steps == old(self)@.steps,
            (final(self)@.state, a@) == next_spec(old(self)@.steps, old(self)@.state),
    {
        match &self.state {
            State::Ready(i) => {
                let i = *i;
                if i >= self.steps.len() {
                    self.state = State::Completed;
                    Action::Finish(Ok(()))
                } else {
                    match &self.steps[i] {
                        Step::Say(m) => {
                            let m = m.clone();
                            self.state = State::Ready(i + 1);
                            Action::Say(m)
                        },
                        Step::Run(inv) => {
                            let inv = inv.duplicate();
                            self.state = State::Waiting(i);
                            Action::Run(inv)
                        },
                    }
                }
            },
            State::Waiting(i) => {
                match &self.steps[*i] {
                    Step::Run(inv) => Action::Run(inv.duplicate()),
                    Step::Say(_) => Action::Finish(Ok(())),
                }
            },
            State::Failed(f) => Action::Finish(Err(f.duplicate())),
            State::Completed => Action::Finish(Ok(())),
        }
    }

    /// Records how the awaited call ended.
    pub fn report(&mut self, outcome: Outcome)
        requires
            old(self).wf(),
        ensures
            final(self).wf(),
            final(self)@.steps == old(self)@.steps,
            final(self)@.state == report_spec(old(self)@.steps, old(self)@.state, outcome),
    {
        if let State::Waiting(i) = &self.state {
            let i = *i;
            assert(steps_view(self.steps@).len() == self.steps@.len());
            assert(i < self.steps.len());
            match &self.steps[i] {
                Step::Run(inv) => {
                    if matches!(inv.mode, ExecMode::Silent) {
                        self.state = State::Ready(i + 1);
                    } else {
                        match inv.settle(outcome) {
                            Ok(()) => {
                                self.state = State::Ready(i + 1);
                            },
                            Err(f) => {
                                self.state = State::Failed(f);
                            },
                        }
                    }
                },
                Step::Say(_) => {},
            }
        }
    }
}


/// A failed session stays failed: it hands out nothing but its failure, and
/// no reported outcome changes it.
pub proof fn lemma_failure_is_final(steps: Seq<StepView>, f: FailureView, outcome: Outcome)
    ensures
        next_spec(steps, StateView::Failed(f)) == (StateView::Failed(f), ActionView::Finish(Err(f))),
        report_spec(steps, StateView::Failed(f), outcome) == StateView::Failed(f),
{
}

/// A silent call never fails the session: whatever its outcome, even a
/// failure to start, the session goes on with the next step.
pub proof fn lemma_silent_call_never_fails(steps: Seq<StepView>, i: nat, outcome: Outcome)
    requires
        i < steps.len(),
        steps[i as int] matches StepView::Run(inv) && inv.mode == ExecMode::Silent,
    ensures
        report_spec(steps, StateView::Waiting(i), outcome) == StateView::Ready(i + 1),
{
}

/// In the quality check the format call is the first call handed out, and
/// when it does not succeed the session fails at once: the lint and test
/// calls that follow it are never handed out.
pub proof fn lemma_check_stops_after_format_failure(fix: bool, root: Seq<char>, outcome: Outcome)
    requires
        !outcome.spec_succeeded(),
    ensures
        ({
            let steps = plan_spec(Commands::Check { fix }, root)->Some_0;
            let s1 = next_spec(steps, StateView::Ready(0)).0;
            let s2 = next_spec(steps, s1).0;
            let (s3, a3) = next_spec(steps, s2);
            let failed = report_spec(steps, s3, outcome);
            &&& s1 == StateView::Ready(1)
            &&& s2 == StateView::Ready(2)
            &&& s3 == StateView::Waiting(2)
            &&& a3 matches ActionView::Run(inv) && inv.args == fmt_args_spec(fix)
            &&& failed is Failed
            &&& next_spec(steps, failed) == (failed, ActionView::Finish(Err(failed->Failed_0)))
            &&& forall|o: Outcome| report_spec(steps, failed, o) == failed
        }),
{
}

} // verus!
