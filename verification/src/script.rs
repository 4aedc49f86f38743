//! Linear scripts of operating system steps.
//!
//! A strategy that talks to the display server or the kernel is planned as a
//! script: a fixed sequence of steps. The caller performs the step the run
//! points at, reports how it went, and asks again. The run moves on after a
//! success, ends with the step's error after a failure that matters, and ends
//! with success once every step is behind it.

use vstd::prelude::*;
use vstd::string::*;
use crate::error::{PasteError, PasteErrorView};

verus! {

/// A step of a script: it knows what its own failure means for the run.
pub trait Step: Copy {
    /// The error that a failure of this step ends the run with, given the
    /// detail reported from outside; `None` where the failure is passed over.
    spec fn failure_spec(self, detail: Seq<char>) -> Option<PasteErrorView>;

    fn failure(&self, detail: &str) -> (r: Option<PasteError>)
        ensures
            same_error(r, self.failure_spec(detail@)),
    ;
}

/// `e` is the error that `v` describes, or both are absent.
pub open spec fn same_error(e: Option<PasteError>, v: Option<PasteErrorView>) -> bool {
    match e {
        Some(e) => v == Some(e@),
        None => v is None,
    }
}

/// How one performed step went: `Ok`, or `Err` with the detail reported from outside.
pub type Report = Result<(), Seq<char>>;

/// What the caller has to do next.
pub enum Directive<A> {
    /// Perform this step, then report its outcome.
    Perform(A),
    /// The run is over, with this result.
    Finished(Result<(), PasteError>),
}

/// The mathematical value of a `Directive`.
pub enum DirectiveView<A> {
    Perform(A),
    Finished(Result<(), PasteErrorView>),
}

impl<A> View for Directive<A> {
    type V = DirectiveView<A>;

    open spec fn view(&self) -> DirectiveView<A> {
        match *self {
            Directive::Perform(a) => DirectiveView::Perform(a),
            Directive::Finished(Ok(())) => DirectiveView::Finished(Ok(())),
            Directive::Finished(Err(e)) => DirectiveView::Finished(Err(e@)),
        }
    }
}

/// The mathematical value of a run: the script, how many steps are behind it,
/// and the error it ended with, if it did.
pub struct RunView<A> {
    pub script: Seq<A>,
    pub position: nat,
    pub failure: Option<PasteErrorView>,
}

impl<A: Step> RunView<A> {
    /// A run that has performed nothing yet.
    pub open spec fn fresh(script: Seq<A>) -> RunView<A> {
        RunView { script, position: 0, failure: None }
    }

    pub open spec fn finished(self) -> bool {
        self.failure is Some || self.position >= self.script.len()
    }

    /// The number of steps that may still be performed.
    pub open spec fn remaining(self) -> nat {
        if self.finished() {
            0
        } else {
            (self.script.len() - self.position) as nat
        }
    }

    pub open spec fn directive(self) -> DirectiveView<A> {
        match self.failure {
            Some(e) => DirectiveView::Finished(Err(e)),
            None => if self.position < self.script.len() {
                DirectiveView::Perform(self.script[self.position as int])
            } else {
                DirectiveView::Finished(Ok(()))
            },
        }
    }

    /// The run after the outcome of the current step was reported. A finished
    /// run stays as it is.
    pub open spec fn report(self, outcome: Report) -> RunView<A> {
        if self.finished() {
            self
        } else {
            match outcome {
                Ok(()) => RunView { position: self.position + 1, ..self },
                Err(detail) => match self.script[self.position as int].failure_spec(detail) {
                    Some(e) => RunView { failure: Some(e), ..self },
                    None => RunView { position: self.position + 1, ..self },
                },
            }
        }
    }

    /// The run after a sequence of outcomes was reported, one by one.
    pub open spec fn replay(self, outcomes: Seq<Report>) -> RunView<A>
        decreases outcomes.len(),
    {
        if outcomes.len() == 0 {
            self
        } else {
            self.report(outcomes[0]).replay(outcomes.drop_first())
        }
    }
}

/// A run through a script.
pub struct Run<A> {
    script: Vec<A>,
    position: usize,
    failure: Option<PasteError>,
}

impl<A: Step> View for Run<A> {
    type V = RunView<A>;

    closed spec fn view(&self) -> RunView<A> {
        RunView {
            script: self.script@,
            position: self.position as nat,
            failure: match self.failure {
                Some(e) => Some(e@),
                None => None,
            },
        }
    }
}

impl<A: Step> Run<A> {
    /// Starts a run at the first step of `script`.
    pub fn start(script: Vec<A>) -> (run: Run<A>)
        ensures
            run@ == RunView::fresh(script@),
    {
        Run { script, position: 0, failure: None }
    }

    /// What to do now: the step to perform, or the result of the run.
    pub fn directive(&self) -> (d: Directive<A>)
        ensures
            d@ == self@.directive(),
    {
        match &self.failure {
            Some(e) => Directive::Finished(
                Err(PasteError { kind: e.kind, message: e.message.clone() }),
            ),
            None => if self.position < self.script.len() {
                Directive::Perform(self.script[self.position])
            } else {
                Directive::Finished(Ok(()))
            },
        }
    }

    /// Takes the outcome of the step that `directive` asked for.
    pub fn report(&mut self, outcome: Result<(), String>)
        ensures
            final(self)@ == old(self)@.report(
                match outcome {
                    Ok(()) => Ok(()),
                    Err(detail) => Err(detail@),
                },
            ),
    {
        if self.failure.is_some() || self.position >= self.script.len() {
            return ;
        }
        match outcome {
            Ok(()) => {
                self.position = self.position + 1;
            },
            Err(detail) => {
                let step = self.script[self.position];
                match step.failure(detail.as_str()) {
                    Some(e) => {
                        self.failure = Some(e);
                    },
                    None => {
                        self.position = self.position + 1;
                    },
                }
            },
        }
    }
}

/// Every report on an unfinished run leaves fewer steps to perform, so a run
/// ends after at most as many reports as its script has steps.
pub proof fn lemma_report_makes_progress<A: Step>(run: RunView<A>, outcome: Report)
    requires
        !run.finished(),
    ensures
        run.report(outcome).remaining() < run.remaining(),
        run.report(outcome).script == run.script,
{
}

/// A run never gets ahead of its reports: after `outcomes` it has at most
/// `outcomes.len()` more steps behind it than before.
pub proof fn lemma_replay_bounded<A: Step>(run: RunView<A>, outcomes: Seq<Report>)
    ensures
        run.replay(outcomes).script == run.script,
        run.position <= run.replay(outcomes).position <= run.position + outcomes.len(),
    decreases outcomes.len(),
{
    if outcomes.len() > 0 {
        lemma_replay_bounded(run.report(outcomes[0]), outcomes.drop_first());
    }
}

/// A run ends with success only after every step of its script was reported:
/// no step is skipped, the last one included.
pub proof fn lemma_success_after_every_step<A: Step>(script: Seq<A>, outcomes: Seq<Report>)
    requires
        RunView::fresh(script).replay(outcomes).directive() == DirectiveView::<A>::Finished(Ok(())),
    ensures
        outcomes.len() >= script.len(),
{
    lemma_replay_bounded(RunView::fresh(script), outcomes);
}

/// Reporting success for every step of a script ends the run with success.
pub proof fn lemma_all_successes_finish<A: Step>(run: RunView<A>, outcomes: Seq<Report>)
    requires
        run.failure is None,
        run.position <= run.script.len(),
        outcomes.len() == run.script.len() - run.position,
        forall|i: int| 0 <= i < outcomes.len() ==> outcomes[i] is Ok,
    ensures
        run.replay(outcomes).directive() == DirectiveView::<A>::Finished(Ok(())),
    decreases outcomes.len(),
{
    if outcomes.len() > 0 {
        lemma_all_successes_finish(run.report(outcomes[0]), outcomes.drop_first());
    }
}

} // verus!
