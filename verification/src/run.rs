//! Carrying a handler's effects out, one by one: each is tried whatever
//! became of those before it, and each failure is reported where it happened.

use vstd::prelude::*;

use crate::model::{Effect, Step, StepView};

verus! {

/// What became of one effect.
#[derive(Clone, Copy, Debug, PartialEq, Eq, Structural)]
pub enum Outcome {
    Succeeded,
    Failed,
}

/// What is to be logged after one effect.
#[derive(Clone, Debug, PartialEq, Eq)]
pub enum Report {
    /// Nothing.
    Silent,
    /// An informational line.
    Info(String),
    /// An error line: the context, to which the cause is added.
    Error(String),
}

/// What a `Report` stands for.
pub enum ReportView {
    Silent,
    Info(Seq<char>),
    Error(Seq<char>),
}

impl View for Report {
    type V = ReportView;

    open spec fn view(&self) -> ReportView {
        match self {
            Report::Silent => ReportView::Silent,
            Report::Info(line) => ReportView::Info(line@),
            Report::Error(context) => ReportView::Error(context@),
        }
    }
}

/// The line that a step asks for once its effect was tried.
pub open spec fn report_for(step: StepView, outcome: Outcome) -> ReportView {
    match outcome {
        Outcome::Failed => match step.on_failure {
            Some(context) => ReportView::Error(context),
            None => ReportView::Silent,
        },
        Outcome::Succeeded => match step.on_success {
            Some(line) => ReportView::Info(line),
            None => ReportView::Silent,
        },
    }
}

/// The steps that are left once the first of `remaining` was tried: all the
/// others, whatever the outcome was.
pub open spec fn after_attempt(remaining: Seq<StepView>, outcome: Outcome) -> Seq<StepView> {
    if remaining.len() == 0 {
        remaining
    } else {
        remaining.drop_first()
    }
}

/// The steps that are left once one step was tried for each of `outcomes`.
pub open spec fn after_attempts(remaining: Seq<StepView>, outcomes: Seq<Outcome>) -> Seq<StepView>
    decreases outcomes.len(),
{
    if outcomes.len() == 0 {
        remaining
    } else {
        after_attempts(after_attempt(remaining, outcomes[0]), outcomes.drop_first())
    }
}

/// A handler's effects while they are carried out.
pub struct Run {
    steps: Vec<Step>,
    done: usize,
}

impl Run {
    #[verifier::type_invariant]
    spec fn inv(self) -> bool {
        self.done <= self.steps.len()
    }

    /// The steps that are still to be tried, the next one first.
    pub closed spec fn remaining(&self) -> Seq<StepView> {
        self.steps.deep_view().skip(self.done as int)
    }

    /// A run that has all of `steps` before it.
    pub fn new(steps: Vec<Step>) -> (run: Run)
        ensures
            run.remaining() == steps.deep_view(),
    {
        Run { steps, done: 0 }
    }

    /// The effect to try next; none once all were tried.
    pub fn pending(&self) -> (next: Option<&Effect>)
        ensures
            self.remaining().len() == 0 <==> next is None,
            next matches Some(effect) ==> effect@ == self.remaining()[0].effect,
    {
        proof {
            use_type_invariant(self);
        }
        if self.done < self.steps.len() {
            Some(&self.steps[self.done].effect)
        } else {
            None
        }
    }

    /// Takes note of what became of the pending effect and moves on to the
    /// next one. Returns what is to be logged. Does nothing once all effects
    /// were tried.
    pub fn complete(&mut self, outcome: Outcome) -> (report: Report)
        ensures
            final(self).remaining() == after_attempt(old(self).remaining(), outcome),
            old(self).remaining().len() == 0 ==> report@ == ReportView::Silent,
            old(self).remaining().len() > 0 ==> report@ == report_for(
                old(self).remaining()[0],
                outcome,
            ),
    {
        proof {
            use_type_invariant(&*self);
        }
        if self.done >= self.steps.len() {
            return Report::Silent;
        }
        let step = &self.steps[self.done];
        let report = match outcome {
            Outcome::Failed => match &step.on_failure {
                Some(context) => Report::Error(context.clone()),
                None => Report::Silent,
            },
            Outcome::Succeeded => match &step.on_success {
                Some(line) => Report::Info(line.clone()),
                None => Report::Silent,
            },
        };
        self.done = self.done + 1;
        report
    }
}

} // verus!
