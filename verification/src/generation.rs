//! A run of the generator, step by step.
//!
//! The library decides what is to be done and in which order; the caller does
//! it. [`create`] checks the project name and lays out the steps. The caller
//! then asks for the next step, carries it out, and reports how it went, until
//! no step is left. The first step that fails ends the run.

use crate::creator::{step_views, Creator, CreatorView, NewOptions, Step, StepView};
use crate::error::{Error, ErrorView};
use crate::name::{rejection, validate_name, NameTables};
use vstd::prelude::*;
use vstd::string::*;

verus! {

/// A run in progress: the steps, how many of them are done, and whether one
/// has failed.
#[derive(Debug)]
pub struct Generation {
    steps: Vec<Step>,
    completed: usize,
    aborted: bool,
    message: String,
}

/// A run as mathematical values.
pub struct GenerationView {
    /// All steps of the run, in order.
    pub steps: Seq<StepView>,
    /// How many steps have been carried out with success.
    pub completed: nat,
    /// Whether a step has failed.
    pub aborted: bool,
    /// The confirmation to show after the last step.
    pub message: Seq<char>,
}

/// How a step went, as the caller reports it: done, or failed for a cause.
pub open spec fn outcome_view(outcome: Result<(), String>) -> Result<(), Seq<char>> {
    match outcome {
        Ok(_) => Ok(()),
        Err(cause) => Err(cause@),
    }
}

impl GenerationView {
    /// No more steps are done than there are.
    pub open spec fn well_formed(self) -> bool {
        self.completed <= self.steps.len()
    }

    /// A run of which nothing has been done yet.
    pub open spec fn start(steps: Seq<StepView>, message: Seq<char>) -> GenerationView {
        GenerationView { steps, completed: 0, aborted: false, message }
    }

    /// The step to carry out now. There is none once a step has failed or all
    /// are done.
    pub open spec fn next_step(self) -> Option<StepView> {
        if !self.aborted && self.completed < self.steps.len() {
            Some(self.steps[self.completed as int])
        } else {
            None
        }
    }

    /// Whether every step has been carried out with success.
    pub open spec fn is_finished(self) -> bool {
        !self.aborted && self.completed == self.steps.len()
    }

    /// The run after the outcome of its next step is known. Without a next
    /// step the run stays as it is.
    pub open spec fn after(self, outcome: Result<(), Seq<char>>) -> GenerationView {
        if self.next_step() is None {
            self
        } else {
            match outcome {
                Ok(_) => GenerationView { completed: self.completed + 1, ..self },
                Err(_) => GenerationView { aborted: true, ..self },
            }
        }
    }

    /// What reporting an outcome returns: the failure of the next step, if
    /// there is one and it failed.
    pub open spec fn reported(self, outcome: Result<(), Seq<char>>) -> Result<(), ErrorView> {
        match (self.next_step(), outcome) {
            (Some(step), Err(cause)) => Err(step.failure(cause)),
            _ => Ok(()),
        }
    }
}

impl View for Generation {
    type V = GenerationView;

    closed spec fn view(&self) -> GenerationView {
        GenerationView {
            steps: step_views(self.steps@),
            completed: self.completed as nat,
            aborted: self.aborted,
            message: self.message@,
        }
    }
}

impl Generation {
    #[verifier::type_invariant]
    spec fn completed_within_steps(self) -> bool {
        self.completed <= self.steps.len()
    }

    /// The step to carry out now, if the run goes on.
    pub fn next_step(&self) -> (step: Option<&Step>)
        ensures
            match step {
                Some(step) => self@.next_step() == Some(step@),
                None => self@.next_step() is None,
            },
    {
        if !self.aborted && self.completed < self.steps.len() {
            Some(&self.steps[self.completed])
        } else {
            None
        }
    }

    /// Takes note of how the next step went. After a success the run moves on
    /// to the step that follows. After a failure the run is over, and the
    /// failure is returned with the path of the step and the cause given.
    /// Without a next step nothing changes.
    pub fn record(&mut self, outcome: Result<(), String>) -> (result: Result<(), Error>)
        ensures
            final(self)@.well_formed(),
            final(self)@ == old(self)@.after(outcome_view(outcome)),
            match result {
                Ok(_) => old(self)@.reported(outcome_view(outcome)) is Ok,
                Err(error) => old(self)@.reported(outcome_view(outcome)) == Err::<(), ErrorView>(
                    error@,
                ),
            },
    {
        proof {
            use_type_invariant(&*self);
        }
        if self.aborted || self.completed >= self.steps.len() {
            return Ok(());
        }
        match outcome {
            Ok(_) => {
                self.completed = self.completed + 1;
                Ok(())
            },
            Err(cause) => {
                self.aborted = true;
                Err(self.steps[self.completed].failure(cause))
            },
        }
    }

    /// Whether every step has been carried out with success.
    pub fn is_finished(&self) -> (finished: bool)
        ensures
            finished == self@.is_finished(),
    {
        !self.aborted && self.completed == self.steps.len()
    }

    /// The confirmation to show, once every step has been carried out with
    /// success.
    pub fn success_message(&self) -> (message: Option<&str>)
        ensures
            match message {
                Some(message) => self@.is_finished() && message@ == self@.message,
                None => !self@.is_finished(),
            },
    {
        if self.is_finished() {
            Some(self.message.as_str())
        } else {
            None
        }
    }
}

/// The first failure ends a run. Once a step has failed no further step is
/// handed out, the run never counts as finished, and whatever is reported
/// afterwards changes nothing and returns no second failure.
pub proof fn lemma_failure_ends_run(
    run: GenerationView,
    cause: Seq<char>,
    later: Result<(), Seq<char>>,
)
    requires
        run.next_step() is Some,
    ensures
        run.reported(Err(cause)) == Err::<(), ErrorView>(run.next_step()->0.failure(cause)),
        run.after(Err(cause)).next_step() is None,
        !run.after(Err(cause)).is_finished(),
        run.after(Err(cause)).after(later) == run.after(Err(cause)),
        run.after(Err(cause)).reported(later) is Ok,
{
}

/// Steps are taken one at a time and in order. Reporting a success moves a
/// run on by exactly one step, the steps themselves and the confirmation
/// never change, and a run is finished exactly when as many successes have
/// been reported as there are steps, with no failure among them.
pub proof fn lemma_steps_are_taken_in_order(run: GenerationView, outcome: Result<(), Seq<char>>)
    requires
        run.well_formed(),
    ensures
        run.after(outcome).well_formed(),
        run.after(outcome).steps == run.steps,
        run.after(outcome).message == run.message,
        run.completed <= run.after(outcome).completed <= run.completed + 1,
        run.after(outcome).completed == run.completed + 1 <==> run.next_step() is Some
            && outcome is Ok,
        run.is_finished() ==> run.after(outcome) == run,
        run.after(outcome).is_finished() <==> run.is_finished() || (outcome is Ok
            && run.next_step() is Some && run.completed + 1 == run.steps.len()),
{
}

/// Starts a run: checks the project name, and on success lays out the steps
/// that generate the project and the confirmation to show after the last of
/// them. A rejected name is returned with its reason, and then there is
/// nothing at all to carry out.
pub fn create(tables: &NameTables, options: NewOptions, version: &'static str) -> (result: Result<
    Generation,
    Error,
>)
    ensures
        match result {
            Ok(generation) => {
                let creator = CreatorView { options: options@, gleam_version: version@ };
                &&& rejection(tables@, options@.name) is None
                &&& generation@.well_formed()
                &&& generation@ == GenerationView::start(creator.run(), creator.success_message())
            },
            Err(error) => {
                &&& rejection(tables@, options@.name) matches Some(reason)
                &&& error@ == (ErrorView::InvalidProjectName { name: options@.name, reason })
            },
        },
{
    match validate_name(tables, options.name.as_str()) {
        Err(reason) => Err(Error::InvalidProjectName { name: options.name, reason }),
        Ok(_) => {
            let creator = Creator::new(options, version);
            let steps = creator.run();
            let message = creator.success_message();
            Ok(Generation { steps, completed: 0, aborted: false, message })
        },
    }
}

} // verus!
