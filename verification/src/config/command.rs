//! The handler of the module `command`: runs a command line.
use vstd::prelude::*;
use crate::config::{log, logged, note, Effect, Plan, PlanView, Value};
use crate::logger::{Level, Record, RecordView};
use crate::shell::{self, Invocation, InvocationView};
use crate::text::{join, views};

verus! {

/// How the handler opens.
#[derive(Debug, PartialEq, Eq)]
pub enum Start {
    /// Write the record, perform the launches in order, and report with
    /// [`finish`] how each of them went.
    Launch { notice: Record, launches: Vec<Invocation> },
    /// There is no command to run: the plan is all there is.
    Skip(Plan),
}

/// The mathematical value of a [`Start`].
pub enum StartView {
    Launch { notice: RecordView, launches: Seq<InvocationView> },
    Skip(PlanView),
}

impl View for Start {
    type V = StartView;

    open spec fn view(&self) -> StartView {
        match self {
            Start::Launch { notice, launches } => StartView::Launch {
                notice: notice@,
                launches: views(launches@),
            },
            Start::Skip(plan) => StartView::Skip(plan@),
        }
    }
}

/// How the handler opens for the given arguments: a string is a command line
/// to run; any other value leaves nothing to do, which counts as success.
pub open spec fn started(args: Value) -> StartView {
    match args.text() {
        Some(line) => StartView::Launch {
            notice: RecordView { level: Level::Info, message: "Running command: "@ + line },
            launches: shell::launches(line),
        },
        None => StartView::Skip(
            PlanView {
                effects: seq![logged(Level::Warning, "Nothing to do."@)],
                outcome: Some(()),
            },
        ),
    }
}

/// How the handler ends once the launches have been performed: the task
/// succeeds if the command line has run well, and fails if it has not.
pub open spec fn finished(results: Seq<bool>) -> PlanView {
    if shell::completed(results) {
        PlanView { effects: seq![logged(Level::Info, "Done."@)], outcome: Some(()) }
    } else {
        PlanView { effects: seq![logged(Level::Error, "The command failed."@)], outcome: None }
    }
}

/// Opens the run of a command in the shell.
pub fn run(args: &Value) -> (start: Start)
    ensures
        start@ == started(*args),
{
    match args.as_str() {
        Some(line) => {
            let announce = join("Running command: ", line);
            Start::Launch {
                notice: note(Level::Info, announce.as_str()),
                launches: shell::run(line),
            }
        },
        None => {
            let mut effects: Vec<Effect> = Vec::new();
            effects.push(log(Level::Warning, "Nothing to do."));
            assert(views(effects@) =~= seq![logged(Level::Warning, "Nothing to do."@)]);
            Start::Skip(Plan { effects, outcome: Some(()) })
        },
    }
}

/// Ends the run of a command, given for each launch, in order, whether the
/// program started and exited with success.
pub fn finish(results: &Vec<bool>) -> (plan: Plan)
    ensures
        plan@ == finished(results@),
{
    let mut effects: Vec<Effect> = Vec::new();
    if shell::succeeded(results) {
        effects.push(log(Level::Info, "Done."));
        assert(views(effects@) =~= seq![logged(Level::Info, "Done."@)]);
        Plan { effects, outcome: Some(()) }
    } else {
        effects.push(log(Level::Error, "The command failed."));
        assert(views(effects@) =~= seq![logged(Level::Error, "The command failed."@)]);
        Plan { effects, outcome: None }
    }
}

} // verus!
