//! The handler of the module `script`: executes a script.
use vstd::prelude::*;
use crate::config::{log, logged, note, Effect, Plan, PlanView, Value};
use crate::logger::{Level, Record, RecordView};
use crate::shell::{self, Invocation, InvocationView};
use crate::text::{join, views};

verus! {

/// How the handler opens.
#[derive(Debug, PartialEq, Eq)]
pub enum Start {
    /// Write the record, launch the script, and report with [`finish`]
    /// whether it could be started.
    Launch { notice: Record, invocation: Invocation },
    /// There is no script to run: the plan is all there is.
    Skip(Plan),
}

/// The mathematical value of a [`Start`].
pub enum StartView {
    Launch { notice: RecordView, invocation: InvocationView },
    Skip(PlanView),
}

impl View for Start {
    type V = StartView;

    open spec fn view(&self) -> StartView {
        match self {
            Start::Launch { notice, invocation } => StartView::Launch {
                notice: notice@,
                invocation: invocation@,
            },
            Start::Skip(plan) => StartView::Skip(plan@),
        }
    }
}

/// How the handler opens for the given arguments: a string is the path of a
/// script to launch without arguments; any other value leaves nothing to do,
/// which counts as success.
pub open spec fn started(args: Value) -> StartView {
    match args.text() {
        Some(path) => StartView::Launch {
            notice: RecordView { level: Level::Info, message: "Running script: "@ + path },
            invocation: InvocationView { program: path, args: None },
        },
        None => StartView::Skip(
            PlanView {
                effects: seq![logged(Level::Warning, "Nothing to do."@)],
                outcome: Some(()),
            },
        ),
    }
}

/// How the handler ends once the launch has been tried: the task succeeds if
/// the script could be started, and fails if it could not.
pub open spec fn finished(ran: bool) -> PlanView {
    if ran {
        PlanView { effects: seq![logged(Level::Success, "Done"@)], outcome: Some(()) }
    } else {
        PlanView {
            effects: seq![
                logged(Level::Error, "An error occured while running the script."@),
            ],
            outcome: None,
        }
    }
}

/// Opens the run of a script.
pub fn run(args: &Value) -> (start: Start)
    ensures
        start@ == started(*args),
{
    match args.as_str() {
        Some(path) => {
            let announce = join("Running script: ", path);
            Start::Launch {
                notice: note(Level::Info, announce.as_str()),
                invocation: shell::run_script(path),
            }
        },
        None => {
            let mut effects: Vec<Effect> = Vec::new();
            effects.push(log(Level::Warning, "Nothing to do."));
            assert(views(effects@) =~= seq![logged(Level::Warning, "Nothing to do."@)]);
            Start::Skip(Plan { effects, outcome: Some(()) })
        },
    }
}

/// Ends the run of a script, given whether it could be started.
pub fn finish(ran: bool) -> (plan: Plan)
    ensures
        plan@ == finished(ran),
{
    let mut effects: Vec<Effect> = Vec::new();
    if ran {
        effects.push(log(Level::Success, "Done"));
        assert(views(effects@) =~= seq![logged(Level::Success, "Done"@)]);
        Plan { effects, outcome: Some(()) }
    } else {
        effects.push(log(Level::Error, "An error occured while running the script."));
        assert(views(effects@) =~= seq![
            logged(Level::Error, "An error occured while running the script."@),
        ]);
        Plan { effects, outcome: None }
    }
}

} // verus!
