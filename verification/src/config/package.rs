//! The handler of the module `package`: installs a list of packages.
//!
//! The packages are dealt with one at a time, in the order of the list: each
//! is searched for, and the first match is installed. The first thing that
//! goes wrong ends the task; a search that matches nothing is one such thing.
use vstd::prelude::*;
use vstd::string::StringExecFns;
use crate::config::{log, logged, note, Effect, Plan, PlanView, Value};
use crate::logger::{Level, Record, RecordView};
use crate::text::{join, views};

verus! {

/// What the handler asks for next.
#[derive(Debug, PartialEq, Eq)]
pub enum Turn {
    /// Search for the package named at `index` of the list, and report the
    /// matches with [`found`].
    Search { index: usize, name: String },
    /// Write the record, install the match at position `choice`, which has
    /// this identifier, and report the result with [`installed`].
    Install { index: usize, notice: Record, choice: usize, id: String },
    /// The task is over.
    Done(Plan),
}

/// The mathematical value of a [`Turn`].
pub enum TurnView {
    Search { index: nat, name: Seq<char> },
    Install { index: nat, notice: RecordView, choice: nat, id: Seq<char> },
    Done(PlanView),
}

impl View for Turn {
    type V = TurnView;

    open spec fn view(&self) -> TurnView {
        match self {
            Turn::Search { index, name } => TurnView::Search { index: *index as nat, name: name@ },
            Turn::Install { index, notice, choice, id } => TurnView::Install {
                index: *index as nat,
                notice: notice@,
                choice: *choice as nat,
                id: id@,
            },
            Turn::Done(plan) => TurnView::Done(plan@),
        }
    }
}

/// The end of a task that says one thing and has the given outcome.
pub open spec fn ended(level: Level, message: Seq<char>, outcome: Option<()>) -> TurnView {
    TurnView::Done(PlanView { effects: seq![logged(level, message)], outcome })
}

/// What is asked for once the packages before `index` are installed: the
/// search for the next one, failure if it is not named by a string, and success
/// once the list is exhausted.
pub open spec fn sought(items: Seq<Value>, index: nat) -> TurnView {
    if index >= items.len() {
        ended(Level::Success, "Done."@, Some(()))
    } else {
        match items[index as int].text() {
            Some(name) => TurnView::Search { index, name },
            None => ended(Level::Error, "Invalid package name in list of packages."@, None),
        }
    }
}

/// How the handler opens: with the first package of an array, or with nothing
/// to do, which counts as success, for any other value.
pub open spec fn opened(args: Value) -> TurnView {
    match args.items() {
        Some(items) => sought(items, 0),
        None => ended(Level::Warning, "Nothing to do."@, Some(())),
    }
}

/// What follows a search: the installation of the first match, or the
/// failure of the task, with the error of the search or because nothing
/// matches.
pub open spec fn after_search(index: nat, result: Result<Seq<Seq<char>>, Seq<char>>) -> TurnView {
    match result {
        Ok(matches) => if matches.len() > 0 {
            TurnView::Install {
                index,
                notice: RecordView {
                    level: Level::Info,
                    message: "Installing package: "@ + matches[0],
                },
                choice: 0,
                id: matches[0],
            }
        } else {
            ended(Level::Error, "No package matches the name."@, None)
        },
        Err(error) => ended(Level::Error, error, None),
    }
}

/// What follows an installation: the next package, or the failure of the task
/// with the error of the installation.
pub open spec fn after_install(args: Value, index: nat, result: Result<(), Seq<char>>) -> TurnView {
    match result {
        Ok(_) => match args.items() {
            Some(items) => sought(items, index + 1),
            None => ended(Level::Warning, "Nothing to do."@, Some(())),
        },
        Err(error) => ended(Level::Error, error, None),
    }
}

/// Ends a task with one record.
fn end(level: Level, message: &str, outcome: Option<()>) -> (turn: Turn)
    ensures
        turn@ == ended(level, message@, outcome),
{
    let mut effects: Vec<Effect> = Vec::new();
    effects.push(log(level, message));
    assert(views(effects@) =~= seq![logged(level, message@)]);
    Turn::Done(Plan { effects, outcome })
}

/// Moves on to the package at `index` of the list.
pub fn seek(items: &Vec<Value>, index: usize) -> (turn: Turn)
    ensures
        turn@ == sought(items@, index as nat),
{
    if index >= items.len() {
        end(Level::Success, "Done.", Some(()))
    } else {
        match items[index].as_str() {
            Some(name) => Turn::Search { index, name: String::from_str(name) },
            None => end(Level::Error, "Invalid package name in list of packages.", None),
        }
    }
}

/// Opens the installation of a list of packages.
pub fn install(args: &Value) -> (turn: Turn)
    ensures
        turn@ == opened(*args),
{
    match args.as_array() {
        Some(items) => seek(items, 0),
        None => end(Level::Warning, "Nothing to do.", Some(())),
    }
}

/// Takes the result of the search for the package at `index`: the
/// identifiers of the matches, in the order of the search, or the error of the
/// search.
pub fn found(index: usize, result: Result<Vec<String>, String>) -> (turn: Turn)
    ensures
        turn@ == after_search(
            index as nat,
            match result {
                Ok(matches) => Ok(views(matches@)),
                Err(error) => Err(error@),
            },
        ),
        turn matches Turn::Install { choice, .. } ==> result matches Ok(matches) && choice
            < matches.len(),
{
    match result {
        Ok(matches) => {
            if matches.len() > 0 {
                let id = matches[0].clone();
                let announce = join("Installing package: ", id.as_str());
                Turn::Install { index, notice: note(Level::Info, announce.as_str()), choice: 0, id }
            } else {
                end(Level::Error, "No package matches the name.", None)
            }
        },
        Err(error) => end(Level::Error, error.as_str(), None),
    }
}

/// Takes the result of the installation of the package at `index`.
pub fn installed(args: &Value, index: usize, result: Result<(), String>) -> (turn: Turn)
    ensures
        turn@ == after_install(
            *args,
            index as nat,
            match result {
                Ok(_) => Ok(()),
                Err(error) => Err(error@),
            },
        ),
{
    match result {
        Ok(_) => match args.as_array() {
            Some(items) => {
                if index < items.len() {
                    seek(items, index + 1)
                } else {
                    seek(items, index)
                }
            },
            None => end(Level::Warning, "Nothing to do.", Some(())),
        },
        Err(error) => end(Level::Error, error.as_str(), None),
    }
}

} // verus!
