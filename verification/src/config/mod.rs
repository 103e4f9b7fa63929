//! The task model and the orchestrator.
//!
//! A configuration is an ordered list of tasks. Running it is a conversation:
//! [`Config::run_tasks`] names the next thing to do, the driver does it and
//! reports how the handler returned, until every task has been counted. The
//! tasks are dealt with strictly one after the other, and a task that fails
//! never keeps the tasks after it from running.
//!
//! The orchestrator sets no deadline: a handler that never returns holds the
//! run up for good.
use vstd::prelude::*;
use vstd::string::StringExecFns;
use crate::logger::{Level, Record, RecordView};
use crate::shell::{Invocation, InvocationView};
use crate::text::{join, same_text, views};

pub mod command;
pub mod cron;
pub mod package;
pub mod script;

verus! {

/// A structured value: the arguments of a task, as the configuration document
/// gives them. A number is kept as the text that denotes it.
#[derive(Debug, PartialEq, Eq)]
pub enum Value {
    Null,
    Bool(bool),
    Number(String),
    String(String),
    Array(Vec<Value>),
    Object(Vec<(String, Value)>),
}

impl Value {
    /// The text of a value that is a string.
    pub open spec fn text(self) -> Option<Seq<char>> {
        match self {
            Value::String(text) => Some(text@),
            _ => None,
        }
    }

    /// The elements of a value that is an array.
    pub open spec fn items(self) -> Option<Seq<Value>> {
        match self {
            Value::Array(items) => Some(items@),
            _ => None,
        }
    }

    /// The members of a value that is an object, in the order of the document.
    pub open spec fn members(self) -> Option<Seq<(String, Value)>> {
        match self {
            Value::Object(members) => Some(members@),
            _ => None,
        }
    }

    /// The text of this value, if it is a string.
    pub fn as_str(&self) -> (text: Option<&str>)
        ensures
            text is Some <==> self.text() is Some,
            text matches Some(t) ==> self.text() == Some(t@),
    {
        match self {
            Value::String(text) => Some(text.as_str()),
            _ => None,
        }
    }

    /// The elements of this value, if it is an array.
    pub fn as_array(&self) -> (items: Option<&Vec<Value>>)
        ensures
            items is Some <==> self.items() is Some,
            items matches Some(list) ==> self.items() == Some(list@),
    {
        match self {
            Value::Array(items) => Some(items),
            _ => None,
        }
    }

    /// The members of this value, if it is an object.
    pub fn as_object(&self) -> (members: Option<&Vec<(String, Value)>>)
        ensures
            members is Some <==> self.members() is Some,
            members matches Some(list) ==> self.members() == Some(list@),
    {
        match self {
            Value::Object(members) => Some(members),
            _ => None,
        }
    }
}

/// The value of the first member with the given key.
pub open spec fn member(members: Seq<(String, Value)>, key: Seq<char>) -> Option<Value>
    decreases members.len(),
{
    if members.len() == 0 {
        None
    } else if members[0].0@ == key {
        Some(members[0].1)
    } else {
        member(members.skip(1), key)
    }
}

/// Looks a key up among the members of an object.
pub fn get<'a>(members: &'a Vec<(String, Value)>, key: &str) -> (found: Option<&'a Value>)
    ensures
        found is Some <==> member(members@, key@) is Some,
        found matches Some(value) ==> member(members@, key@) == Some(*value),
{
    let mut i: usize = 0;
    assert(members@.skip(0) == members@);
    while i < members.len()
        invariant
            i <= members.len(),
            member(members@, key@) == member(members@.skip(i as int), key@),
        decreases members.len() - i,
    {
        assert(members@.skip(i as int).skip(1) == members@.skip(i + 1));
        if same_text(members[i].0.as_str(), key) {
            return Some(&members[i].1);
        }
        i += 1;
    }
    None
}

/// Something for the driver to do on behalf of a handler: write a log record,
/// or launch a program and wait for it.
#[derive(Debug, PartialEq, Eq)]
pub enum Effect {
    Log(Record),
    Run(Invocation),
}

/// The mathematical value of an [`Effect`].
pub enum EffectView {
    Log(RecordView),
    Run(InvocationView),
}

impl View for Effect {
    type V = EffectView;

    open spec fn view(&self) -> EffectView {
        match self {
            Effect::Log(record) => EffectView::Log(record@),
            Effect::Run(invocation) => EffectView::Run(invocation@),
        }
    }
}

/// What a handler has decided: the effects to carry out, in order, and how the
/// task ends. `Some` is success and `None` is failure.
#[derive(Debug, PartialEq, Eq)]
pub struct Plan {
    pub effects: Vec<Effect>,
    pub outcome: Option<()>,
}

/// The mathematical value of a [`Plan`].
pub struct PlanView {
    pub effects: Seq<EffectView>,
    pub outcome: Option<()>,
}

impl View for Plan {
    type V = PlanView;

    open spec fn view(&self) -> PlanView {
        PlanView { effects: views(self.effects@), outcome: self.outcome }
    }
}

/// The effect of logging a message.
pub open spec fn logged(level: Level, message: Seq<char>) -> EffectView {
    EffectView::Log(RecordView { level, message })
}

/// The effects of performing launches, one after the other.
pub open spec fn performed(launches: Seq<InvocationView>) -> Seq<EffectView> {
    launches.map_values(|launch: InvocationView| EffectView::Run(launch))
}

/// A log record.
pub fn note(level: Level, message: &str) -> (record: Record)
    ensures
        record@ == (RecordView { level, message: message@ }),
{
    Record { level, message: String::from_str(message) }
}

/// The effect of logging a message.
pub fn log(level: Level, message: &str) -> (effect: Effect)
    ensures
        effect@ == logged(level, message@),
{
    Effect::Log(note(level, message))
}

/// Appends the launches of a plan to a list of effects.
pub fn perform(effects: &mut Vec<Effect>, launches: Vec<Invocation>)
    ensures
        views(final(effects)@) == views(old(effects)@) + performed(views(launches@)),
{
    let ghost before = views(effects@);
    let ghost all = views(launches@);
    assert(views(effects@) =~= before + performed(all.take(0)));
    for launch in turn: launches
        invariant
            views(turn.seq()) == all,
            views(effects@) == before + performed(all.take(turn.index() as int)),
    {
        let ghost so_far = views(effects@);
        assert(launch@ == all[turn.index() as int]);
        effects.push(Effect::Run(launch));
        assert(views(effects@) =~= so_far.push(EffectView::Run(all[turn.index() as int])));
        assert(views(effects@) =~= before + performed(all.take(turn.index() + 1)));
    }
    assert(all.take(all.len() as int) == all);
}

/// The kinds of task that have a handler.
#[derive(Clone, Copy, Debug, PartialEq, Eq, Structural)]
pub enum Module {
    Command,
    Script,
    Package,
    Cron,
}

/// The registry: the handler that a module name stands for, if any.
pub open spec fn registered(name: Seq<char>) -> Option<Module> {
    if name == "command"@ {
        Some(Module::Command)
    } else if name == "script"@ {
        Some(Module::Script)
    } else if name == "package"@ {
        Some(Module::Package)
    } else if name == "cron"@ {
        Some(Module::Cron)
    } else {
        None
    }
}

/// Looks a module name up in the registry.
pub fn lookup(name: &str) -> (module: Option<Module>)
    ensures
        module == registered(name@),
{
    if same_text(name, "command") {
        Some(Module::Command)
    } else if same_text(name, "script") {
        Some(Module::Script)
    } else if same_text(name, "package") {
        Some(Module::Package)
    } else if same_text(name, "cron") {
        Some(Module::Cron)
    } else {
        None
    }
}

/// How the handler of a module opens.
#[derive(Debug, PartialEq, Eq)]
pub enum Invoked {
    Command(command::Start),
    Script(script::Start),
    Package(package::Turn),
    Cron(cron::Opening),
}

/// The mathematical value of an [`Invoked`].
pub enum InvokedView {
    Command(command::StartView),
    Script(script::StartView),
    Package(package::TurnView),
    Cron(cron::OpeningView),
}

impl View for Invoked {
    type V = InvokedView;

    open spec fn view(&self) -> InvokedView {
        match self {
            Invoked::Command(start) => InvokedView::Command(start@),
            Invoked::Script(start) => InvokedView::Script(start@),
            Invoked::Package(turn) => InvokedView::Package(turn@),
            Invoked::Cron(opening) => InvokedView::Cron(opening@),
        }
    }
}

/// The handler that each module stands for, applied to the arguments of a
/// task.
pub open spec fn invoked(module: Module, args: Value) -> InvokedView {
    match module {
        Module::Command => InvokedView::Command(command::started(args)),
        Module::Script => InvokedView::Script(script::started(args)),
        Module::Package => InvokedView::Package(package::opened(args)),
        Module::Cron => InvokedView::Cron(cron::opened(args)),
    }
}

/// Invokes the handler of a module with the arguments of a task.
pub fn invoke(module: Module, args: &Value) -> (opening: Invoked)
    ensures
        opening@ == invoked(module, *args),
{
    match module {
        Module::Command => Invoked::Command(command::run(args)),
        Module::Script => Invoked::Script(script::run(args)),
        Module::Package => Invoked::Package(package::install(args)),
        Module::Cron => Invoked::Cron(cron::add(args)),
    }
}

/// A task: a label for display, the name of the module that handles it, and
/// the arguments for that module.
#[derive(Debug, PartialEq, Eq)]
pub struct Task {
    pub name: String,
    pub module: String,
    pub args: Value,
}

/// The mathematical value of a [`Task`].
pub struct TaskView {
    pub name: Seq<char>,
    pub module: Seq<char>,
    pub args: Value,
}

impl View for Task {
    type V = TaskView;

    open spec fn view(&self) -> TaskView {
        TaskView { name: self.name@, module: self.module@, args: self.args }
    }
}

/// The counters of a run.
#[derive(Clone, Copy, Debug, PartialEq, Eq, Structural)]
pub struct Stats {
    pub total_tasks: usize,
    pub failed_tasks: usize,
    pub success_tasks: usize,
}

impl Default for Stats {
    fn default() -> (stats: Stats)
        ensures
            stats == (Stats { total_tasks: 0, failed_tasks: 0, success_tasks: 0 }),
    {
        Stats { total_tasks: 0, failed_tasks: 0, success_tasks: 0 }
    }
}

/// What the driver reports to the orchestrator.
#[derive(Debug, PartialEq, Eq)]
pub enum Event {
    /// Nothing has been invoked yet, or nothing was to be invoked.
    Begin,
    /// The handler that was invoked has returned: `Some` for success, `None`
    /// for failure.
    Returned(Option<()>),
}

/// What the orchestrator asks of the driver.
#[derive(Debug, PartialEq, Eq)]
pub enum Action {
    /// Announce the task and invoke the handler of its module with its
    /// arguments, then report how it returned.
    Invoke { index: usize, banner: String, module: Module },
    /// Announce the task and report that no handler is registered for its
    /// module. The task is already counted as failed.
    Reject { index: usize, banner: String, notice: Record },
    /// The configuration lists no tasks at all: say so and stop.
    Idle { notice: Record },
    /// Every task has been counted.
    Finish,
}

/// The mathematical value of an [`Action`].
pub enum ActionView {
    Invoke { index: nat, banner: Seq<char>, module: Module },
    Reject { index: nat, banner: Seq<char>, notice: RecordView },
    Idle { notice: RecordView },
    Finish,
}

impl View for Action {
    type V = ActionView;

    open spec fn view(&self) -> ActionView {
        match self {
            Action::Invoke { index, banner, module } => ActionView::Invoke {
                index: *index as nat,
                banner: banner@,
                module: *module,
            },
            Action::Reject { index, banner, notice } => ActionView::Reject {
                index: *index as nat,
                banner: banner@,
                notice: notice@,
            },
            Action::Idle { notice } => ActionView::Idle { notice: notice@ },
            Action::Finish => ActionView::Finish,
        }
    }
}

/// The state of a run: the tasks, the counters, and whether a handler has been
/// invoked and has not returned yet.
pub struct RunState {
    pub tasks: Option<Seq<TaskView>>,
    pub stats: Stats,
    pub awaiting: bool,
}

impl RunState {
    /// The number of tasks.
    pub open spec fn count(self) -> nat {
        match self.tasks {
            Some(tasks) => tasks.len(),
            None => 0,
        }
    }

    /// The number of tasks that have been counted, as succeeded or as failed.
    pub open spec fn dispatched(self) -> nat {
        (self.stats.success_tasks + self.stats.failed_tasks) as nat
    }

    /// The states that a run can be in: the total is the number of tasks, no
    /// more tasks are counted than there are, and a handler is awaited only for
    /// a task that has one.
    pub open spec fn wf(self) -> bool {
        &&& self.stats.total_tasks == self.count()
        &&& self.dispatched() <= self.count()
        &&& self.awaiting ==> {
            &&& self.dispatched() < self.count()
            &&& registered(self.tasks->0[self.dispatched() as int].module) is Some
        }
    }

    /// Whether nothing is left to do.
    pub open spec fn over(self) -> bool {
        !self.awaiting && self.dispatched() == self.count()
    }
}

/// The state of a run before anything is dispatched.
pub open spec fn loaded(tasks: Option<Seq<TaskView>>) -> RunState {
    RunState {
        tasks,
        stats: Stats {
            total_tasks: match tasks {
                Some(list) => list.len() as usize,
                None => 0,
            },
            failed_tasks: 0,
            success_tasks: 0,
        },
        awaiting: false,
    }
}

/// The banner that announces a task.
pub open spec fn announcement(task: TaskView) -> Seq<char> {
    "TASK: "@ + task.name
}

/// What is said of a task whose module has no handler.
pub open spec fn rejection(task: TaskView) -> RecordView {
    RecordView { level: Level::Error, message: "No handler for module: "@ + task.module }
}

/// What is said of a configuration without a task list.
pub open spec fn nothing_listed() -> RecordView {
    RecordView { level: Level::Warning, message: "No tasks specified."@ }
}

/// The state once the awaited handler has returned: its task is counted, as
/// succeeded or as failed.
pub open spec fn settled(state: RunState, outcome: Option<()>) -> RunState {
    RunState {
        stats: match outcome {
            Some(_) => Stats {
                success_tasks: (state.stats.success_tasks + 1) as usize,
                ..state.stats
            },
            None => Stats {
                failed_tasks: (state.stats.failed_tasks + 1) as usize,
                ..state.stats
            },
        },
        awaiting: false,
        ..state
    }
}

/// The next action of a run in which no handler is awaited, and the state
/// after it is issued.
pub open spec fn issued(state: RunState) -> (RunState, ActionView) {
    match state.tasks {
        None => (state, ActionView::Idle { notice: nothing_listed() }),
        Some(tasks) => {
            let index = state.dispatched();
            if index >= tasks.len() {
                (state, ActionView::Finish)
            } else {
                let task = tasks[index as int];
                match registered(task.module) {
                    Some(module) => (
                        RunState { awaiting: true, ..state },
                        ActionView::Invoke { index, banner: announcement(task), module },
                    ),
                    None => (
                        RunState {
                            stats: Stats {
                                failed_tasks: (state.stats.failed_tasks + 1) as usize,
                                ..state.stats
                            },
                            ..state
                        },
                        ActionView::Reject {
                            index,
                            banner: announcement(task),
                            notice: rejection(task),
                        },
                    ),
                }
            }
        },
    }
}

/// One step of a run: the state and the action that follow an event.
///
/// While a handler is awaited, its return settles the current task and the
/// run moves on; any other event has the invocation issued again. While none
/// is awaited, the event carries nothing and the run moves on.
pub open spec fn next(state: RunState, event: Event) -> (RunState, ActionView) {
    if state.awaiting {
        match event {
            Event::Returned(outcome) => issued(settled(state, outcome)),
            Event::Begin => issued(RunState { awaiting: false, ..state }),
        }
    } else {
        issued(state)
    }
}

/// The state of a run after a series of events.
pub open spec fn after(state: RunState, events: Seq<Event>) -> RunState
    decreases events.len(),
{
    if events.len() == 0 {
        state
    } else {
        next(after(state, events.drop_last()), events.last()).0
    }
}

/// A step keeps a run among the states it can be in. It never touches the
/// tasks or the total, and it counts no task twice: the number of tasks counted
/// grows by at most two, the task whose handler returned and an unknown one
/// after it.
pub proof fn lemma_step_keeps_shape(state: RunState, event: Event)
    requires
        state.wf(),
    ensures
        next(state, event).0.wf(),
        next(state, event).0.tasks == state.tasks,
        next(state, event).0.stats.total_tasks == state.stats.total_tasks,
        state.dispatched() <= next(state, event).0.dispatched() <= state.dispatched() + 2,
{
}

/// Whatever the driver reports, and however the handlers return, a run of `n`
/// tasks has a total of `n` from the moment it is loaded, and once it ends
/// every task is counted exactly once: succeeded and failed add up to `n`.
pub proof fn lemma_every_task_is_counted(
    tasks: Option<Seq<TaskView>>,
    events: Seq<Event>,
    last: Event,
)
    requires
        loaded(tasks).count() <= usize::MAX,
    ensures
        loaded(tasks).stats.total_tasks == loaded(tasks).count(),
        after(loaded(tasks), events).wf(),
        after(loaded(tasks), events).tasks == tasks,
        after(loaded(tasks), events).stats.total_tasks == loaded(tasks).count(),
        ({
            let (end, action) = next(after(loaded(tasks), events), last);
            action is Finish || action is Idle ==> end.stats.success_tasks + end.stats.failed_tasks
                == loaded(tasks).count()
        }),
    decreases events.len(),
{
    if events.len() > 0 {
        lemma_every_task_is_counted(tasks, events.drop_last(), events.last());
        lemma_step_keeps_shape(after(loaded(tasks), events.drop_last()), events.last());
    }
    lemma_step_keeps_shape(after(loaded(tasks), events), last);
}

/// A task whose module has no handler is counted as failed, on the spot and
/// without an invocation. The run goes on from the state it would be in had a
/// handler run and failed, so the tasks after it are dispatched as they would
/// have been.
pub proof fn lemma_unknown_module_fails_alone(state: RunState)
    requires
        state.wf(),
        !state.awaiting,
        state.tasks is Some,
        state.dispatched() < state.count(),
        registered(state.tasks->0[state.dispatched() as int].module) is None,
    ensures
        issued(state).1 is Reject,
        issued(state).1->Reject_index == state.dispatched(),
        issued(state).0 == settled(state, None),
        issued(state).0.stats.failed_tasks == state.stats.failed_tasks + 1,
        issued(state).0.stats.success_tasks == state.stats.success_tasks,
        issued(state).0.tasks == state.tasks,
{
}

/// A run of an empty task list counts nothing and invokes nothing: whatever
/// the driver reports, the counters stay at zero and the action is to finish.
pub proof fn lemma_empty_list_does_nothing(events: Seq<Event>, last: Event)
    ensures
        after(loaded(Some(Seq::empty())), events) == loaded(Some(Seq::empty())),
        loaded(Some(Seq::<TaskView>::empty())).stats == (Stats {
            total_tasks: 0,
            failed_tasks: 0,
            success_tasks: 0,
        }),
        next(after(loaded(Some(Seq::empty())), events), last) == (
            loaded(Some(Seq::empty())),
            ActionView::Finish,
        ),
    decreases events.len(),
{
    if events.len() > 0 {
        lemma_empty_list_does_nothing(events.drop_last(), events.last());
    }
}

/// A configuration: the tasks to perform, in order, and the counters of their
/// run.
#[derive(Debug)]
pub struct Config {
    tasks: Option<Vec<Task>>,
    stats: Stats,
    awaiting: bool,
}

impl View for Config {
    type V = RunState;

    closed spec fn view(&self) -> RunState {
        RunState {
            tasks: match self.tasks {
                Some(tasks) => Some(views(tasks@)),
                None => None,
            },
            stats: self.stats,
            awaiting: self.awaiting,
        }
    }
}

impl Config {
    #[verifier::type_invariant]
    spec fn inv(self) -> bool {
        self@.wf()
    }

    /// The counters, as they stand.
    pub fn stats(&self) -> (stats: Stats)
        ensures
            stats == self@.stats,
            self@.wf(),
    {
        proof {
            use_type_invariant(self);
        }
        self.stats
    }

    /// The task at the given position, if there is one.
    pub fn task(&self, index: usize) -> (task: Option<&Task>)
        ensures
            task is Some <==> index < self@.count(),
            task matches Some(found) ==> found@ == self@.tasks->0[index as int],
    {
        match &self.tasks {
            Some(tasks) => {
                if index < tasks.len() {
                    Some(&tasks[index])
                } else {
                    None
                }
            },
            None => None,
        }
    }

    /// Takes one step of the run: given what the driver reports, counts what
    /// there is to count and names the next action.
    pub fn run_tasks(&mut self, event: Event) -> (action: Action)
        ensures
            (final(self)@, action@) == next(old(self)@, event),
            old(self)@.wf(),
            final(self)@.wf(),
            final(self)@.tasks == old(self)@.tasks,
            final(self)@.stats.total_tasks == old(self)@.stats.total_tasks,
            action is Finish || action is Idle ==> final(self)@.over(),
    {
        proof {
            use_type_invariant(&*self);
        }
        if self.awaiting {
            self.awaiting = false;
            match event {
                Event::Returned(Some(_)) => {
                    self.stats.success_tasks = self.stats.success_tasks + 1;
                },
                Event::Returned(None) => {
                    self.stats.failed_tasks = self.stats.failed_tasks + 1;
                },
                Event::Begin => {},
            }
        }
        match &self.tasks {
            None => Action::Idle { notice: note(Level::Warning, "No tasks specified.") },
            Some(tasks) => {
                let index = self.stats.success_tasks + self.stats.failed_tasks;
                if index >= tasks.len() {
                    Action::Finish
                } else {
                    let task = &tasks[index];
                    let banner = join("TASK: ", task.name.as_str());
                    match lookup(task.module.as_str()) {
                        Some(module) => {
                            self.awaiting = true;
                            Action::Invoke { index, banner, module }
                        },
                        None => {
                            let notice = Record {
                                level: Level::Error,
                                message: join("No handler for module: ", task.module.as_str()),
                            };
                            self.stats.failed_tasks = self.stats.failed_tasks + 1;
                            Action::Reject { index, banner, notice }
                        },
                    }
                }
            },
        }
    }
}

/// Loads a configuration from the task list of a decoded document: nothing is
/// counted yet, and the total is the number of tasks listed.
pub fn parse(tasks: Option<Vec<Task>>) -> (config: Config)
    ensures
        config@ == loaded(
            match tasks {
                Some(list) => Some(views(list@)),
                None => None,
            },
        ),
        config@.wf(),
{
    let total = match &tasks {
        Some(list) => list.len(),
        None => 0,
    };
    Config {
        tasks,
        stats: Stats { total_tasks: total, failed_tasks: 0, success_tasks: 0 },
        awaiting: false,
    }
}

} // verus!
