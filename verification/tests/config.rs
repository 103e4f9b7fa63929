use dotman::config::{
    command, cron, get, invoke, log, lookup, note, package, parse, perform, script, Action,
    Config, Effect, Event, Invoked, Module, Plan, Stats, Task, Value,
};
use dotman::logger::{Level, Record};
use dotman::shell::Invocation;

fn text(value: &str) -> Value {
    Value::String(value.to_string())
}

fn task(name: &str, module: &str, args: Value) -> Task {
    Task { name: name.to_string(), module: module.to_string(), args }
}

fn stats(total: usize, succeeded: usize, failed: usize) -> Stats {
    Stats { total_tasks: total, failed_tasks: failed, success_tasks: succeeded }
}

/// A shell in which only `echo` and `true` exist.
fn pretend_to_launch(launch: &Invocation, launched: &mut Vec<Invocation>) -> bool {
    launched.push(launch.clone());
    launch.program == "echo" || launch.program == "true"
}

/// Plays the driver: performs what the orchestrator asks for, with the
/// command handler of the library and a pretended shell, and notes every
/// launch and every banner.
fn drive(config: &mut Config, launched: &mut Vec<Invocation>, banners: &mut Vec<String>) {
    let mut event = Event::Begin;
    loop {
        match config.run_tasks(event) {
            Action::Invoke { index, banner, module } => {
                banners.push(banner);
                assert_eq!(module, Module::Command);
                let outcome = match invoke(module, &config.task(index).unwrap().args) {
                    Invoked::Command(command::Start::Launch { launches, .. }) => {
                        let results: Vec<bool> =
                            launches.iter().map(|l| pretend_to_launch(l, launched)).collect();
                        command::finish(&results).outcome
                    }
                    Invoked::Command(command::Start::Skip(plan)) => plan.outcome,
                    other => panic!("not the command handler: {:?}", other),
                };
                event = Event::Returned(outcome);
            }
            Action::Reject { banner, .. } => {
                banners.push(banner);
                event = Event::Begin;
            }
            Action::Idle { .. } | Action::Finish => break,
        }
    }
}

#[test]
fn scenario_one_success_among_two_failures() {
    let mut config = parse(Some(vec![
        task("A", "command", text("echo hi")),
        task("B", "nonexistent", Value::Null),
        task("C", "command", text("exit 1")),
    ]));
    assert_eq!(config.stats(), stats(3, 0, 0));
    let mut launched: Vec<Invocation> = Vec::new();
    let mut banners: Vec<String> = Vec::new();
    drive(&mut config, &mut launched, &mut banners);
    assert_eq!(config.stats(), stats(3, 1, 2));
    assert_eq!(banners, vec!["TASK: A", "TASK: B", "TASK: C"]);
    assert_eq!(
        launched[..2],
        [
            Invocation { program: "echo".to_string(), args: None },
            Invocation { program: "echo".to_string(), args: Some(vec!["hi".to_string()]) },
        ]
    );
    assert_eq!(launched.len(), 4);
    assert_eq!(launched[3].program, "exit");
}

#[test]
fn parse_counts_the_tasks() {
    let config = parse(Some(vec![
        task("a", "command", Value::Null),
        task("b", "script", Value::Null),
        task("c", "bogus", Value::Null),
        task("d", "cron", Value::Null),
    ]));
    assert_eq!(config.stats(), stats(4, 0, 0));
    assert_eq!(parse(Some(vec![])).stats(), stats(0, 0, 0));
    assert_eq!(parse(None).stats(), stats(0, 0, 0));
}

#[test]
fn stats_default_is_zero() {
    assert_eq!(Stats::default(), stats(0, 0, 0));
}

#[test]
fn empty_list_finishes_at_once() {
    let mut config = parse(Some(vec![]));
    assert_eq!(config.run_tasks(Event::Begin), Action::Finish);
    assert_eq!(config.run_tasks(Event::Returned(Some(()))), Action::Finish);
    assert_eq!(config.run_tasks(Event::Returned(None)), Action::Finish);
    assert_eq!(config.stats(), stats(0, 0, 0));
}

#[test]
fn missing_list_is_idle() {
    let mut config = parse(None);
    let expected = Action::Idle {
        notice: Record { level: Level::Warning, message: "No tasks specified.".to_string() },
    };
    assert_eq!(config.run_tasks(Event::Begin), expected);
    assert_eq!(config.run_tasks(Event::Returned(None)), expected);
    assert_eq!(config.stats(), stats(0, 0, 0));
}

#[test]
fn tasks_are_invoked_in_order() {
    let mut config = parse(Some(vec![
        task("first", "script", text("a.sh")),
        task("second", "package", Value::Array(vec![])),
        task("third", "cron", Value::Null),
        task("fourth", "command", text("ls")),
    ]));
    assert_eq!(
        config.run_tasks(Event::Begin),
        Action::Invoke { index: 0, banner: "TASK: first".to_string(), module: Module::Script }
    );
    assert_eq!(
        config.run_tasks(Event::Returned(Some(()))),
        Action::Invoke { index: 1, banner: "TASK: second".to_string(), module: Module::Package }
    );
    assert_eq!(
        config.run_tasks(Event::Returned(None)),
        Action::Invoke { index: 2, banner: "TASK: third".to_string(), module: Module::Cron }
    );
    assert_eq!(
        config.run_tasks(Event::Returned(None)),
        Action::Invoke { index: 3, banner: "TASK: fourth".to_string(), module: Module::Command }
    );
    assert_eq!(config.stats(), stats(4, 1, 2));
    assert_eq!(config.run_tasks(Event::Returned(Some(()))), Action::Finish);
    assert_eq!(config.stats(), stats(4, 2, 2));
    assert_eq!(config.run_tasks(Event::Returned(Some(()))), Action::Finish);
    assert_eq!(config.stats(), stats(4, 2, 2));
}

#[test]
fn unknown_module_fails_and_the_run_goes_on() {
    let mut config = parse(Some(vec![
        task("lost", "nonexistent", Value::Null),
        task("found", "command", text("ls")),
    ]));
    assert_eq!(
        config.run_tasks(Event::Begin),
        Action::Reject {
            index: 0,
            banner: "TASK: lost".to_string(),
            notice: Record {
                level: Level::Error,
                message: "No handler for module: nonexistent".to_string(),
            },
        }
    );
    assert_eq!(config.stats(), stats(2, 0, 1));
    assert_eq!(
        config.run_tasks(Event::Begin),
        Action::Invoke { index: 1, banner: "TASK: found".to_string(), module: Module::Command }
    );
    assert_eq!(config.run_tasks(Event::Returned(Some(()))), Action::Finish);
    assert_eq!(config.stats(), stats(2, 1, 1));
}

#[test]
fn unknown_module_after_a_handler_is_counted_in_the_same_step() {
    let mut config = parse(Some(vec![
        task("known", "command", text("ls")),
        task("lost", "", Value::Null),
    ]));
    assert!(matches!(config.run_tasks(Event::Begin), Action::Invoke { index: 0, .. }));
    assert!(matches!(
        config.run_tasks(Event::Returned(Some(()))),
        Action::Reject { index: 1, .. }
    ));
    assert_eq!(config.stats(), stats(2, 1, 1));
    assert_eq!(config.run_tasks(Event::Begin), Action::Finish);
}

#[test]
fn a_returned_event_that_nothing_awaits_counts_nothing() {
    let mut config = parse(Some(vec![task("only", "command", text("ls"))]));
    let first = config.run_tasks(Event::Returned(Some(())));
    assert!(matches!(first, Action::Invoke { index: 0, .. }));
    assert_eq!(config.stats(), stats(1, 0, 0));
}

#[test]
fn begin_while_awaiting_issues_the_invocation_again() {
    let mut config = parse(Some(vec![task("only", "command", text("ls"))]));
    let first = config.run_tasks(Event::Begin);
    let again = config.run_tasks(Event::Begin);
    assert_eq!(first, again);
    assert_eq!(config.stats(), stats(1, 0, 0));
    assert_eq!(config.run_tasks(Event::Returned(None)), Action::Finish);
    assert_eq!(config.stats(), stats(1, 0, 1));
}

#[test]
fn every_task_is_counted_once_whatever_the_outcomes() {
    let modules = ["command", "bogus", "script", "cron", "nope"];
    let mut pattern: u32 = 0;
    while pattern < 32 {
        let mut config =
            parse(Some(modules.iter().map(|m| task("t", m, Value::Null)).collect()));
        let mut event = Event::Begin;
        let mut invoked: usize = 0;
        loop {
            match config.run_tasks(event) {
                Action::Invoke { index, .. } => {
                    invoked += 1;
                    let ok = pattern & (1 << index) != 0;
                    event = Event::Returned(if ok { Some(()) } else { None });
                }
                Action::Reject { .. } => event = Event::Begin,
                Action::Idle { .. } => panic!("the list is there"),
                Action::Finish => break,
            }
            let now = config.stats();
            assert_eq!(now.total_tasks, 5);
            assert!(now.success_tasks + now.failed_tasks <= 5);
        }
        let end = config.stats();
        assert_eq!(invoked, 3);
        assert_eq!(end.total_tasks, 5);
        assert_eq!(end.success_tasks + end.failed_tasks, 5);
        assert!(end.failed_tasks >= 2);
        pattern += 1;
    }
}

#[test]
fn task_gives_the_task_at_an_index() {
    let config = parse(Some(vec![task("a", "command", text("x")), task("b", "cron", Value::Null)]));
    assert_eq!(config.task(0), Some(&task("a", "command", text("x"))));
    assert_eq!(config.task(1), Some(&task("b", "cron", Value::Null)));
    assert_eq!(config.task(2), None);
    assert_eq!(parse(None).task(0), None);
}

#[test]
fn lookup_knows_the_four_modules() {
    assert_eq!(lookup("command"), Some(Module::Command));
    assert_eq!(lookup("script"), Some(Module::Script));
    assert_eq!(lookup("package"), Some(Module::Package));
    assert_eq!(lookup("cron"), Some(Module::Cron));
}

#[test]
fn lookup_knows_nothing_else() {
    assert_eq!(lookup("nonexistent"), None);
    assert_eq!(lookup(""), None);
    assert_eq!(lookup("Command"), None);
    assert_eq!(lookup("command "), None);
    assert_eq!(lookup("comman"), None);
}

#[test]
fn value_accessors_go_by_the_variant() {
    let array = Value::Array(vec![text("a"), Value::Bool(true)]);
    let object = Value::Object(vec![("k".to_string(), Value::Null)]);
    assert_eq!(text("abc").as_str(), Some("abc"));
    assert_eq!(Value::Null.as_str(), None);
    assert_eq!(Value::Number("1".to_string()).as_str(), None);
    assert_eq!(array.as_str(), None);
    assert_eq!(array.as_array(), Some(&vec![text("a"), Value::Bool(true)]));
    assert_eq!(text("abc").as_array(), None);
    assert_eq!(object.as_array(), None);
    assert_eq!(object.as_object(), Some(&vec![("k".to_string(), Value::Null)]));
    assert_eq!(array.as_object(), None);
}

#[test]
fn get_finds_the_first_member_with_the_key() {
    let members = vec![
        ("a".to_string(), text("one")),
        ("b".to_string(), Value::Bool(false)),
        ("a".to_string(), text("two")),
    ];
    assert_eq!(get(&members, "a"), Some(&text("one")));
    assert_eq!(get(&members, "b"), Some(&Value::Bool(false)));
    assert_eq!(get(&members, "c"), None);
    assert_eq!(get(&vec![], "a"), None);
}

#[test]
fn note_and_log_carry_the_message() {
    let record = Record { level: Level::Error, message: "bad".to_string() };
    assert_eq!(note(Level::Error, "bad"), record);
    assert_eq!(log(Level::Error, "bad"), Effect::Log(record));
}

#[test]
fn perform_appends_the_launches_in_order() {
    let first = Invocation { program: "a".to_string(), args: None };
    let second = Invocation { program: "b".to_string(), args: Some(vec![]) };
    let mut effects = vec![log(Level::Info, "start")];
    perform(&mut effects, vec![first.clone(), second.clone()]);
    assert_eq!(effects, vec![log(Level::Info, "start"), Effect::Run(first), Effect::Run(second)]);
    perform(&mut effects, vec![]);
    assert_eq!(effects.len(), 3);
    let plan = Plan { effects, outcome: None };
    assert_eq!(plan.effects.len(), 3);
}

#[test]
fn invoke_opens_the_handler_of_the_module() {
    let line = text("ls");
    assert_eq!(invoke(Module::Command, &line), Invoked::Command(command::run(&line)));
    assert_eq!(invoke(Module::Script, &line), Invoked::Script(script::run(&line)));
    assert_eq!(invoke(Module::Package, &line), Invoked::Package(package::install(&line)));
    assert_eq!(invoke(Module::Cron, &line), Invoked::Cron(cron::add(&line)));
    let list = Value::Array(vec![text("vim")]);
    assert_eq!(
        invoke(Module::Package, &list),
        Invoked::Package(package::Turn::Search { index: 0, name: "vim".to_string() })
    );
}
