use dotman::config::{command, cron, log, package, script, Effect, Plan, Value};
use dotman::logger::{Level, Record};
use dotman::shell::Invocation;

fn text(value: &str) -> Value {
    Value::String(value.to_string())
}

fn launch(program: &str, args: Option<Vec<&str>>) -> Invocation {
    Invocation {
        program: program.to_string(),
        args: args.map(|list| list.into_iter().map(|arg| arg.to_string()).collect()),
    }
}

fn record(level: Level, message: &str) -> Record {
    Record { level, message: message.to_string() }
}

fn saying(level: Level, message: &str, outcome: Option<()>) -> Plan {
    Plan { effects: vec![log(level, message)], outcome }
}

fn object(members: Vec<(&str, Value)>) -> Value {
    Value::Object(members.into_iter().map(|(key, value)| (key.to_string(), value)).collect())
}

fn refusal(message: &str) -> cron::Opening {
    cron::Opening::Refused(Plan {
        effects: vec![log(Level::Info, "Adding cron job."), log(Level::Error, message)],
        outcome: None,
    })
}

#[test]
fn command_runs_a_string() {
    assert_eq!(
        command::run(&text("echo hi")),
        command::Start::Launch {
            notice: record(Level::Info, "Running command: echo hi"),
            launches: vec![launch("echo", None), launch("echo", Some(vec!["hi"]))],
        }
    );
}

#[test]
fn command_skips_what_is_no_string() {
    let skip = command::Start::Skip(saying(Level::Warning, "Nothing to do.", Some(())));
    assert_eq!(command::run(&Value::Null), skip);
    assert_eq!(command::run(&Value::Array(vec![text("ls")])), skip);
    assert_eq!(command::run(&Value::Number("1".to_string())), skip);
}

#[test]
fn command_succeeds_when_the_last_launch_does() {
    assert_eq!(command::finish(&vec![true]), saying(Level::Info, "Done.", Some(())));
    assert_eq!(command::finish(&vec![false, true]), saying(Level::Info, "Done.", Some(())));
}

#[test]
fn command_fails_when_the_last_launch_does() {
    let failed = saying(Level::Error, "The command failed.", None);
    assert_eq!(command::finish(&vec![false]), failed);
    assert_eq!(command::finish(&vec![true, false]), failed);
    assert_eq!(command::finish(&vec![]), failed);
}

#[test]
fn script_launches_a_string() {
    assert_eq!(
        script::run(&text("/home/me/setup.sh")),
        script::Start::Launch {
            notice: record(Level::Info, "Running script: /home/me/setup.sh"),
            invocation: launch("/home/me/setup.sh", None),
        }
    );
}

#[test]
fn script_skips_what_is_no_string() {
    let skip = script::Start::Skip(saying(Level::Warning, "Nothing to do.", Some(())));
    assert_eq!(script::run(&Value::Bool(true)), skip);
    assert_eq!(script::run(&object(vec![])), skip);
}

#[test]
fn script_ends_by_whether_it_started() {
    assert_eq!(script::finish(true), saying(Level::Success, "Done", Some(())));
    assert_eq!(
        script::finish(false),
        saying(Level::Error, "An error occured while running the script.", None)
    );
}

#[test]
fn package_skips_what_is_no_array() {
    let skip = package::Turn::Done(saying(Level::Warning, "Nothing to do.", Some(())));
    assert_eq!(package::install(&text("vim")), skip);
    assert_eq!(package::install(&Value::Null), skip);
}

#[test]
fn package_is_done_with_an_empty_list() {
    assert_eq!(
        package::install(&Value::Array(vec![])),
        package::Turn::Done(saying(Level::Success, "Done.", Some(())))
    );
}

#[test]
fn package_installs_each_package_in_order() {
    let args = Value::Array(vec![text("vim"), text("git")]);
    assert_eq!(
        package::install(&args),
        package::Turn::Search { index: 0, name: "vim".to_string() }
    );
    assert_eq!(
        package::found(
            0,
            Ok(vec!["vim;8.2;x86_64;main".to_string(), "vim-tiny;8.2;x86_64;main".to_string()])
        ),
        package::Turn::Install {
            index: 0,
            notice: record(Level::Info, "Installing package: vim;8.2;x86_64;main"),
            choice: 0,
            id: "vim;8.2;x86_64;main".to_string(),
        }
    );
    assert_eq!(
        package::installed(&args, 0, Ok(())),
        package::Turn::Search { index: 1, name: "git".to_string() }
    );
    assert_eq!(
        package::found(1, Ok(vec!["git;2".to_string()])),
        package::Turn::Install {
            index: 1,
            notice: record(Level::Info, "Installing package: git;2"),
            choice: 0,
            id: "git;2".to_string(),
        }
    );
    assert_eq!(
        package::installed(&args, 1, Ok(())),
        package::Turn::Done(saying(Level::Success, "Done.", Some(())))
    );
}

#[test]
fn package_fails_on_a_name_that_is_no_string() {
    let invalid = package::Turn::Done(saying(
        Level::Error,
        "Invalid package name in list of packages.",
        None,
    ));
    assert_eq!(package::install(&Value::Array(vec![Value::Null, text("vim")])), invalid);
    let args = Value::Array(vec![text("vim"), Value::Bool(true)]);
    assert_eq!(package::installed(&args, 0, Ok(())), invalid);
    assert_eq!(package::seek(&vec![text("a"), Value::Null], 1), invalid);
}

#[test]
fn package_fails_when_nothing_matches() {
    assert_eq!(
        package::found(0, Ok(vec![])),
        package::Turn::Done(saying(Level::Error, "No package matches the name.", None))
    );
    assert_eq!(
        package::found(3, Ok(vec![])),
        package::Turn::Done(saying(Level::Error, "No package matches the name.", None))
    );
}

#[test]
fn package_fails_with_the_error_of_the_search() {
    assert_eq!(
        package::found(0, Err("no such package".to_string())),
        package::Turn::Done(saying(Level::Error, "no such package", None))
    );
}

#[test]
fn package_fails_with_the_error_of_the_installation() {
    let args = Value::Array(vec![text("vim"), text("git")]);
    assert_eq!(
        package::installed(&args, 0, Err("not permitted".to_string())),
        package::Turn::Done(saying(Level::Error, "not permitted", None))
    );
}

#[test]
fn package_is_done_past_the_end_of_the_list() {
    let args = Value::Array(vec![text("vim")]);
    let done = package::Turn::Done(saying(Level::Success, "Done.", Some(())));
    assert_eq!(package::installed(&args, 5, Ok(())), done);
    assert_eq!(package::installed(&args, usize::MAX, Ok(())), done);
    assert_eq!(package::seek(&vec![text("vim")], 1), done);
    assert_eq!(
        package::installed(&Value::Null, 0, Ok(())),
        package::Turn::Done(saying(Level::Warning, "Nothing to do.", Some(())))
    );
}

#[test]
fn cron_fails_on_what_is_no_object() {
    let nothing = cron::Opening::Refused(saying(Level::Warning, "Nothing to do.", None));
    assert_eq!(cron::add(&Value::Null), nothing);
    assert_eq!(cron::add(&text("* * * * * job")), nothing);
}

#[test]
fn cron_asks_for_intervals() {
    assert_eq!(cron::add(&object(vec![])), refusal("No intervals specified."));
    assert_eq!(cron::add(&object(vec![("job", text("ls"))])), refusal("No intervals specified."));
}

#[test]
fn cron_asks_for_intervals_that_are_a_string() {
    assert_eq!(
        cron::add(&object(vec![("intervals", Value::Number("5".to_string())), ("job", text("ls"))])),
        refusal("Intervals expression must be a string.")
    );
}

#[test]
fn cron_asks_for_a_job() {
    assert_eq!(
        cron::add(&object(vec![("intervals", text("* * * * *"))])),
        refusal("No job specified.")
    );
}

#[test]
fn cron_asks_for_a_job_that_is_a_string() {
    assert_eq!(
        cron::add(&object(vec![("intervals", text("* * * * *")), ("job", Value::Array(vec![]))])),
        refusal("Job must be a string.")
    );
}

#[test]
fn cron_refuses_an_invalid_schedule() {
    let args = object(vec![("intervals", text("every day")), ("job", text("ls"))]);
    assert_eq!(cron::add(&args), refusal("Invalid cron interval expression."));
    let zero = object(vec![("intervals", text("*/0 * * * *")), ("job", text("ls"))]);
    assert_eq!(cron::add(&zero), refusal("Invalid cron interval expression."));
    let last = object(vec![("intervals", text("4294967295 * * * *")), ("job", text("ls"))]);
    assert_eq!(cron::add(&last), refusal("Invalid cron interval expression."));
}

#[test]
fn cron_accepts_a_valid_entry() {
    let args = object(vec![("job", text("backup --all")), ("intervals", text("*/5 1-8,11 * * *"))]);
    assert_eq!(
        cron::add(&args),
        cron::Opening::Accepted {
            notice: record(Level::Info, "Adding cron job."),
            entry: cron::Entry {
                intervals: "*/5 1-8,11 * * *".to_string(),
                job: "backup --all".to_string(),
            },
            listing: launch("crontab", Some(vec!["-l"])),
        }
    );
}

#[test]
fn cron_accepts_what_the_scheduler_accepts() {
    for intervals in ["100 * * * *", "*/100 * * * *", "000 * * * *"] {
        let args = object(vec![("intervals", text(intervals)), ("job", text("ls"))]);
        assert_eq!(
            cron::add(&args),
            cron::Opening::Accepted {
                notice: record(Level::Info, "Adding cron job."),
                entry: cron::Entry { intervals: intervals.to_string(), job: "ls".to_string() },
                listing: launch("crontab", Some(vec!["-l"])),
            }
        );
    }
}

#[test]
fn cron_describe_reads_the_two_strings() {
    let args = object(vec![("intervals", text("a")), ("job", text("b"))]);
    assert_eq!(
        cron::describe(&args),
        Ok(cron::Entry { intervals: "a".to_string(), job: "b".to_string() })
    );
    assert_eq!(
        cron::describe(&Value::Bool(false)),
        Err(saying(Level::Warning, "Nothing to do.", None))
    );
}

#[test]
fn cron_schedule_goes_by_the_verdict() {
    let entry = cron::Entry { intervals: "x".to_string(), job: "y".to_string() };
    assert_eq!(
        cron::schedule(entry.clone(), false),
        refusal("Invalid cron interval expression.")
    );
    assert_eq!(
        cron::schedule(entry.clone(), true),
        cron::Opening::Accepted {
            notice: record(Level::Info, "Adding cron job."),
            entry,
            listing: launch("crontab", Some(vec!["-l"])),
        }
    );
}

#[test]
fn valid_intervals_are_what_the_scheduler_accepts() {
    assert!(cron::valid_intervals("*/2 1-8,11 * * *"));
    assert!(cron::valid_intervals("0 */2 1-8,11 * * *"));
    assert!(cron::valid_intervals("*/2 1-4,16,11,17 * * *"));
    assert!(cron::valid_intervals("* * * * *"));
    assert!(cron::valid_intervals("  30 4 1 1 0  "));
    assert!(!cron::valid_intervals("05 */2 1-8,11 * * * *"));
    assert!(!cron::valid_intervals("05 */ 1-8,11 * * *"));
    assert!(!cron::valid_intervals("* * * *"));
    assert!(!cron::valid_intervals(""));
    assert!(!cron::valid_intervals("a b c d e"));
    assert!(!cron::valid_intervals("1/2 * * * *"));
}

#[test]
fn valid_intervals_hold_numbers_of_any_length() {
    assert!(cron::valid_intervals("100 * * * *"));
    assert!(cron::valid_intervals("*/100 * * * *"));
    assert!(cron::valid_intervals("000 * * * *"));
    assert!(cron::valid_intervals("99999 * * * *"));
    assert!(cron::valid_intervals("1-100000 * * * *"));
    assert!(cron::valid_intervals("* * 2021 * *"));
    assert!(cron::valid_intervals("*/05 * * * *"));
    assert!(cron::valid_intervals("*/4294967295 * * * *"));
    assert!(cron::valid_intervals("4294967295-5 * * * *"));
    assert!(cron::valid_intervals("4294967294 * * * *"));
    assert!(!cron::valid_intervals("4294967296 * * * *"));
    assert!(!cron::valid_intervals("*/4294967296 * * * *"));
}

#[test]
fn valid_intervals_have_no_step_of_zero() {
    assert!(!cron::valid_intervals("*/0 * * * *"));
    assert!(!cron::valid_intervals("* * * * */00"));
    assert!(!cron::valid_intervals("* */0000000000000 * * *"));
}

#[test]
fn valid_intervals_have_no_bound_without_a_successor() {
    assert!(!cron::valid_intervals("4294967295 * * * *"));
    assert!(!cron::valid_intervals("04294967295 * * * *"));
    assert!(!cron::valid_intervals("0-4294967295 * * * *"));
    assert!(!cron::valid_intervals("* * 1,4294967295 * *"));
}

#[test]
fn fits_finds_steps_of_zero() {
    assert!(!cron::fits("*/0"));
    assert!(!cron::fits("*/0 * * * *"));
    assert!(!cron::fits("*/00 * * * *"));
    assert!(!cron::fits("* * * * */000"));
    assert!(!cron::fits("*/0,1"));
    assert!(!cron::fits("x*/0\u{663}"));
    assert!(cron::fits("*/01"));
    assert!(cron::fits("*/10"));
    assert!(cron::fits("/0"));
    assert!(cron::fits("1/0"));
    assert!(cron::fits("0"));
    assert!(cron::fits("0-0"));
    assert!(cron::fits("*0"));
}

#[test]
fn fits_finds_bounds_without_a_successor() {
    assert!(!cron::fits("4294967295"));
    assert!(!cron::fits("0004294967295"));
    assert!(!cron::fits("1-4294967295"));
    assert!(!cron::fits("5,4294967295,6"));
    assert!(!cron::fits("* 4294967295 * * *"));
    assert!(cron::fits("4294967295-7"));
    assert!(cron::fits("*/4294967295"));
    assert!(cron::fits("1/4294967295"));
    assert!(cron::fits("4294967294"));
    assert!(cron::fits("4294967296"));
    assert!(cron::fits("42949672950"));
    assert!(cron::fits("99999999999999999999999999"));
}

#[test]
fn fits_takes_everything_else() {
    assert!(cron::fits(""));
    assert!(cron::fits("* * * * *"));
    assert!(cron::fits("12 34 56 78 90"));
    assert!(cron::fits("123 2021 100000 * *"));
    assert!(cron::fits("*/10 */05 1-31 1,2 0"));
    assert!(cron::fits("not a schedule at all"));
    assert!(cron::fits("/"));
    assert!(cron::fits("0/"));
}

#[test]
fn table_with_appends_the_entry() {
    let entry = cron::Entry { intervals: "*/5 * * * *".to_string(), job: "backup --all".to_string() };
    assert_eq!(
        cron::table_with("0 0 * * * old\n", &entry),
        "0 0 * * * old\n\n*/5 * * * * backup --all\n"
    );
    assert_eq!(cron::table_with("", &entry), "\n*/5 * * * * backup --all\n");
}

#[test]
fn cron_install_hands_the_file_to_crontab() {
    assert_eq!(
        cron::install("/tmp/x1/dotman.cron"),
        Plan {
            effects: vec![
                Effect::Run(launch("crontab", Some(vec!["--", "/tmp/x1/dotman.cron"]))),
                log(Level::Success, "Done."),
            ],
            outcome: Some(()),
        }
    );
}

#[test]
fn cron_install_cuts_a_path_with_a_space() {
    assert_eq!(
        cron::install("/tmp/my dir/dotman.cron").effects,
        vec![
            Effect::Run(launch("crontab", Some(vec!["--", "/tmp/my", "dir/dotman.cron"]))),
            log(Level::Success, "Done."),
        ]
    );
}
