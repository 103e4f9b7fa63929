//! The handler of the module `cron`: adds a job to the user's table of
//! scheduled jobs.
//!
//! The arguments are an object with two strings: `intervals`, the schedule,
//! and `job`, the command. The handler checks them, asks for the current
//! table, composes the new one, and has it installed from a file.
use vstd::prelude::*;
use vstd::string::StringExecFns;
use crate::config::{get, log, logged, member, note, perform, performed, Effect, Plan, PlanView, Value};
use crate::logger::{Level, Record, RecordView};
use crate::shell::{self, Invocation, InvocationView};
use crate::text::{is_digit, join, views};

verus! {

/// A job and its schedule.
#[derive(Clone, Debug, PartialEq, Eq)]
pub struct Entry {
    pub intervals: String,
    pub job: String,
}

/// The mathematical value of an [`Entry`].
pub struct EntryView {
    pub intervals: Seq<char>,
    pub job: Seq<char>,
}

impl View for Entry {
    type V = EntryView;

    open spec fn view(&self) -> EntryView {
        EntryView { intervals: self.intervals@, job: self.job@ }
    }
}

/// How the handler opens.
#[derive(Debug, PartialEq, Eq)]
pub enum Opening {
    /// Write the record, run `listing` for the current table, compose the new
    /// table with [`table_with`], store it in a file, and hand the file's path
    /// to [`install`].
    Accepted { notice: Record, entry: Entry, listing: Invocation },
    /// The arguments are refused: the plan is all there is.
    Refused(Plan),
}

/// The mathematical value of an [`Opening`].
pub enum OpeningView {
    Accepted { notice: RecordView, entry: EntryView, listing: InvocationView },
    Refused(PlanView),
}

impl View for Opening {
    type V = OpeningView;

    open spec fn view(&self) -> OpeningView {
        match self {
            Opening::Accepted { notice, entry, listing } => OpeningView::Accepted {
                notice: notice@,
                entry: entry@,
                listing: listing@,
            },
            Opening::Refused(plan) => OpeningView::Refused(plan@),
        }
    }
}

/// The number that a text of digits denotes.
pub open spec fn number(digits: Seq<char>) -> int
    decreases digits.len(),
{
    if digits.len() == 0 {
        0
    } else {
        number(digits.drop_last()) * 10 + (digits.last() as int - '0' as int)
    }
}

/// The characters from `a` up to `b` are a number: they are digits, and no
/// digit stands before or after them.
pub open spec fn number_at(text: Seq<char>, a: int, b: int) -> bool {
    &&& 0 <= a < b <= text.len()
    &&& forall|k: int| a <= k < b ==> is_digit(#[trigger] text[k])
    &&& a == 0 || !is_digit(text[a - 1])
    &&& b == text.len() || !is_digit(text[b])
}

/// The number from `a` up to `b` is a step of zero: it is zero, and it follows
/// a star and a slash.
pub open spec fn zero_step_at(text: Seq<char>, a: int, b: int) -> bool {
    &&& number_at(text, a, b)
    &&& number(text.subrange(a, b)) == 0
    &&& a >= 2
    &&& text[a - 1] == '/'
    &&& text[a - 2] == '*'
}

/// The number from `a` up to `b` is a bound without a successor: it is the
/// greatest number of 32 bits, it is no step, and it does not open a range.
pub open spec fn last_bound_at(text: Seq<char>, a: int, b: int) -> bool {
    &&& number_at(text, a, b)
    &&& number(text.subrange(a, b)) == u32::MAX
    &&& a == 0 || text[a - 1] != '/'
    &&& b == text.len() || text[b] != '-'
}

/// The number from `a` up to `b` is one that the scheduler cannot take.
pub open spec fn hazard_at(text: Seq<char>, a: int, b: int) -> bool {
    zero_step_at(text, a, b) || last_bound_at(text, a, b)
}

/// The schedules that the scheduler can be asked about: those without a step
/// of zero and without a bound that has no successor. On any other text the
/// scheduler gives no scheduler: it fails, or it does not come back.
pub open spec fn harmless(text: Seq<char>) -> bool {
    forall|a: int, b: int| !#[trigger] hazard_at(text, a, b)
}

/// Whether `cron_rs::Scheduler::new` accepts a schedule.
pub uninterp spec fn schedules(intervals: Seq<char>) -> bool;

/// `cron_rs::Scheduler::new`: whether it returns a scheduler for the
/// expression. For a field `*/n` it takes remainders by `n`, and for a number
/// that bounds a range it takes the successor; so it is not called with a step
/// of zero, nor with the greatest number of 32 bits as a bound. It enumerates
/// every range in full, so a wide range costs the time and the memory of its
/// width.
#[verifier::external_body]
fn scheduler_accepts(intervals: &str) -> (accepted: bool)
    requires
        harmless(intervals@),
    ensures
        accepted == schedules(intervals@),
{
    cron_rs::Scheduler::new(intervals).is_ok()
}

/// The characters of a text.
fn characters(text: &str) -> (chars: Vec<char>)
    ensures
        chars@ == text@,
{
    broadcast use vstd::string::group_string_axioms;

    let mut chars: Vec<char> = Vec::new();
    for c in rest: text.chars()
        invariant
            rest.seq() == text@,
            chars@ == text@.take(rest.index() as int),
    {
        assert(text@.take(rest.index() + 1) == text@.take(rest.index() as int).push(c));
        chars.push(c);
    }
    assert(text@.take(text@.len() as int) == text@);
    chars
}

/// The value of a decimal digit, if the character is one.
fn digit(c: char) -> (value: Option<u64>)
    ensures
        value is Some <==> is_digit(c),
        value matches Some(v) ==> v == c as int - '0' as int,
{
    match c {
        '0' => Some(0),
        '1' => Some(1),
        '2' => Some(2),
        '3' => Some(3),
        '4' => Some(4),
        '5' => Some(5),
        '6' => Some(6),
        '7' => Some(7),
        '8' => Some(8),
        '9' => Some(9),
        _ => None,
    }
}

/// What is known of the number being read: its value, unless that is beyond
/// 32 bits.
struct Reading {
    start: usize,
    value: u64,
    beyond: bool,
}

impl Reading {
    /// The reading is that of the digits of `text` from its start up to `end`.
    spec fn reads(self, text: Seq<char>, end: int) -> bool {
        &&& self.start < end <= text.len()
        &&& forall|k: int| self.start <= k < end ==> is_digit(#[trigger] text[k])
        &&& self.start == 0 || !is_digit(text[self.start - 1])
        &&& !self.beyond ==> self.value == number(text.subrange(self.start as int, end))
            && self.value <= u32::MAX
        &&& self.beyond ==> number(text.subrange(self.start as int, end)) > u32::MAX
    }
}

/// Tells whether the number that was read up to `end` is one that the
/// scheduler cannot take.
fn hazardous(chars: &Vec<char>, reading: &Reading, end: usize) -> (yes: bool)
    requires
        reading.reads(chars@, end as int),
        end == chars.len() || !is_digit(chars@[end as int]),
    ensures
        yes == hazard_at(chars@, reading.start as int, end as int),
        number_at(chars@, reading.start as int, end as int),
        forall|a: int| #[trigger] number_at(chars@, a, end as int) ==> a == reading.start,
{
    let start = reading.start;
    assert forall|a: int| #[trigger] number_at(chars@, a, end as int) implies a == start by {
        if a < start {
            assert(is_digit(chars@[start - 1]));
        } else if a > start {
            assert(is_digit(chars@[a - 1]));
        }
    }
    if reading.beyond {
        return false;
    }
    if reading.value == 0 {
        start >= 2 && chars[start - 1] == '/' && chars[start - 2] == '*'
    } else if reading.value == 0xffff_ffff {
        (start == 0 || chars[start - 1] != '/') && (end == chars.len() || chars[end] != '-')
    } else {
        false
    }
}

/// Checks that the scheduler can be asked about a schedule.
pub fn fits(intervals: &str) -> (ok: bool)
    ensures
        ok == harmless(intervals@),
{
    let chars = characters(intervals);
    let n = chars.len();
    let mut i: usize = 0;
    let mut reading: Option<Reading> = None;
    while i < n
        invariant
            i <= n,
            n == chars.len(),
            chars@ == intervals@,
            forall|a: int, b: int| b < i ==> !#[trigger] hazard_at(chars@, a, b),
            reading is Some <==> i > 0 && is_digit(chars@[i - 1]),
            reading matches Some(r) ==> r.reads(chars@, i as int),
        decreases n - i,
    {
        let c = chars[i];
        match digit(c) {
            Some(d) => {
                let before = match reading {
                    Some(r) => r,
                    None => {
                        assert(chars@.subrange(i as int, i as int).len() == 0);
                        Reading { start: i, value: 0, beyond: false }
                    },
                };
                let ghost old_digits = chars@.subrange(before.start as int, i as int);
                let ghost new_digits = chars@.subrange(before.start as int, i + 1);
                assert(new_digits.drop_last() == old_digits);
                assert(new_digits.last() == c);
                assert(number(new_digits) == number(old_digits) * 10 + d);
                assert(reading is None ==> number(old_digits) == 0);
                let value = if before.beyond {
                    0
                } else {
                    before.value * 10 + d
                };
                let beyond = before.beyond || value > 0xffff_ffff;
                let now = Reading { start: before.start, value, beyond };
                assert(now.reads(chars@, i + 1)) by {
                    assert forall|k: int| now.start <= k < i + 1 implies is_digit(
                        #[trigger] chars@[k],
                    ) by {
                        if k == i {
                        }
                    }
                }
                reading = Some(now);
                assert forall|a: int, b: int| b < i + 1 implies !#[trigger] hazard_at(
                    chars@,
                    a,
                    b,
                ) by {
                    if b == i && number_at(chars@, a, b) {
                        assert(false);
                    }
                }
            },
            None => {
                match reading {
                    Some(r) => {
                        if hazardous(&chars, &r, i) {
                            return false;
                        }
                    },
                    None => {
                        assert forall|a: int| !#[trigger] number_at(chars@, a, i as int) by {
                            if number_at(chars@, a, i as int) {
                                assert(is_digit(chars@[i - 1]));
                            }
                        }
                    },
                }
                reading = None;
            },
        }
        i += 1;
    }
    match reading {
        Some(r) => {
            if hazardous(&chars, &r, n) {
                return false;
            }
        },
        None => {
            assert forall|a: int| !#[trigger] number_at(chars@, a, n as int) by {
                if number_at(chars@, a, n as int) {
                    assert(is_digit(chars@[n - 1]));
                }
            }
        },
    }
    assert forall|a: int, b: int| !#[trigger] hazard_at(chars@, a, b) by {
        if hazard_at(chars@, a, b) {
            assert(number_at(chars@, a, b));
            assert(b <= n);
        }
    }
    true
}

/// Checks a schedule: it is valid when the scheduler can be asked about it
/// and accepts it.
pub fn valid_intervals(intervals: &str) -> (valid: bool)
    ensures
        harmless(intervals@) ==> valid == schedules(intervals@),
        !harmless(intervals@) ==> !valid,
{
    fits(intervals) && scheduler_accepts(intervals)
}

/// A refusal: the plan of a task that fails after saying why.
pub open spec fn refusal(message: Seq<char>) -> PlanView {
    PlanView {
        effects: seq![logged(Level::Info, "Adding cron job."@), logged(Level::Error, message)],
        outcome: None,
    }
}

/// What the arguments say: the entry they describe, or the plan that refuses
/// them. A value that is no object leaves nothing to do, which counts as
/// failure. An object must hold `intervals` and `job`, both strings.
pub open spec fn described(args: Value) -> Result<EntryView, PlanView> {
    match args.members() {
        None => Err(
            PlanView { effects: seq![logged(Level::Warning, "Nothing to do."@)], outcome: None },
        ),
        Some(members) => match member(members, "intervals"@) {
            None => Err(refusal("No intervals specified."@)),
            Some(intervals) => match intervals.text() {
                None => Err(refusal("Intervals expression must be a string."@)),
                Some(intervals) => match member(members, "job"@) {
                    None => Err(refusal("No job specified."@)),
                    Some(job) => match job.text() {
                        None => Err(refusal("Job must be a string."@)),
                        Some(job) => Ok(EntryView { intervals, job }),
                    },
                },
            },
        },
    }
}

/// The launch that lists the user's current table.
pub open spec fn listing() -> InvocationView {
    InvocationView { program: "crontab"@, args: Some(seq!["-l"@]) }
}

/// How the handler opens for an entry whose schedule is valid or not.
pub open spec fn scheduled(entry: EntryView, valid: bool) -> OpeningView {
    if valid {
        OpeningView::Accepted {
            notice: RecordView { level: Level::Info, message: "Adding cron job."@ },
            entry,
            listing: listing(),
        }
    } else {
        OpeningView::Refused(refusal("Invalid cron interval expression."@))
    }
}

/// How the handler opens for the given arguments.
pub open spec fn opened(args: Value) -> OpeningView {
    match described(args) {
        Ok(entry) => scheduled(
            entry,
            harmless(entry.intervals) && schedules(entry.intervals),
        ),
        Err(plan) => OpeningView::Refused(plan),
    }
}

/// The table with the entry added: the current table, a line break, and the
/// schedule and the job on a line of their own.
pub open spec fn extended(existing: Seq<char>, entry: EntryView) -> Seq<char> {
    existing + "\n"@ + entry.intervals + " "@ + entry.job + "\n"@
}

/// The plan that installs the table stored at `path`, and ends the task with
/// success.
pub open spec fn installation(path: Seq<char>) -> PlanView {
    PlanView {
        effects: performed(shell::launches("crontab -- "@ + path)) + seq![
            logged(Level::Success, "Done."@),
        ],
        outcome: Some(()),
    }
}

/// Builds a refusal.
fn refuse(message: &str) -> (plan: Plan)
    ensures
        plan@ == refusal(message@),
{
    let mut effects: Vec<Effect> = Vec::new();
    effects.push(log(Level::Info, "Adding cron job."));
    effects.push(log(Level::Error, message));
    assert(views(effects@) =~= seq![
        logged(Level::Info, "Adding cron job."@),
        logged(Level::Error, message@),
    ]);
    Plan { effects, outcome: None }
}

/// Reads the entry that the arguments describe.
pub fn describe(args: &Value) -> (entry: Result<Entry, Plan>)
    ensures
        match entry {
            Ok(entry) => described(*args) == Ok::<EntryView, PlanView>(entry@),
            Err(plan) => described(*args) == Err::<EntryView, PlanView>(plan@),
        },
{
    let members = match args.as_object() {
        Some(members) => members,
        None => {
            let mut effects: Vec<Effect> = Vec::new();
            effects.push(log(Level::Warning, "Nothing to do."));
            assert(views(effects@) =~= seq![logged(Level::Warning, "Nothing to do."@)]);
            return Err(Plan { effects, outcome: None });
        },
    };
    let intervals = match get(members, "intervals") {
        Some(value) => match value.as_str() {
            Some(text) => text,
            None => {
                return Err(refuse("Intervals expression must be a string."));
            },
        },
        None => {
            return Err(refuse("No intervals specified."));
        },
    };
    let job = match get(members, "job") {
        Some(value) => match value.as_str() {
            Some(text) => text,
            None => {
                return Err(refuse("Job must be a string."));
            },
        },
        None => {
            return Err(refuse("No job specified."));
        },
    };
    Ok(Entry { intervals: String::from_str(intervals), job: String::from_str(job) })
}

/// Opens the handler for an entry, given whether its schedule is valid.
pub fn schedule(entry: Entry, valid: bool) -> (opening: Opening)
    ensures
        opening@ == scheduled(entry@, valid),
{
    if valid {
        let mut args: Vec<String> = Vec::new();
        args.push(String::from_str("-l"));
        assert(views(args@) =~= seq!["-l"@]);
        Opening::Accepted {
            notice: note(Level::Info, "Adding cron job."),
            entry,
            listing: shell::command("crontab", Some(args)),
        }
    } else {
        Opening::Refused(refuse("Invalid cron interval expression."))
    }
}

/// Opens the addition of a cron job for the current user.
pub fn add(args: &Value) -> (opening: Opening)
    ensures
        opening@ == opened(*args),
{
    match describe(args) {
        Ok(entry) => {
            let valid = valid_intervals(entry.intervals.as_str());
            schedule(entry, valid)
        },
        Err(plan) => Opening::Refused(plan),
    }
}

/// Composes the table that holds the current entries and the new one.
pub fn table_with(existing: &str, entry: &Entry) -> (table: String)
    ensures
        table@ == extended(existing@, entry@),
{
    let broken = join(existing, "\n");
    let timed = join(broken.as_str(), entry.intervals.as_str());
    let spaced = join(timed.as_str(), " ");
    let whole = join(spaced.as_str(), entry.job.as_str());
    join(whole.as_str(), "\n")
}

/// Plans the installation of the table stored at `path`.
pub fn install(path: &str) -> (plan: Plan)
    ensures
        plan@ == installation(path@),
{
    let line = join("crontab -- ", path);
    let mut effects: Vec<Effect> = Vec::new();
    assert(views(effects@) =~= Seq::<crate::config::EffectView>::empty());
    perform(&mut effects, shell::run(line.as_str()));
    let ghost so_far = views(effects@);
    effects.push(log(Level::Success, "Done."));
    assert(views(effects@) =~= so_far.push(logged(Level::Success, "Done."@)));
    assert(views(effects@) =~= installation(path@).effects);
    Plan { effects, outcome: Some(()) }
}

} // verus!
