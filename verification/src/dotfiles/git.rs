//! The synchronization protocol.
//!
//! Synchronizing is a conversation between the protocol, which decides, and a
//! driver, which touches the file system and the network. The protocol names
//! one action at a time; the driver performs it and reports the outcome as an
//! event; the protocol then moves on or ends with the result.
//!
//! A destination that does not exist is cloned into. One that exists is opened
//! as it is, unless the synchronization is forced: then it is replaced by a
//! fresh clone, in one of two ways. Staged, the clone is made elsewhere first
//! and put in the destination's place once it has succeeded, so a clone that
//! fails leaves the destination alone. Direct, the clone is attempted in place; if it is turned
//! down because the destination exists, the destination is removed and the
//! clone is tried once more, and never again.
//!
//! The protocol sets no deadline: an action whose outcome is never reported
//! holds the synchronization up for good.
use vstd::prelude::*;
use vstd::string::StringExecFns;

verus! {

/// The kinds of failure that the protocol tells apart.
#[derive(Clone, Copy, Debug, PartialEq, Eq, Structural)]
pub enum Category {
    /// The destination of a clone already exists.
    Exists,
    /// Anything else: the network, authentication, an invalid source, an
    /// invalid working tree, the file system.
    Other,
}

/// A failure of the version-control backend or of the file system.
#[derive(Clone, Debug, PartialEq, Eq)]
pub struct Failure {
    pub category: Category,
    pub message: String,
}

/// The mathematical value of a [`Failure`].
pub struct FailureView {
    pub category: Category,
    pub message: Seq<char>,
}

impl View for Failure {
    type V = FailureView;

    open spec fn view(&self) -> FailureView {
        FailureView { category: self.category, message: self.message@ }
    }
}

/// How a forced synchronization replaces a destination that exists.
#[derive(Debug, PartialEq, Eq)]
pub enum Replacement {
    /// Clone into `staging` first, then put the clone in the destination's
    /// place.
    Staged { staging: String },
    /// Clone in place; if the destination is in the way, remove it and clone
    /// once more.
    Direct,
}

/// The mathematical value of a [`Replacement`].
pub enum ReplacementView {
    Staged { staging: Seq<char> },
    Direct,
}

impl View for Replacement {
    type V = ReplacementView;

    open spec fn view(&self) -> ReplacementView {
        match self {
            Replacement::Staged { staging } => ReplacementView::Staged { staging: staging@ },
            Replacement::Direct => ReplacementView::Direct,
        }
    }
}

/// What the driver is asked to do.
#[derive(Debug, PartialEq, Eq)]
pub enum Action {
    /// Tell whether anything exists at `path`.
    Probe { path: String },
    /// Clone `source` into `into`.
    Clone { source: String, into: String },
    /// Open the working tree at `path`.
    Open { path: String },
    /// Remove `path` and everything below it.
    Remove { path: String },
    /// Put the content of `from` in the place of `to`, in one operation: what
    /// `to` held is gone, and `from` is no more.
    Replace { from: String, to: String },
}

/// The mathematical value of an [`Action`].
pub enum ActionView {
    Probe { path: Seq<char> },
    Clone { source: Seq<char>, into: Seq<char> },
    Open { path: Seq<char> },
    Remove { path: Seq<char> },
    Replace { from: Seq<char>, to: Seq<char> },
}

impl View for Action {
    type V = ActionView;

    open spec fn view(&self) -> ActionView {
        match self {
            Action::Probe { path } => ActionView::Probe { path: path@ },
            Action::Clone { source, into } => ActionView::Clone { source: source@, into: into@ },
            Action::Open { path } => ActionView::Open { path: path@ },
            Action::Remove { path } => ActionView::Remove { path: path@ },
            Action::Replace { from, to } => ActionView::Replace { from: from@, to: to@ },
        }
    }
}

/// What the driver reports: the outcome of the action it was asked for. `R` is
/// the driver's handle to a working tree; the protocol passes it on and never
/// looks inside.
#[derive(Debug, PartialEq, Eq)]
pub enum Event<R> {
    Probed(bool),
    Cloned(Result<R, Failure>),
    Opened(Result<R, Failure>),
    Removed(Result<(), Failure>),
    Replaced(Result<(), Failure>),
}

/// The mathematical value of an [`Event`].
pub enum EventView<R> {
    Probed(bool),
    Cloned(Result<R, FailureView>),
    Opened(Result<R, FailureView>),
    Removed(Result<(), FailureView>),
    Replaced(Result<(), FailureView>),
}

/// The mathematical value of an outcome.
pub open spec fn outcome_view<T>(outcome: Result<T, Failure>) -> Result<T, FailureView> {
    match outcome {
        Ok(value) => Ok(value),
        Err(failure) => Err(failure@),
    }
}

impl<R> View for Event<R> {
    type V = EventView<R>;

    open spec fn view(&self) -> EventView<R> {
        match self {
            Event::Probed(exists) => EventView::Probed(*exists),
            Event::Cloned(outcome) => EventView::Cloned(outcome_view(*outcome)),
            Event::Opened(outcome) => EventView::Opened(outcome_view(*outcome)),
            Event::Removed(outcome) => EventView::Removed(outcome_view(*outcome)),
            Event::Replaced(outcome) => EventView::Replaced(outcome_view(*outcome)),
        }
    }
}

/// Where a synchronization stands: the action that it waits for.
#[derive(Clone, Copy, Debug, PartialEq, Eq, Structural)]
pub enum Phase {
    /// Finding out whether the destination exists.
    Probing,
    /// Cloning into a destination that does not exist.
    Cloning,
    /// Opening a destination that exists.
    Opening,
    /// Staged: cloning into the staging directory.
    Staging,
    /// Staged: putting the clone in the destination's place, now that it has
    /// succeeded.
    Replacing,
    /// Staged: opening the destination, now that the clone is in it.
    Reopening,
    /// Direct: cloning into a destination that exists.
    Overwriting,
    /// Direct: removing the destination that was in the way.
    Clearing,
    /// Direct: cloning once more, for the last time.
    Retrying,
}

/// The state of a synchronization.
pub struct SyncView {
    pub source: Seq<char>,
    pub destination: Seq<char>,
    pub force: bool,
    pub replacement: ReplacementView,
    pub phase: Phase,
}

impl SyncView {
    /// Whether the phase belongs to a staged replacement.
    pub open spec fn staged_phase(self) -> bool {
        self.phase is Staging || self.phase is Replacing || self.phase is Reopening
    }

    /// The states that a synchronization can be in: the staging directory is
    /// another than the destination, and the phases of a staged replacement
    /// occur only where one was asked for.
    pub open spec fn wf(self) -> bool {
        &&& self.replacement matches ReplacementView::Staged { staging } ==> staging
            != self.destination
        &&& self.staged_phase() ==> self.replacement is Staged
    }

    /// The staging directory.
    pub open spec fn staging(self) -> Seq<char> {
        match self.replacement {
            ReplacementView::Staged { staging } => staging,
            ReplacementView::Direct => self.destination,
        }
    }
}

/// The outcome of one step: the synchronization goes on, or it has ended with
/// a handle or with a failure.
#[derive(Debug)]
pub enum Step<R> {
    Continue(Sync),
    Done(Result<R, Failure>),
}

/// The mathematical value of a [`Step`].
pub enum StepView<R> {
    Continue(SyncView),
    Done(Result<R, FailureView>),
}

impl<R> View for Step<R> {
    type V = StepView<R>;

    open spec fn view(&self) -> StepView<R> {
        match self {
            Step::Continue(sync) => StepView::Continue(sync@),
            Step::Done(outcome) => StepView::Done(outcome_view(*outcome)),
        }
    }
}

/// The state in which a synchronization starts.
pub open spec fn begun(
    source: Seq<char>,
    destination: Seq<char>,
    force: bool,
    replacement: ReplacementView,
) -> SyncView {
    SyncView { source, destination, force, replacement, phase: Phase::Probing }
}

/// The action that a synchronization waits for.
pub open spec fn pending(sync: SyncView) -> ActionView {
    match sync.phase {
        Phase::Probing => ActionView::Probe { path: sync.destination },
        Phase::Cloning | Phase::Overwriting | Phase::Retrying => ActionView::Clone {
            source: sync.source,
            into: sync.destination,
        },
        Phase::Opening | Phase::Reopening => ActionView::Open { path: sync.destination },
        Phase::Staging => ActionView::Clone { source: sync.source, into: sync.staging() },
        Phase::Clearing => ActionView::Remove { path: sync.destination },
        Phase::Replacing => ActionView::Replace { from: sync.staging(), to: sync.destination },
    }
}

/// Whether an event reports the outcome of the action that is waited for.
pub open spec fn answers<R>(phase: Phase, event: EventView<R>) -> bool {
    match phase {
        Phase::Probing => event is Probed,
        Phase::Cloning | Phase::Overwriting | Phase::Retrying | Phase::Staging => event is Cloned,
        Phase::Opening | Phase::Reopening => event is Opened,
        Phase::Clearing => event is Removed,
        Phase::Replacing => event is Replaced,
    }
}

/// The phase that follows the probe of the destination.
pub open spec fn probed(sync: SyncView, exists: bool) -> Phase {
    if !exists {
        Phase::Cloning
    } else if !sync.force {
        Phase::Opening
    } else if sync.replacement is Staged {
        Phase::Staging
    } else {
        Phase::Overwriting
    }
}

/// One step of the protocol: what follows an event.
///
/// An event that does not answer the pending action changes nothing. A
/// failure ends the synchronization, with one exception: a forced, direct
/// clone that is turned down because the destination exists leads to the
/// removal of the destination and one more clone.
pub open spec fn step<R>(sync: SyncView, event: EventView<R>) -> StepView<R> {
    match (sync.phase, event) {
        (Phase::Probing, EventView::Probed(exists)) => StepView::Continue(
            SyncView { phase: probed(sync, exists), ..sync },
        ),
        (Phase::Cloning, EventView::Cloned(outcome)) => StepView::Done(outcome),
        (Phase::Opening, EventView::Opened(outcome)) => StepView::Done(outcome),
        (Phase::Staging, EventView::Cloned(Ok(_))) => StepView::Continue(
            SyncView { phase: Phase::Replacing, ..sync },
        ),
        (Phase::Staging, EventView::Cloned(Err(failure))) => StepView::Done(Err(failure)),
        (Phase::Replacing, EventView::Replaced(Ok(_))) => StepView::Continue(
            SyncView { phase: Phase::Reopening, ..sync },
        ),
        (Phase::Replacing, EventView::Replaced(Err(failure))) => StepView::Done(Err(failure)),
        (Phase::Reopening, EventView::Opened(outcome)) => StepView::Done(outcome),
        (Phase::Overwriting, EventView::Cloned(Ok(handle))) => StepView::Done(Ok(handle)),
        (Phase::Overwriting, EventView::Cloned(Err(failure))) => if failure.category is Exists {
            StepView::Continue(SyncView { phase: Phase::Clearing, ..sync })
        } else {
            StepView::Done(Err(failure))
        },
        (Phase::Clearing, EventView::Removed(Ok(_))) => StepView::Continue(
            SyncView { phase: Phase::Retrying, ..sync },
        ),
        (Phase::Clearing, EventView::Removed(Err(failure))) => StepView::Done(Err(failure)),
        (Phase::Retrying, EventView::Cloned(outcome)) => StepView::Done(outcome),
        _ => StepView::Continue(sync),
    }
}

/// Where a synchronization stands after a series of events.
pub open spec fn after<R>(sync: SyncView, events: Seq<EventView<R>>) -> StepView<R>
    decreases events.len(),
{
    if events.len() == 0 {
        StepView::Continue(sync)
    } else {
        match after(sync, events.drop_last()) {
            StepView::Continue(now) => step(now, events.last()),
            StepView::Done(outcome) => StepView::Done(outcome),
        }
    }
}

/// Whether an action writes to `path`, or takes it away.
pub open spec fn touches(action: ActionView, path: Seq<char>) -> bool {
    match action {
        ActionView::Probe { .. } => false,
        ActionView::Open { .. } => false,
        ActionView::Clone { into, .. } => into == path,
        ActionView::Remove { path: removed } => removed == path,
        ActionView::Replace { from, to } => from == path || to == path,
    }
}

/// Every probe among the events gives the same answer.
pub open spec fn probes_say<R>(events: Seq<EventView<R>>, exists: bool) -> bool {
    forall|k: int|
        0 <= k < events.len() ==> (#[trigger] events[k] matches EventView::Probed(answer)
            ==> answer == exists)
}

/// Whether an event is among those reported.
pub open spec fn reported<R>(events: Seq<EventView<R>>, event: EventView<R>) -> bool {
    exists|k: int| 0 <= k < events.len() && #[trigger] events[k] == event
}

/// Whether a clone has succeeded.
pub open spec fn cloned<R>(events: Seq<EventView<R>>) -> bool {
    exists|k: int|
        0 <= k < events.len() && (#[trigger] events[k] matches EventView::Cloned(outcome)
            && outcome is Ok)
}

/// Whether a replacement has succeeded.
pub open spec fn replaced<R>(events: Seq<EventView<R>>) -> bool {
    exists|k: int|
        0 <= k < events.len() && (#[trigger] events[k] matches EventView::Replaced(outcome)
            && outcome is Ok)
}

/// Whether a clone has been turned down because its destination exists.
pub open spec fn refused<R>(events: Seq<EventView<R>>) -> bool {
    exists|k: int|
        0 <= k < events.len() && (#[trigger] events[k] matches EventView::Cloned(Err(failure))
            && failure.category is Exists)
}

/// Whether some action has failed with the given failure.
pub open spec fn failed<R>(events: Seq<EventView<R>>, failure: FailureView) -> bool {
    ||| reported(events, EventView::Cloned(Err(failure)))
    ||| reported(events, EventView::Opened(Err(failure)))
    ||| reported(events, EventView::Removed(Err(failure)))
    ||| reported(events, EventView::Replaced(Err(failure)))
}

/// The same synchronization in another phase.
pub open spec fn same_request(sync: SyncView, now: SyncView) -> bool {
    now == (SyncView { phase: now.phase, ..sync })
}

proof fn lemma_reports_last<R>(events: Seq<EventView<R>>)
    requires
        events.len() > 0,
    ensures
        reported(events, events.last()),
        forall|event: EventView<R>|
            reported(events.drop_last(), event) ==> #[trigger] reported(events, event),
        cloned(events.drop_last()) ==> cloned(events),
        events.last() matches EventView::Cloned(outcome) && outcome is Ok ==> cloned(events),
        replaced(events.drop_last()) ==> replaced(events),
        refused(events.drop_last()) ==> refused(events),
        events.last() matches EventView::Cloned(Err(failure)) && failure.category is Exists
            ==> refused(events),
        events.last() matches EventView::Replaced(outcome) && outcome is Ok ==> replaced(events),
        forall|failure: FailureView|
            failed(events.drop_last(), failure) ==> #[trigger] failed(events, failure),
        forall|exists: bool|
            probes_say(events, exists) ==> #[trigger] probes_say(events.drop_last(), exists),
{
    let before = events.drop_last();
    assert(events[events.len() - 1] == events.last());
    assert forall|event: EventView<R>| reported(before, event) implies #[trigger] reported(
        events,
        event,
    ) by {
        let k = choose|k: int| 0 <= k < before.len() && #[trigger] before[k] == event;
        assert(events[k] == event);
    }
    if cloned(before) {
        let k = choose|k: int|
            0 <= k < before.len() && (#[trigger] before[k] matches EventView::Cloned(outcome)
                && outcome is Ok);
        assert(events[k] == before[k]);
    }
    if refused(before) {
        let k = choose|k: int|
            0 <= k < before.len() && (#[trigger] before[k] matches EventView::Cloned(
                Err(failure),
            ) && failure.category is Exists);
        assert(events[k] == before[k]);
    }
    if replaced(before) {
        let k = choose|k: int|
            0 <= k < before.len() && (#[trigger] before[k] matches EventView::Replaced(outcome)
                && outcome is Ok);
        assert(events[k] == before[k]);
    }
    assert forall|exists: bool| probes_say(events, exists) implies #[trigger] probes_say(
        before,
        exists,
    ) by {
        assert forall|k: int| 0 <= k < before.len() implies (#[trigger] before[k] matches EventView::Probed(
            answer,
        ) ==> answer == exists) by {
            assert(before[k] == events[k]);
        }
    }
}

/// A destination that does not exist is cloned into, whether the
/// synchronization is forced or not: nothing is ever asked for but the probe
/// of the destination and the clone of the source into it, and the
/// synchronization ends with the outcome of that clone, as it is.
pub proof fn lemma_absent_destination_is_cloned<R>(sync: SyncView, events: Seq<EventView<R>>)
    requires
        sync.phase is Probing,
        probes_say(events, false),
    ensures
        match after(sync, events) {
            StepView::Continue(now) => {
                &&& same_request(sync, now)
                &&& now.phase is Probing || now.phase is Cloning
                &&& pending(now) == (ActionView::Probe { path: sync.destination }) || pending(now)
                    == (ActionView::Clone { source: sync.source, into: sync.destination })
            },
            StepView::Done(outcome) => reported(events, EventView::Cloned(outcome)),
        },
    decreases events.len(),
{
    if events.len() > 0 {
        lemma_reports_last(events);
        lemma_absent_destination_is_cloned(sync, events.drop_last());
    }
}

/// A destination that exists is left as it is by a synchronization that is
/// not forced: nothing is ever asked for but the probe of the destination and
/// its opening, neither of which touches any path, and the synchronization
/// ends with the outcome of that opening, as it is: the handle of the tree
/// where it is valid, and the failure where it is not.
pub proof fn lemma_present_destination_is_opened<R>(sync: SyncView, events: Seq<EventView<R>>)
    requires
        sync.phase is Probing,
        !sync.force,
        probes_say(events, true),
    ensures
        match after(sync, events) {
            StepView::Continue(now) => {
                &&& same_request(sync, now)
                &&& now.phase is Probing || now.phase is Opening
                &&& forall|path: Seq<char>| !touches(pending(now), path)
            },
            StepView::Done(outcome) => reported(events, EventView::Opened(outcome)),
        },
    decreases events.len(),
{
    if events.len() > 0 {
        lemma_reports_last(events);
        lemma_present_destination_is_opened(sync, events.drop_last());
    }
}

/// A forced, staged synchronization of a destination that exists touches the
/// destination only once a clone has succeeded. It ends with a handle only
/// when the clone and the replacement of the destination by it have both
/// succeeded, and the handle is the one that opening the destination gave
/// afterwards. It ends with a failure only when an action failed with it.
pub proof fn lemma_forced_destination_is_replaced<R>(sync: SyncView, events: Seq<EventView<R>>)
    requires
        sync.wf(),
        sync.phase is Probing,
        sync.force,
        sync.replacement is Staged,
        probes_say(events, true),
    ensures
        match after(sync, events) {
            StepView::Continue(now) => {
                &&& same_request(sync, now)
                &&& now.phase is Probing || now.staged_phase()
                &&& touches(pending(now), sync.destination) ==> cloned(events)
                &&& now.phase is Replacing || now.phase is Reopening ==> cloned(events)
                &&& now.phase is Reopening ==> replaced(events)
            },
            StepView::Done(Ok(handle)) => {
                &&& cloned(events)
                &&& replaced(events)
                &&& reported(events, EventView::Opened(Ok(handle)))
            },
            StepView::Done(Err(failure)) => failed(events, failure),
        },
    decreases events.len(),
{
    if events.len() > 0 {
        lemma_reports_last(events);
        lemma_forced_destination_is_replaced(sync, events.drop_last());
    }
}

/// While no clone has succeeded, a forced, staged synchronization has asked
/// for nothing that touches the destination, at any point of the
/// conversation: a clone that fails leaves the destination as it was.
pub proof fn lemma_failed_clone_spares_destination<R>(
    sync: SyncView,
    events: Seq<EventView<R>>,
    so_far: int,
)
    requires
        sync.wf(),
        sync.phase is Probing,
        sync.force,
        sync.replacement is Staged,
        probes_say(events, true),
        !cloned(events),
        0 <= so_far <= events.len(),
    ensures
        after(sync, events.take(so_far)) matches StepView::Continue(now) ==> !touches(
            pending(now),
            sync.destination,
        ),
{
    let seen = events.take(so_far);
    assert forall|k: int| 0 <= k < seen.len() implies (#[trigger] seen[k] matches EventView::Probed(
        answer,
    ) ==> answer == true) by {
        assert(seen[k] == events[k]);
    }
    lemma_forced_destination_is_replaced(sync, seen);
    if cloned(seen) {
        let k = choose|k: int|
            0 <= k < seen.len() && (#[trigger] seen[k] matches EventView::Cloned(outcome)
                && outcome is Ok);
        assert(events[k] == seen[k]);
    }
}

/// A forced, direct synchronization of a destination that exists removes the
/// destination only once a clone has been turned down because the destination
/// exists. It ends with a handle only when a clone gave that handle, and with
/// a failure only when an action failed with it.
pub proof fn lemma_forced_destination_is_overwritten<R>(
    sync: SyncView,
    events: Seq<EventView<R>>,
)
    requires
        sync.phase is Probing,
        sync.force,
        sync.replacement is Direct,
        probes_say(events, true),
    ensures
        match after(sync, events) {
            StepView::Continue(now) => {
                &&& same_request(sync, now)
                &&& now.phase is Probing || now.phase is Overwriting || now.phase is Clearing
                    || now.phase is Retrying
                &&& now.phase is Clearing || now.phase is Retrying ==> refused(events)
                &&& pending(now) is Remove ==> refused(events)
            },
            StepView::Done(Ok(handle)) => reported(events, EventView::Cloned(Ok(handle))),
            StepView::Done(Err(failure)) => failed(events, failure),
        },
    decreases events.len(),
{
    if events.len() > 0 {
        lemma_reports_last(events);
        lemma_forced_destination_is_overwritten(sync, events.drop_last());
    }
}

/// The number of answers that a synchronization can still take before it
/// ends.
pub open spec fn budget(phase: Phase) -> nat {
    match phase {
        Phase::Probing => 4,
        Phase::Staging => 3,
        Phase::Replacing => 2,
        Phase::Reopening => 1,
        Phase::Overwriting => 3,
        Phase::Clearing => 2,
        Phase::Retrying => 1,
        Phase::Cloning => 1,
        Phase::Opening => 1,
    }
}

/// Whether each event answers the action that is pending when it arrives.
pub open spec fn in_turn<R>(sync: SyncView, events: Seq<EventView<R>>) -> bool
    decreases events.len(),
{
    events.len() == 0 || (in_turn(sync, events.drop_last()) && match after(
        sync,
        events.drop_last(),
    ) {
        StepView::Continue(now) => answers(now.phase, events.last()),
        StepView::Done(_) => true,
    })
}

/// Every answer uses up some of the budget: a synchronization that goes on is
/// closer to its end than it was.
pub proof fn lemma_answer_uses_budget<R>(sync: SyncView, event: EventView<R>)
    requires
        sync.wf(),
        answers(sync.phase, event),
    ensures
        step(sync, event) matches StepView::Continue(now) ==> now.wf() && same_request(sync, now)
            && budget(now.phase) < budget(sync.phase),
{
}

/// A synchronization ends: once it has had as many answers as its budget, at
/// most four, it is over, whatever the answers were.
pub proof fn lemma_sync_ends<R>(sync: SyncView, events: Seq<EventView<R>>)
    requires
        sync.wf(),
        in_turn(sync, events),
    ensures
        after(sync, events) matches StepView::Continue(now) ==> now.wf() && budget(now.phase)
            + events.len() <= budget(sync.phase),
        events.len() >= budget(sync.phase) ==> after(sync, events) is Done,
    decreases events.len(),
{
    if events.len() > 0 {
        lemma_sync_ends(sync, events.drop_last());
        match after(sync, events.drop_last()) {
            StepView::Continue(now) => {
                lemma_answer_uses_budget(now, events.last());
            },
            StepView::Done(_) => {},
        }
    }
}

/// The retry is the last attempt: whatever the second clone of a forced,
/// direct synchronization comes to, that is how the synchronization ends. A
/// destination that is reported to exist again is not removed again.
pub proof fn lemma_retry_is_final<R>(sync: SyncView, outcome: Result<R, FailureView>)
    requires
        sync.phase is Retrying,
    ensures
        step(sync, EventView::Cloned(outcome)) == StepView::Done(outcome),
{
}

/// A forced, direct synchronization whose clone is turned down because the
/// destination exists removes the destination and clones once more. If that
/// clone fails too, for whatever reason, the synchronization ends with its
/// failure.
pub proof fn lemma_direct_sync_retries_once<R>(
    sync: SyncView,
    first: FailureView,
    second: FailureView,
)
    requires
        sync.phase is Probing,
        sync.force,
        sync.replacement is Direct,
        first.category is Exists,
    ensures
        after(
            sync,
            seq![
                EventView::<R>::Probed(true),
                EventView::Cloned(Err(first)),
                EventView::Removed(Ok(())),
                EventView::Cloned(Err(second)),
            ],
        ) == StepView::<R>::Done(Err(second)),
{
    let events = seq![
        EventView::<R>::Probed(true),
        EventView::Cloned(Err(first)),
        EventView::Removed(Ok(())),
        EventView::Cloned(Err(second)),
    ];
    let three = events.drop_last();
    let two = three.drop_last();
    let one = two.drop_last();
    assert(one.drop_last().len() == 0);
    assert(after(sync, one.drop_last()) == StepView::<R>::Continue(sync));
    assert(after(sync, one) == StepView::<R>::Continue(
        SyncView { phase: Phase::Overwriting, ..sync },
    ));
    assert(after(sync, two) == StepView::<R>::Continue(
        SyncView { phase: Phase::Clearing, ..sync },
    ));
    assert(after(sync, three) == StepView::<R>::Continue(
        SyncView { phase: Phase::Retrying, ..sync },
    ));
}

/// A synchronization under way.
#[derive(Debug)]
pub struct Sync {
    source: String,
    destination: String,
    force: bool,
    replacement: Replacement,
    phase: Phase,
}

impl View for Sync {
    type V = SyncView;

    closed spec fn view(&self) -> SyncView {
        SyncView {
            source: self.source@,
            destination: self.destination@,
            force: self.force,
            replacement: self.replacement@,
            phase: self.phase,
        }
    }
}

impl Sync {
    #[verifier::type_invariant]
    spec fn inv(self) -> bool {
        self@.wf()
    }

    /// The phase that the synchronization is in.
    pub fn phase(&self) -> (phase: Phase)
        ensures
            phase == self@.phase,
            self@.wf(),
    {
        proof {
            use_type_invariant(self);
        }
        self.phase
    }

    /// The action that the synchronization waits for.
    pub fn action(&self) -> (action: Action)
        ensures
            action@ == pending(self@),
            self@.wf(),
    {
        proof {
            use_type_invariant(self);
        }
        match self.phase {
            Phase::Probing => Action::Probe { path: self.destination.clone() },
            Phase::Cloning | Phase::Overwriting | Phase::Retrying => Action::Clone {
                source: self.source.clone(),
                into: self.destination.clone(),
            },
            Phase::Opening | Phase::Reopening => Action::Open { path: self.destination.clone() },
            Phase::Staging => Action::Clone {
                source: self.source.clone(),
                into: self.staging_path(),
            },
            Phase::Clearing => Action::Remove { path: self.destination.clone() },
            Phase::Replacing => Action::Replace {
                from: self.staging_path(),
                to: self.destination.clone(),
            },
        }
    }

    fn staging_path(&self) -> (path: String)
        ensures
            path@ == self@.staging(),
    {
        match &self.replacement {
            Replacement::Staged { staging } => staging.clone(),
            Replacement::Direct => self.destination.clone(),
        }
    }

    fn moved_to(self, phase: Phase) -> (sync: Sync)
        requires
            (SyncView { phase, ..self@ }).wf(),
        ensures
            sync@ == (SyncView { phase, ..self@ }),
    {
        Sync {
            source: self.source,
            destination: self.destination,
            force: self.force,
            replacement: self.replacement,
            phase,
        }
    }

    /// Takes one step: given the outcome of the pending action, moves on or
    /// ends.
    pub fn step<R>(self, event: Event<R>) -> (next: Step<R>)
        ensures
            next@ == step(self@, event@),
            self@.wf(),
            next matches Step::Continue(sync) ==> sync@.wf(),
    {
        proof {
            use_type_invariant(&self);
        }
        match self.phase {
            Phase::Probing => match event {
                Event::Probed(exists) => {
                    let staged = match &self.replacement {
                        Replacement::Staged { .. } => true,
                        Replacement::Direct => false,
                    };
                    let phase = if !exists {
                        Phase::Cloning
                    } else if !self.force {
                        Phase::Opening
                    } else if staged {
                        Phase::Staging
                    } else {
                        Phase::Overwriting
                    };
                    Step::Continue(self.moved_to(phase))
                },
                _ => Step::Continue(self),
            },
            Phase::Cloning | Phase::Retrying => match event {
                Event::Cloned(outcome) => Step::Done(outcome),
                _ => Step::Continue(self),
            },
            Phase::Opening | Phase::Reopening => match event {
                Event::Opened(outcome) => Step::Done(outcome),
                _ => Step::Continue(self),
            },
            Phase::Staging => match event {
                Event::Cloned(Ok(_)) => Step::Continue(self.moved_to(Phase::Replacing)),
                Event::Cloned(Err(failure)) => Step::Done(Err(failure)),
                _ => Step::Continue(self),
            },
            Phase::Replacing => match event {
                Event::Replaced(Ok(_)) => Step::Continue(self.moved_to(Phase::Reopening)),
                Event::Replaced(Err(failure)) => Step::Done(Err(failure)),
                _ => Step::Continue(self),
            },
            Phase::Overwriting => match event {
                Event::Cloned(Ok(handle)) => Step::Done(Ok(handle)),
                Event::Cloned(Err(failure)) => match failure.category {
                    Category::Exists => Step::Continue(self.moved_to(Phase::Clearing)),
                    Category::Other => Step::Done(Err(failure)),
                },
                _ => Step::Continue(self),
            },
            Phase::Clearing => match event {
                Event::Removed(Ok(_)) => Step::Continue(self.moved_to(Phase::Retrying)),
                Event::Removed(Err(failure)) => Step::Done(Err(failure)),
                _ => Step::Continue(self),
            },
        }
    }
}

/// Starts the synchronization of `dest` with `src`.
///
/// With `force`, a destination that exists is replaced in the way that
/// `replacement` says; without it, such a destination is opened as it is. A
/// staging directory is a place of its own: it is not the destination.
pub fn clone(src: &str, dest: &str, force: bool, replacement: Replacement) -> (sync: Sync)
    requires
        replacement matches Replacement::Staged { staging } ==> staging@ != dest@,
    ensures
        sync@ == begun(src@, dest@, force, replacement@),
        sync@.wf(),
{
    Sync {
        source: String::from_str(src),
        destination: String::from_str(dest),
        force,
        replacement,
        phase: Phase::Probing,
    }
}

} // verus!
