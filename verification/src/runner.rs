//! The life cycle of one transfer, as a machine that its caller drives.
//!
//! The caller launches the transfer tool, reads its log and waits for it to end;
//! after each of these it tells the runner what happened, and the runner answers
//! with what to do to the registry, which event to hand to the observer, and
//! whether the transfer is over. The phase that the runner is in says what the
//! caller does next: launch, read a line, or wait for the process.

use crate::parser::{
    event_view, json_in, line_progress, parse_line, progress_of, statistics_of,
};
use crate::progress::{ProgressView, RcloneProgress, TransferStatus, PERCENT_FULL};
use crate::registry::{register_process, unregister_process, ProcessRegistry};
use crate::text::joined;
use vstd::prelude::*;
use vstd::string::*;

verus! {

/// Where a transfer stands in its life cycle.
#[derive(Debug, Clone, Copy, PartialEq, Eq, Structural)]
pub enum RunnerPhase {
    /// The tool is not launched yet.
    Ready,
    /// The tool runs and its log is being read, line by line.
    Streaming,
    /// The log has ended and the tool's exit is awaited.
    Waiting,
    /// The transfer is over; nothing that is reported now has any effect.
    Finished,
}

/// What the caller reports to the runner.
#[derive(Debug, Clone)]
pub enum RunnerEvent {
    /// The tool was launched as process `pid`; `log_open` says whether its log
    /// can be read.
    Spawned { pid: u32, log_open: bool },
    /// The tool could not be launched, for the reason given.
    SpawnFailed(String),
    /// The next line of the log.
    Line(String),
    /// The log could not be read on, for the reason given.
    ReadFailed(String),
    /// The log has ended.
    EndOfStream,
    /// The tool has exited, with success or without.
    Exited { success: bool },
    /// The tool's exit could not be awaited, for the reason given.
    WaitFailed(String),
}

/// What a [`RunnerEvent`] holds, as mathematical values.
pub ghost enum EventView {
    Spawned { pid: u32, log_open: bool },
    SpawnFailed(Seq<char>),
    Line(Seq<char>),
    ReadFailed(Seq<char>),
    EndOfStream,
    Exited { success: bool },
    WaitFailed(Seq<char>),
}

impl View for RunnerEvent {
    type V = EventView;

    open spec fn view(&self) -> EventView {
        match self {
            RunnerEvent::Spawned { pid, log_open } => EventView::Spawned {
                pid: *pid,
                log_open: *log_open,
            },
            RunnerEvent::SpawnFailed(detail) => EventView::SpawnFailed(detail@),
            RunnerEvent::Line(text) => EventView::Line(text@),
            RunnerEvent::ReadFailed(detail) => EventView::ReadFailed(detail@),
            RunnerEvent::EndOfStream => EventView::EndOfStream,
            RunnerEvent::Exited { success } => EventView::Exited { success: *success },
            RunnerEvent::WaitFailed(detail) => EventView::WaitFailed(detail@),
        }
    }
}

/// What a step asks the caller to do to the registry, under the transfer's
/// identifier.
#[derive(Debug, Clone, Copy, PartialEq, Eq, Structural)]
pub enum RegistryChange {
    /// Nothing.
    Keep,
    /// Register the process: from now on the transfer can be cancelled.
    Register(u32),
    /// Remove the entry: the transfer can no longer be cancelled.
    Unregister,
}

/// The runner's answer to one report. The caller acts on it in the order of its
/// fields: first the registry, then the observer, and only then, where the
/// transfer is over, the end with its outcome; so an observer has seen the last
/// event by the time the outcome is known.
#[derive(Debug, Clone)]
pub struct RunnerStep {
    /// What to do to the registry.
    pub registry: RegistryChange,
    /// The event to hand to the observer, if any.
    pub emit: Option<RcloneProgress>,
    /// Set by the step that ends the transfer: how it ended.
    pub outcome: Option<Result<(), String>>,
}

/// What a [`RunnerStep`] holds, as mathematical values.
pub ghost struct StepView {
    pub registry: RegistryChange,
    pub emit: Option<ProgressView>,
    pub outcome: Option<Result<(), Seq<char>>>,
}

impl View for RunnerStep {
    type V = StepView;

    open spec fn view(&self) -> StepView {
        StepView {
            registry: self.registry,
            emit: event_view(self.emit),
            outcome: match self.outcome {
                None => None,
                Some(Ok(())) => Some(Ok(())),
                Some(Err(message)) => Some(Err(message@)),
            },
        }
    }
}

/// One transfer: its identity, which every event echoes, and its phase.
#[derive(Debug, Clone)]
pub struct TransferRunner {
    id: String,
    op: String,
    source: String,
    destination: String,
    phase: RunnerPhase,
}

/// What a [`TransferRunner`] holds, as mathematical values.
pub ghost struct RunnerView {
    pub id: Seq<char>,
    pub op: Seq<char>,
    pub source: Seq<char>,
    pub destination: Seq<char>,
    pub phase: RunnerPhase,
}

impl View for TransferRunner {
    type V = RunnerView;

    closed spec fn view(&self) -> RunnerView {
        RunnerView {
            id: self.id@,
            op: self.op@,
            source: self.source@,
            destination: self.destination@,
            phase: self.phase,
        }
    }
}

/// The runner `state`, moved to `phase`.
pub open spec fn in_phase(state: RunnerView, phase: RunnerPhase) -> RunnerView {
    RunnerView { phase: phase, ..state }
}

/// A step that asks for `registry` and for nothing else.
pub open spec fn quiet(registry: RegistryChange) -> StepView {
    StepView { registry: registry, emit: None, outcome: None }
}

/// A step that ends the transfer with the error `message`, after `registry`.
pub open spec fn failed(registry: RegistryChange, message: Seq<char>) -> StepView {
    StepView { registry: registry, emit: None, outcome: Some(Err(message)) }
}

/// The event that closes a transfer's stream: `Complete` at 100 % after a
/// successful exit, `Error` at 0 % after any other, without rate or time left.
pub open spec fn closing_event(state: RunnerView, success: bool) -> ProgressView {
    ProgressView {
        id: state.id,
        op: state.op,
        source: state.source,
        destination: state.destination,
        percentage: if success {
            PERCENT_FULL as nat
        } else {
            0
        },
        speed: Seq::<char>::empty(),
        eta: Seq::<char>::empty(),
        status: if success {
            TransferStatus::Complete
        } else {
            TransferStatus::Error
        },
    }
}

/// How a transfer ends when its process has exited.
pub open spec fn exit_outcome(state: RunnerView, success: bool) -> Result<(), Seq<char>> {
    if success {
        Ok(())
    } else {
        Err("rclone "@ + state.op + " exited with non-zero status"@)
    }
}

/// The runner's rule: the state after `event` is reported in `state`, and the
/// answer to it.
///
/// - Launched with a readable log: the process is registered and the log is read.
///   Launched without one: the process is registered, so that it can still be
///   cancelled, and the transfer ends in an error.
/// - Not launched: the transfer ends in an error; nothing is registered or emitted.
/// - A line: the event that the line gives, if any, is emitted.
/// - The log fails: the entry is removed and the transfer ends in an error.
/// - The log ends: the entry is removed and the exit is awaited.
/// - The process exits: the closing event is emitted and the transfer ends, in an
///   error unless the exit was a success.
/// - The wait fails: the transfer ends in an error, without a closing event.
/// - A report that does not fit the phase changes nothing and is answered by
///   nothing.
pub open spec fn step_of(state: RunnerView, event: EventView) -> (RunnerView, StepView) {
    match (state.phase, event) {
        (RunnerPhase::Ready, EventView::Spawned { pid, log_open }) => if log_open {
            (in_phase(state, RunnerPhase::Streaming), quiet(RegistryChange::Register(pid)))
        } else {
            (
                in_phase(state, RunnerPhase::Finished),
                failed(RegistryChange::Register(pid), "Missing rclone stderr"@),
            )
        },
        (RunnerPhase::Ready, EventView::SpawnFailed(detail)) => (
            in_phase(state, RunnerPhase::Finished),
            failed(RegistryChange::Keep, "Failed to start rclone: "@ + detail),
        ),
        (RunnerPhase::Streaming, EventView::Line(text)) => (
            state,
            StepView {
                registry: RegistryChange::Keep,
                emit: line_progress(text, state.id, state.op, state.source, state.destination),
                outcome: None,
            },
        ),
        (RunnerPhase::Streaming, EventView::ReadFailed(detail)) => (
            in_phase(state, RunnerPhase::Finished),
            failed(RegistryChange::Unregister, "Failed to read rclone output: "@ + detail),
        ),
        (RunnerPhase::Streaming, EventView::EndOfStream) => (
            in_phase(state, RunnerPhase::Waiting),
            quiet(RegistryChange::Unregister),
        ),
        (RunnerPhase::Waiting, EventView::Exited { success }) => (
            in_phase(state, RunnerPhase::Finished),
            StepView {
                registry: RegistryChange::Keep,
                emit: Some(closing_event(state, success)),
                outcome: Some(exit_outcome(state, success)),
            },
        ),
        (RunnerPhase::Waiting, EventView::WaitFailed(detail)) => (
            in_phase(state, RunnerPhase::Finished),
            failed(RegistryChange::Keep, "Failed to wait for rclone: "@ + detail),
        ),
        _ => (state, quiet(RegistryChange::Keep)),
    }
}

/// The entries of a registry after `change` is made under `id`.
pub open spec fn registry_after(
    entries: Map<Seq<char>, u32>,
    id: Seq<char>,
    change: RegistryChange,
) -> Map<Seq<char>, u32> {
    match change {
        RegistryChange::Keep => entries,
        RegistryChange::Register(pid) => entries.insert(id, pid),
        RegistryChange::Unregister => entries.remove(id),
    }
}

/// Makes in `registry` the change that a step asks for, under the transfer `id`.
pub fn apply_registry_change(registry: &mut ProcessRegistry, id: &str, change: RegistryChange)
    ensures
        final(registry)@ == registry_after(old(registry)@, id@, change),
{
    match change {
        RegistryChange::Keep => {},
        RegistryChange::Register(pid) => register_process(registry, id, pid),
        RegistryChange::Unregister => unregister_process(registry, id),
    }
}

impl TransferRunner {
    /// The runner of the transfer `id`, which is to do `op` from `source` to
    /// `destination`, before the tool is launched.
    pub fn new(id: &str, op: &str, source: &str, destination: &str) -> (runner: TransferRunner)
        ensures
            runner@ == (RunnerView {
                id: id@,
                op: op@,
                source: source@,
                destination: destination@,
                phase: RunnerPhase::Ready,
            }),
    {
        TransferRunner {
            id: id.to_owned(),
            op: op.to_owned(),
            source: source.to_owned(),
            destination: destination.to_owned(),
            phase: RunnerPhase::Ready,
        }
    }

    /// The phase that the transfer is in.
    pub fn phase(&self) -> (phase: RunnerPhase)
        ensures
            phase == self@.phase,
    {
        self.phase
    }

    /// The transfer's identifier.
    pub fn id(&self) -> (id: &str)
        ensures
            id@ == self@.id,
    {
        self.id.as_str()
    }

    /// Whether the transfer is over.
    pub fn is_finished(&self) -> (finished: bool)
        ensures
            finished == (self@.phase == RunnerPhase::Finished),
    {
        match self.phase {
            RunnerPhase::Finished => true,
            _ => false,
        }
    }

    fn closing(&self, success: bool) -> (event: RcloneProgress)
        ensures
            event@ == closing_event(self@, success),
    {
        RcloneProgress {
            id: self.id.clone(),
            op: self.op.clone(),
            source: self.source.clone(),
            destination: self.destination.clone(),
            percentage: if success {
                PERCENT_FULL
            } else {
                0
            },
            speed: String::new(),
            eta: String::new(),
            status: if success {
                TransferStatus::Complete
            } else {
                TransferStatus::Error
            },
        }
    }

    fn exit_result(&self, success: bool) -> (outcome: Result<(), String>)
        ensures
            match outcome {
                Ok(()) => exit_outcome(self@, success) == Ok::<(), Seq<char>>(()),
                Err(message) => exit_outcome(self@, success) == Err::<(), Seq<char>>(message@),
            },
    {
        if success {
            Ok(())
        } else {
            let mut message = joined("rclone ", self.op.as_str());
            message.append(" exited with non-zero status");
            Err(message)
        }
    }

    /// Takes one report and answers it, as [`step_of`] says.
    pub fn step(&mut self, event: RunnerEvent) -> (answer: RunnerStep)
        ensures
            (final(self)@, answer@) == step_of(old(self)@, event@),
    {
        let keep = RunnerStep { registry: RegistryChange::Keep, emit: None, outcome: None };
        match self.phase {
            RunnerPhase::Ready => match event {
                RunnerEvent::Spawned { pid, log_open } => {
                    if log_open {
                        self.phase = RunnerPhase::Streaming;
                        RunnerStep {
                            registry: RegistryChange::Register(pid),
                            emit: None,
                            outcome: None,
                        }
                    } else {
                        self.phase = RunnerPhase::Finished;
                        RunnerStep {
                            registry: RegistryChange::Register(pid),
                            emit: None,
                            outcome: Some(Err("Missing rclone stderr".to_owned())),
                        }
                    }
                },
                RunnerEvent::SpawnFailed(detail) => {
                    self.phase = RunnerPhase::Finished;
                    RunnerStep {
                        registry: RegistryChange::Keep,
                        emit: None,
                        outcome: Some(Err(joined("Failed to start rclone: ", detail.as_str()))),
                    }
                },
                _ => keep,
            },
            RunnerPhase::Streaming => match event {
                RunnerEvent::Line(text) => {
                    let emit = parse_line(
                        text.as_str(),
                        self.id.as_str(),
                        self.op.as_str(),
                        self.source.as_str(),
                        self.destination.as_str(),
                    );
                    RunnerStep { registry: RegistryChange::Keep, emit, outcome: None }
                },
                RunnerEvent::ReadFailed(detail) => {
                    self.phase = RunnerPhase::Finished;
                    RunnerStep {
                        registry: RegistryChange::Unregister,
                        emit: None,
                        outcome: Some(
                            Err(joined("Failed to read rclone output: ", detail.as_str())),
                        ),
                    }
                },
                RunnerEvent::EndOfStream => {
                    self.phase = RunnerPhase::Waiting;
                    RunnerStep { registry: RegistryChange::Unregister, emit: None, outcome: None }
                },
                _ => keep,
            },
            RunnerPhase::Waiting => match event {
                RunnerEvent::Exited { success } => {
                    let emit = Some(self.closing(success));
                    let outcome = Some(self.exit_result(success));
                    self.phase = RunnerPhase::Finished;
                    RunnerStep { registry: RegistryChange::Keep, emit, outcome }
                },
                RunnerEvent::WaitFailed(detail) => {
                    self.phase = RunnerPhase::Finished;
                    RunnerStep {
                        registry: RegistryChange::Keep,
                        emit: None,
                        outcome: Some(Err(joined("Failed to wait for rclone: ", detail.as_str()))),
                    }
                },
                _ => keep,
            },
            RunnerPhase::Finished => keep,
        }
    }
}

/// The state of a runner that started in `start`, after the reports `events`.
pub open spec fn state_after(start: RunnerView, events: Seq<EventView>) -> RunnerView
    decreases events.len(),
{
    if events.len() == 0 {
        start
    } else {
        step_of(state_after(start, events.drop_last()), events.last()).0
    }
}

/// The answer to the last of the reports `events`.
pub open spec fn last_answer(start: RunnerView, events: Seq<EventView>) -> StepView
    recommends
        events.len() > 0,
{
    step_of(state_after(start, events.drop_last()), events.last()).1
}

/// The events that the runner hands to the observer over the reports `events`,
/// in the order in which it hands them over.
pub open spec fn emitted(start: RunnerView, events: Seq<EventView>) -> Seq<ProgressView>
    decreases events.len(),
{
    if events.len() == 0 {
        Seq::<ProgressView>::empty()
    } else {
        match last_answer(start, events).emit {
            Some(event) => emitted(start, events.drop_last()).push(event),
            None => emitted(start, events.drop_last()),
        }
    }
}

/// How the transfer ended, if one of the reports `events` ended it.
pub open spec fn outcome_after(start: RunnerView, events: Seq<EventView>) -> Option<
    Result<(), Seq<char>>,
>
    decreases events.len(),
{
    if events.len() == 0 {
        None
    } else {
        match outcome_after(start, events.drop_last()) {
            Some(outcome) => Some(outcome),
            None => last_answer(start, events).outcome,
        }
    }
}

/// The entries of a registry that held `entries` before the reports `events`,
/// when the caller has made every change that the runner asked for.
pub open spec fn registry_over(
    entries: Map<Seq<char>, u32>,
    start: RunnerView,
    events: Seq<EventView>,
) -> Map<Seq<char>, u32>
    decreases events.len(),
{
    if events.len() == 0 {
        entries
    } else {
        registry_after(
            registry_over(entries, start, events.drop_last()),
            start.id,
            last_answer(start, events).registry,
        )
    }
}

/// Whether, among the reports `events`, the exit of the process was reported
/// while the runner waited for it: the transfer ran to its end.
pub open spec fn exit_reported(start: RunnerView, events: Seq<EventView>) -> bool
    decreases events.len(),
{
    events.len() > 0 && (exit_reported(start, events.drop_last()) || (state_after(
        start,
        events.drop_last(),
    ).phase == RunnerPhase::Waiting && events.last() is Exited))
}

/// Whether the exit that was reported was a success.
pub open spec fn exit_succeeded(start: RunnerView, events: Seq<EventView>) -> bool
    decreases events.len(),
{
    events.len() > 0 && (exit_succeeded(start, events.drop_last()) || (state_after(
        start,
        events.drop_last(),
    ).phase == RunnerPhase::Waiting && events.last() == (EventView::Exited { success: true })))
}

/// A runner keeps its transfer's identity, whatever is reported to it.
pub proof fn lemma_identity_kept(start: RunnerView, events: Seq<EventView>)
    ensures
        state_after(start, events) == in_phase(start, state_after(start, events).phase),
    decreases events.len(),
{
    if events.len() > 0 {
        lemma_identity_kept(start, events.drop_last());
    }
}

/// Of the events of one transfer, whatever is reported and in whatever order:
/// every event echoes the transfer's identity; every event but the last is
/// `Running`; where the transfer ran to its end, there is a last event and it
/// is the one event with a status that closes the stream, `Complete` after a
/// successful exit and `Error` after any other; where it did not, every event
/// is `Running`.
pub proof fn lemma_one_closing_event_last(start: RunnerView, events: Seq<EventView>)
    ensures
        forall|i: int|
            0 <= i < emitted(start, events).len() ==> {
                let event = #[trigger] emitted(start, events)[i];
                &&& event.id == start.id
                &&& event.op == start.op
                &&& event.source == start.source
                &&& event.destination == start.destination
            },
        forall|i: int|
            0 <= i < emitted(start, events).len() - 1 ==> (#[trigger] emitted(
                start,
                events,
            )[i]).status == TransferStatus::Running,
        exit_reported(start, events) ==> {
            &&& emitted(start, events).len() >= 1
            &&& emitted(start, events).last() == closing_event(
                start,
                exit_succeeded(start, events),
            )
            &&& emitted(start, events).last().status.terminal()
            &&& state_after(start, events).phase == RunnerPhase::Finished
        },
        !exit_reported(start, events) ==> forall|i: int|
            0 <= i < emitted(start, events).len() ==> (#[trigger] emitted(
                start,
                events,
            )[i]).status == TransferStatus::Running,
        !exit_reported(start, events) ==> !exit_succeeded(start, events),
    decreases events.len(),
{
    if events.len() > 0 {
        let front = events.drop_last();
        lemma_one_closing_event_last(start, front);
        lemma_identity_kept(start, front);
        let before = state_after(start, front);
        let answer = last_answer(start, events);
        let earlier = emitted(start, front);
        let all = emitted(start, events);
        assert(before == in_phase(start, before.phase));
        if exit_reported(start, front) {
            assert(before.phase == RunnerPhase::Finished);
            assert(answer.emit is None);
            assert(all == earlier);
            assert(exit_succeeded(start, events) == exit_succeeded(start, front));
        } else {
            match answer.emit {
                Some(event) => {
                    assert(all == earlier.push(event));
                    assert forall|i: int| 0 <= i < all.len() - 1 implies (#[trigger] all[i]).status
                        == TransferStatus::Running by {
                        assert(all[i] == earlier[i]);
                    }
                    assert forall|i: int| 0 <= i < all.len() implies {
                        let e = #[trigger] all[i];
                        &&& e.id == start.id
                        &&& e.op == start.op
                        &&& e.source == start.source
                        &&& e.destination == start.destination
                    } by {
                        if i < earlier.len() {
                            assert(all[i] == earlier[i]);
                        }
                    }
                    if !exit_reported(start, events) {
                        assert(event.status == TransferStatus::Running);
                        assert forall|i: int| 0 <= i < all.len() implies (#[trigger] all[i]).status
                            == TransferStatus::Running by {
                            if i < earlier.len() {
                                assert(all[i] == earlier[i]);
                            }
                        }
                    }
                },
                None => {
                    assert(all == earlier);
                },
            }
        }
    }
}

/// While the log is read, a line that is not JSON gives no event, a line that is
/// JSON without a `stats` object gives none either, and a line with one gives
/// one event: of three such lines in this order, the one event that is handed
/// over is that of the third.
pub proof fn lemma_only_statistics_lines_emit(
    state: RunnerView,
    first: Seq<char>,
    second: Seq<char>,
    third: Seq<char>,
)
    requires
        state.phase == RunnerPhase::Streaming,
        json_in(first) is None,
        json_in(second) matches Some(json) && statistics_of(json) is None,
        json_in(third) matches Some(json) && statistics_of(json) is Some,
    ensures
        emitted(
            state,
            seq![EventView::Line(first), EventView::Line(second), EventView::Line(third)],
        ) == seq![
            progress_of(
                json_in(third).unwrap(),
                state.id,
                state.op,
                state.source,
                state.destination,
            ).unwrap(),
        ],
        state_after(
            state,
            seq![EventView::Line(first), EventView::Line(second), EventView::Line(third)],
        ) == state,
{
    let three = seq![EventView::Line(first), EventView::Line(second), EventView::Line(third)];
    let two = seq![EventView::Line(first), EventView::Line(second)];
    let one = seq![EventView::Line(first)];
    let none = Seq::<EventView>::empty();
    assert(three.drop_last() =~= two);
    assert(two.drop_last() =~= one);
    assert(one.drop_last() =~= none);
    assert(state_after(state, none) == state);
    assert(state_after(state, one) == state);
    assert(state_after(state, two) == state);
    assert(emitted(state, none) =~= Seq::<ProgressView>::empty());
    assert(emitted(state, one) =~= Seq::<ProgressView>::empty());
    assert(emitted(state, two) =~= Seq::<ProgressView>::empty());
    assert(emitted(state, three) =~= seq![
        progress_of(
            json_in(third).unwrap(),
            state.id,
            state.op,
            state.source,
            state.destination,
        ).unwrap(),
    ]);
}

/// A transfer that ran to its end ends well exactly where the exit was a
/// success, and then its last event is `Complete` at 100 %; after any other exit
/// its last event is `Error` at 0 % and it ends in an error, which the observer
/// has then already been told.
pub proof fn lemma_outcome_matches_closing_event(start: RunnerView, events: Seq<EventView>)
    requires
        start.phase == RunnerPhase::Ready,
        exit_reported(start, events),
    ensures
        outcome_after(start, events) == Some(exit_outcome(start, exit_succeeded(start, events))),
        exit_succeeded(start, events) <==> outcome_after(start, events) == Some(
            Ok::<(), Seq<char>>(()),
        ),
        exit_succeeded(start, events) <==> emitted(start, events).last().status
            == TransferStatus::Complete,
        emitted(start, events).last().percentage == (if exit_succeeded(start, events) {
            PERCENT_FULL as nat
        } else {
            0
        }),
{
    lemma_one_closing_event_last(start, events);
    lemma_outcome_until_finished(start, events);
}

/// A runner that starts before the launch has an outcome exactly when it is in
/// its last phase; and where the exit was reported, the outcome is that of the
/// exit.
pub proof fn lemma_outcome_until_finished(start: RunnerView, events: Seq<EventView>)
    requires
        start.phase == RunnerPhase::Ready,
    ensures
        outcome_after(start, events) is Some <==> state_after(start, events).phase
            == RunnerPhase::Finished,
        exit_reported(start, events) ==> outcome_after(start, events) == Some(
            exit_outcome(start, exit_succeeded(start, events)),
        ),
    decreases events.len(),
{
    if events.len() > 0 {
        let front = events.drop_last();
        lemma_outcome_until_finished(start, front);
        lemma_identity_kept(start, front);
        lemma_one_closing_event_last(start, front);
        let before = state_after(start, front);
        assert(before == in_phase(start, before.phase));
    }
}

/// What the registry holds of a transfer, when the caller makes the changes that
/// the runner asks for: while the log is read, the process that was launched;
/// once the log has ended, and after the transfer ran to its end, nothing. The
/// entries of other transfers are never touched.
pub proof fn lemma_registry_follows_phase(
    entries: Map<Seq<char>, u32>,
    start: RunnerView,
    events: Seq<EventView>,
    other: Seq<char>,
)
    requires
        start.phase == RunnerPhase::Ready,
        other != start.id,
    ensures
        state_after(start, events).phase == RunnerPhase::Streaming ==> registry_over(
            entries,
            start,
            events,
        ).contains_key(start.id),
        state_after(start, events).phase == RunnerPhase::Waiting ==> !registry_over(
            entries,
            start,
            events,
        ).contains_key(start.id),
        exit_reported(start, events) ==> !registry_over(entries, start, events).contains_key(
            start.id,
        ),
        state_after(start, events).phase == RunnerPhase::Ready ==> registry_over(
            entries,
            start,
            events,
        ) == entries,
        registry_over(entries, start, events).contains_key(other) == entries.contains_key(other),
        entries.contains_key(other) ==> registry_over(entries, start, events)[other]
            == entries[other],
    decreases events.len(),
{
    if events.len() > 0 {
        let front = events.drop_last();
        lemma_registry_follows_phase(entries, start, front, other);
        lemma_identity_kept(start, front);
        lemma_one_closing_event_last(start, front);
        let before = state_after(start, front);
        assert(before == in_phase(start, before.phase));
    }
}

} // verus!
