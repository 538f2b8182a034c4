//! The polling loop of the standalone `LogEnricher`, as a state machine: the
//! caller performs each action (reading a channel, enriching and sending a log,
//! sleeping) and reports what happened; the machine decides what comes next.
use vstd::prelude::*;
use usiem::components::dataset::holder::DatasetHolder;
use usiem::components::dataset::SiemDataset;
use usiem::events::SiemLog;
use crate::datasets::{clone_holder, dataset_key, held_datasets, insert_dataset};
use crate::message::{EnricherError, Incoming, Polled};

verus! {

/// The channel from which a log being sent was read.
#[derive(PartialEq, Eq, Structural, Clone, Copy, Debug)]
pub enum Source {
    /// The local (control) channel.
    Messages,
    /// The log channel.
    Logs,
}

/// What the loop waits for.
#[derive(PartialEq, Eq, Structural, Clone, Copy, Debug)]
pub enum RunStage {
    /// The result of reading the local channel.
    AwaitMessage,
    /// The result of reading the log channel.
    AwaitLog,
    /// The result of sending a log read from the given channel.
    Sending(Source),
    /// The end of a pause.
    Sleeping,
    /// Nothing: the loop has ended for the given reason.
    Stopped(EnricherError),
}

/// What happened since the last action.
pub enum RunEvent {
    /// The local channel was read.
    Message(Polled<Incoming>),
    /// The log channel was read.
    Log(Polled<SiemLog>),
    /// The log was taken by the next component.
    Sent,
    /// The send failed and the channel gave the log back.
    Returned(SiemLog),
    /// The pause is over.
    Woke,
}

/// What the caller must do next.
pub enum RunAction {
    /// Read the local channel without blocking.
    PollMessage,
    /// Read the log channel without blocking.
    PollLog,
    /// Run every enricher, in order, over the log with the loop's datasets,
    /// then send it to the next component.
    Enrich(SiemLog),
    /// Send this (already enriched) log again.
    Resend(SiemLog),
    /// Pause before reading the local channel again.
    Sleep,
    /// Leave the loop, for the given reason.
    Exit(EnricherError),
}

/// The events that the loop can take in a stage.
pub open spec fn accepts(stage: RunStage, event: RunEvent) -> bool {
    match stage {
        RunStage::AwaitMessage => event is Message,
        RunStage::AwaitLog => event is Log,
        RunStage::Sending(_) => event is Sent || event is Returned,
        RunStage::Sleeping => event is Woke,
        RunStage::Stopped(_) => true,
    }
}

/// The next stage and action of the loop.
pub open spec fn run_next(stage: RunStage, event: RunEvent) -> (RunStage, RunAction)
    recommends
        accepts(stage, event),
{
    match stage {
        RunStage::Stopped(reason) => (RunStage::Stopped(reason), RunAction::Exit(reason)),
        RunStage::AwaitMessage => match event {
            RunEvent::Message(Polled::Disconnected) => (
                RunStage::Stopped(EnricherError::Disconnected),
                RunAction::Exit(EnricherError::Disconnected),
            ),
            RunEvent::Message(Polled::Received(Incoming::Stop)) => (
                RunStage::Stopped(EnricherError::StopRequested),
                RunAction::Exit(EnricherError::StopRequested),
            ),
            RunEvent::Message(Polled::Received(Incoming::Log(log))) => (
                RunStage::Sending(Source::Messages),
                RunAction::Enrich(log),
            ),
            _ => (RunStage::AwaitLog, RunAction::PollLog),
        },
        RunStage::AwaitLog => match event {
            RunEvent::Log(Polled::Disconnected) => (
                RunStage::Stopped(EnricherError::Disconnected),
                RunAction::Exit(EnricherError::Disconnected),
            ),
            RunEvent::Log(Polled::Received(log)) => (
                RunStage::Sending(Source::Logs),
                RunAction::Enrich(log),
            ),
            _ => (RunStage::Sleeping, RunAction::Sleep),
        },
        RunStage::Sending(source) => match event {
            RunEvent::Returned(log) => (RunStage::Sending(source), RunAction::Resend(log)),
            _ => match source {
                Source::Messages => (RunStage::AwaitLog, RunAction::PollLog),
                Source::Logs => (RunStage::AwaitMessage, RunAction::PollMessage),
            },
        },
        RunStage::Sleeping => (RunStage::AwaitMessage, RunAction::PollMessage),
    }
}

/// Whether an event stores a dataset.
pub open spec fn stores_dataset(event: RunEvent) -> bool {
    event matches RunEvent::Message(Polled::Received(Incoming::Dataset(_)))
}

/// The loop of a running `LogEnricher`: where it stands, and its own copy of
/// the datasets, which dataset messages update.
pub struct EnricherRun {
    stage: RunStage,
    datasets: DatasetHolder,
}

impl EnricherRun {
    /// Where the loop stands.
    pub closed spec fn stage_of(&self) -> RunStage {
        self.stage
    }

    /// The datasets of the loop's copy, by the key of their type.
    pub closed spec fn held(&self) -> Map<Seq<char>, SiemDataset> {
        held_datasets(self.datasets)
    }

    /// The loop's copy of the datasets.
    pub closed spec fn holder(&self) -> DatasetHolder {
        self.datasets
    }

    /// Starts a loop with a copy of the component's datasets; it first reads
    /// the local channel.
    pub fn start(datasets: &DatasetHolder) -> (started: (Self, RunAction))
        ensures
            started.0.stage_of() == RunStage::AwaitMessage,
            started.0.held() == held_datasets(*datasets),
            started.1 is PollMessage,
            action_fits(started.0.stage_of(), started.1),
    {
        (EnricherRun { stage: RunStage::AwaitMessage, datasets: clone_holder(datasets) }, RunAction::PollMessage)
    }

    /// Where the loop stands.
    pub fn stage(&self) -> (stage: RunStage)
        ensures
            stage == self.stage_of(),
    {
        self.stage
    }

    /// The datasets to hand to the enrichers.
    pub fn datasets(&self) -> (datasets: &DatasetHolder)
        ensures
            *datasets == self.holder(),
    {
        &self.datasets
    }

    /// Whether the loop can take this event now.
    pub fn accepts(&self, event: &RunEvent) -> (accepted: bool)
        ensures
            accepted == accepts(self.stage_of(), *event),
    {
        match self.stage {
            RunStage::AwaitMessage => matches!(event, RunEvent::Message(_)),
            RunStage::AwaitLog => matches!(event, RunEvent::Log(_)),
            RunStage::Sending(_) => matches!(event, RunEvent::Sent) || matches!(event, RunEvent::Returned(_)),
            RunStage::Sleeping => matches!(event, RunEvent::Woke),
            RunStage::Stopped(_) => true,
        }
    }

    /// Takes an event and gives the next action. A dataset read from the local
    /// channel is stored in the loop's copy under its own type, replacing the
    /// one held there; the component's own datasets are not touched.
    pub fn step(&mut self, event: RunEvent) -> (action: RunAction)
        requires
            accepts(old(self).stage_of(), event),
        ensures
            (final(self).stage_of(), action) == run_next(old(self).stage_of(), event),
            action_fits(final(self).stage_of(), action),
            event matches RunEvent::Message(Polled::Received(Incoming::Dataset(dataset))) ==> (old(
                self,
            ).stage_of() == RunStage::AwaitMessage ==> final(self).held() == old(self).held().insert(
                dataset_key(dataset),
                dataset,
            )),
            !(stores_dataset(event) && old(self).stage_of() == RunStage::AwaitMessage) ==> final(self).holder()
                == old(self).holder(),
    {
        match self.stage {
            RunStage::Stopped(reason) => RunAction::Exit(reason),
            RunStage::AwaitMessage => match event {
                RunEvent::Message(Polled::Disconnected) => {
                    self.stage = RunStage::Stopped(EnricherError::Disconnected);
                    RunAction::Exit(EnricherError::Disconnected)
                },
                RunEvent::Message(Polled::Received(Incoming::Stop)) => {
                    self.stage = RunStage::Stopped(EnricherError::StopRequested);
                    RunAction::Exit(EnricherError::StopRequested)
                },
                RunEvent::Message(Polled::Received(Incoming::Log(log))) => {
                    self.stage = RunStage::Sending(Source::Messages);
                    RunAction::Enrich(log)
                },
                RunEvent::Message(Polled::Received(Incoming::Dataset(dataset))) => {
                    let _key = insert_dataset(&mut self.datasets, dataset);
                    self.stage = RunStage::AwaitLog;
                    RunAction::PollLog
                },
                _ => {
                    self.stage = RunStage::AwaitLog;
                    RunAction::PollLog
                },
            },
            RunStage::AwaitLog => match event {
                RunEvent::Log(Polled::Disconnected) => {
                    self.stage = RunStage::Stopped(EnricherError::Disconnected);
                    RunAction::Exit(EnricherError::Disconnected)
                },
                RunEvent::Log(Polled::Received(log)) => {
                    self.stage = RunStage::Sending(Source::Logs);
                    RunAction::Enrich(log)
                },
                _ => {
                    self.stage = RunStage::Sleeping;
                    RunAction::Sleep
                },
            },
            RunStage::Sending(source) => match event {
                RunEvent::Returned(log) => RunAction::Resend(log),
                _ => match source {
                    Source::Messages => {
                        self.stage = RunStage::AwaitLog;
                        RunAction::PollLog
                    },
                    Source::Logs => {
                        self.stage = RunStage::AwaitMessage;
                        RunAction::PollMessage
                    },
                },
            },
            RunStage::Sleeping => {
                self.stage = RunStage::AwaitMessage;
                RunAction::PollMessage
            },
        }
    }
}

/// The loop ends only when it had already ended, when a channel is lost, or
/// when a stop command arrives; and each of these ends it.
pub proof fn lemma_exit_has_a_cause(stage: RunStage, event: RunEvent)
    requires
        accepts(stage, event),
    ensures
        run_next(stage, event).1 matches RunAction::Exit(reason) ==> {
            ||| stage == RunStage::Stopped(reason)
            ||| stage == RunStage::AwaitMessage && reason == EnricherError::Disconnected
                && event == RunEvent::Message(Polled::Disconnected)
            ||| stage == RunStage::AwaitMessage && reason == EnricherError::StopRequested
                && event == RunEvent::Message(Polled::Received(Incoming::Stop))
            ||| stage == RunStage::AwaitLog && reason == EnricherError::Disconnected && event
                == RunEvent::Log(Polled::Disconnected)
        },
        run_next(stage, event).1 is Exit <==> run_next(stage, event).0 is Stopped,
        stage == RunStage::AwaitMessage && event == RunEvent::Message(Polled::Received(Incoming::Stop))
            ==> run_next(stage, event).1 == RunAction::Exit(EnricherError::StopRequested),
        stage == RunStage::AwaitMessage && event == RunEvent::Message(Polled::Disconnected)
            ==> run_next(stage, event).1 == RunAction::Exit(EnricherError::Disconnected),
        stage == RunStage::AwaitLog && event == RunEvent::Log(Polled::Disconnected) ==> run_next(
            stage,
            event,
        ).1 == RunAction::Exit(EnricherError::Disconnected),
{
}

/// Once the loop has ended, it stays ended, whatever happens.
pub proof fn lemma_stopped_is_final(reason: EnricherError, event: RunEvent)
    ensures
        run_next(RunStage::Stopped(reason), event) == (RunStage::Stopped(reason), RunAction::Exit(reason)),
{
}

/// Every log read from either channel is enriched, and it is sent again, as it
/// came back, until the next component takes it; no channel is read meanwhile.
pub proof fn lemma_logs_are_sent_until_taken(log: SiemLog, source: Source, event: RunEvent)
    requires
        accepts(RunStage::Sending(source), event),
    ensures
        run_next(RunStage::AwaitMessage, RunEvent::Message(Polled::Received(Incoming::Log(log))))
            == (RunStage::Sending(Source::Messages), RunAction::Enrich(log)),
        run_next(RunStage::AwaitLog, RunEvent::Log(Polled::Received(log))) == (
            RunStage::Sending(Source::Logs),
            RunAction::Enrich(log),
        ),
        run_next(RunStage::Sending(source), RunEvent::Returned(log)) == (
            RunStage::Sending(source),
            RunAction::Resend(log),
        ),
        run_next(RunStage::Sending(source), event).1 is PollMessage || run_next(
            RunStage::Sending(source),
            event,
        ).1 is PollLog ==> event is Sent,
{
}

/// The two channels are read in turn: after the local channel the log channel
/// (once a log read from it is sent), and after the log channel the local one
/// (once a log is sent, or after a pause when nothing was waiting).
pub proof fn lemma_channels_are_read_in_turn(event: RunEvent)
    ensures
        accepts(RunStage::AwaitMessage, event) ==> {
            let next = run_next(RunStage::AwaitMessage, event).0;
            next is Stopped || next == RunStage::AwaitLog || next == RunStage::Sending(Source::Messages)
        },
        accepts(RunStage::AwaitLog, event) ==> {
            let next = run_next(RunStage::AwaitLog, event).0;
            next is Stopped || next == RunStage::Sleeping || next == RunStage::Sending(Source::Logs)
        },
        run_next(RunStage::Sending(Source::Messages), RunEvent::Sent) == (RunStage::AwaitLog, RunAction::PollLog),
        run_next(RunStage::Sending(Source::Logs), RunEvent::Sent) == (RunStage::AwaitMessage, RunAction::PollMessage),
        run_next(RunStage::AwaitLog, RunEvent::Log(Polled::Empty)) == (RunStage::Sleeping, RunAction::Sleep),
        run_next(RunStage::Sleeping, RunEvent::Woke) == (RunStage::AwaitMessage, RunAction::PollMessage),
{
}

/// The stage the loop reaches after taking these events in order.
pub open spec fn run_after(stage: RunStage, events: Seq<RunEvent>) -> RunStage
    decreases events.len(),
{
    if events.len() == 0 {
        stage
    } else {
        run_after(run_next(stage, events[0]).0, events.drop_first())
    }
}

/// An event that ends the loop: a lost channel or a stop command.
pub open spec fn ends_loop(event: RunEvent) -> bool {
    ||| event == RunEvent::Message(Polled::Disconnected)
    ||| event == RunEvent::Message(Polled::Received(Incoming::Stop))
    ||| event == RunEvent::Log(Polled::Disconnected)
}

/// However long it runs, a loop that has not ended ends only after a lost
/// channel or a stop command was among the events it took.
pub proof fn lemma_loop_ends_only_for_a_cause(stage: RunStage, events: Seq<RunEvent>)
    requires
        !(stage is Stopped),
    ensures
        run_after(stage, events) is Stopped ==> exists|i: int|
            0 <= i < events.len() && ends_loop(#[trigger] events[i]),
    decreases events.len(),
{
    if events.len() > 0 {
        let next = run_next(stage, events[0]).0;
        if next is Stopped {
            assert(ends_loop(events[0]));
        } else {
            lemma_loop_ends_only_for_a_cause(next, events.drop_first());
            if run_after(stage, events) is Stopped {
                let i = choose|i: int|
                    0 <= i < events.drop_first().len() && ends_loop(#[trigger] events.drop_first()[i]);
                assert(events[i + 1] == events.drop_first()[i]);
            }
        }
    }
}

/// The log that an event hands to the loop in a stage, if any.
pub open spec fn received_log(stage: RunStage, event: RunEvent) -> Option<SiemLog> {
    match (stage, event) {
        (RunStage::AwaitMessage, RunEvent::Message(Polled::Received(Incoming::Log(log)))) => Some(
            log,
        ),
        (RunStage::AwaitLog, RunEvent::Log(Polled::Received(log))) => Some(log),
        _ => None,
    }
}

/// The log that an action asks to enrich, if any.
pub open spec fn enriched_log(action: RunAction) -> Option<SiemLog> {
    match action {
        RunAction::Enrich(log) => Some(log),
        _ => None,
    }
}

/// The items of an optional value, as a sequence.
pub open spec fn items(log: Option<SiemLog>) -> Seq<SiemLog> {
    match log {
        Some(log) => seq![log],
        None => Seq::empty(),
    }
}

/// A whole run, event by event: the stage reached, the logs read from either
/// channel in order, the logs given to the enrichers in order, and how many
/// logs the next component took.
pub open spec fn run_trace(stage: RunStage, events: Seq<RunEvent>) -> (
    RunStage,
    Seq<SiemLog>,
    Seq<SiemLog>,
    nat,
)
    decreases events.len(),
{
    if events.len() == 0 {
        (stage, Seq::empty(), Seq::empty(), 0)
    } else {
        let before = run_trace(stage, events.drop_last());
        let event = events.last();
        let next = run_next(before.0, event);
        let taken: nat = if before.0 is Sending && event is Sent {
            1
        } else {
            0
        };
        (
            next.0,
            before.1 + items(received_log(before.0, event)),
            before.2 + items(enriched_log(next.1)),
            before.3 + taken,
        )
    }
}

/// Whether every event of a run is one the loop accepts where it stands.
pub open spec fn accepted_run(stage: RunStage, events: Seq<RunEvent>) -> bool
    decreases events.len(),
{
    events.len() == 0 || (accepted_run(stage, events.drop_last()) && accepts(
        run_trace(stage, events.drop_last()).0,
        events.last(),
    ))
}

/// Over a whole run, no log is dropped, duplicated or reordered: the logs given
/// to the enrichers are exactly the logs read, in the order read, and the next
/// component has taken all of them but the one being sent, if any.
pub proof fn lemma_run_keeps_every_log(stage: RunStage, events: Seq<RunEvent>)
    requires
        !(stage is Sending),
        accepted_run(stage, events),
    ensures
        run_trace(stage, events).2 == run_trace(stage, events).1,
        run_trace(stage, events).0 is Sending ==> run_trace(stage, events).3 + 1
            == run_trace(stage, events).2.len(),
        !(run_trace(stage, events).0 is Sending) ==> run_trace(stage, events).3
            == run_trace(stage, events).2.len(),
    decreases events.len(),
{
    if events.len() > 0 {
        lemma_run_keeps_every_log(stage, events.drop_last());
        let before = run_trace(stage, events.drop_last());
        let event = events.last();
        assert(items(received_log(before.0, event)) == items(enriched_log(run_next(before.0, event).1)));
    }
}

/// Whether an action asks for the event that a stage waits for: a read of the
/// local channel when waiting for a message, a read of the log channel when
/// waiting for a log, a send when waiting for its result, a pause when waiting
/// to wake, and leaving when the loop has ended for that reason.
pub open spec fn action_fits(stage: RunStage, action: RunAction) -> bool {
    match action {
        RunAction::PollMessage => stage == RunStage::AwaitMessage,
        RunAction::PollLog => stage == RunStage::AwaitLog,
        RunAction::Enrich(_) => stage is Sending,
        RunAction::Resend(_) => stage is Sending,
        RunAction::Sleep => stage == RunStage::Sleeping,
        RunAction::Exit(reason) => stage == RunStage::Stopped(reason),
    }
}

/// Whatever the loop is given, the action it answers with asks for exactly the
/// event its new stage accepts, so a caller that does what it is told always
/// hands the loop an event it takes.
pub proof fn lemma_actions_fit_stages(stage: RunStage, event: RunEvent)
    ensures
        action_fits(run_next(stage, event).0, run_next(stage, event).1),
        run_next(stage, event).1 is PollMessage ==> accepts(
            run_next(stage, event).0,
            RunEvent::Message(Polled::Empty),
        ),
        run_next(stage, event).1 is PollLog ==> accepts(run_next(stage, event).0, RunEvent::Log(Polled::Empty)),
        run_next(stage, event).1 is Sleep ==> accepts(run_next(stage, event).0, RunEvent::Woke),
        run_next(stage, event).1 is Enrich || run_next(stage, event).1 is Resend ==> accepts(
            run_next(stage, event).0,
            RunEvent::Sent,
        ),
{
}

/// A read of the local channel that brings neither a log, nor a stop command,
/// nor a lost channel (nothing waiting, another command, a dataset or any other
/// message) is passed over: the loop goes on to read the log channel.
pub proof fn lemma_other_messages_lead_to_the_log_channel(polled: Polled<Incoming>)
    ensures
        !(polled is Disconnected) && !(polled matches Polled::Received(Incoming::Log(_)))
            && polled != Polled::<Incoming>::Received(Incoming::Stop) ==> run_next(
            RunStage::AwaitMessage,
            RunEvent::Message(polled),
        ) == (RunStage::AwaitLog, RunAction::PollLog),
{
}

} // verus!
