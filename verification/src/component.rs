//! Decisions of the enricher component: how each polled message or log is
//! answered, and which datasets it holds.
use vstd::prelude::*;
use usiem::components::dataset::holder::DatasetHolder;
use usiem::components::dataset::SiemDataset;
use usiem::events::SiemLog;
use crate::datasets::{
    dataset_key, empty_holder, held_datasets, insert_dataset, keys_of, last_of_its_type,
    lemma_added_datasets_are_held, no_datasets, with_added,
};
use crate::message::{EnricherError, Incoming, Polled};

verus! {

/// What the component does after reading one of its channels.
pub enum Step {
    /// The read is fully handled, with this result.
    Done(Result<(), EnricherError>),
    /// The log must run through every enricher and be sent to the next
    /// component; `forward_outcome` then gives the result.
    Forward(SiemLog),
}

/// The answer to a read of the local (control) channel.
pub open spec fn message_step(polled: Polled<Incoming>) -> Step {
    match polled {
        Polled::Empty => Step::Done(Ok(())),
        Polled::Disconnected => Step::Done(Err(EnricherError::Disconnected)),
        Polled::Received(message) => match message {
            Incoming::Stop => Step::Done(Err(EnricherError::StopRequested)),
            Incoming::Log(log) => Step::Forward(log),
            Incoming::Command => Step::Done(Ok(())),
            Incoming::Dataset(_) => Step::Done(Ok(())),
            Incoming::Other => Step::Done(Ok(())),
        },
    }
}

/// The answer to a read of the log channel.
pub open spec fn log_step(polled: Polled<SiemLog>) -> Step {
    match polled {
        Polled::Empty => Step::Done(Ok(())),
        Polled::Disconnected => Step::Done(Err(EnricherError::Disconnected)),
        Polled::Received(log) => Step::Forward(log),
    }
}

/// The result of a log once the next component was (or was not) reached.
pub open spec fn forward_result(sent: bool) -> Result<(), EnricherError> {
    if sent {
        Ok(())
    } else {
        Err(EnricherError::Disconnected)
    }
}

/// The state that the component's decisions read and change: the datasets
/// handed to the enrichers.
pub struct EnricherState {
    datasets: DatasetHolder,
}

impl View for EnricherState {
    type V = Map<Seq<char>, SiemDataset>;

    /// The datasets held, by the key of their type.
    closed spec fn view(&self) -> Map<Seq<char>, SiemDataset> {
        held_datasets(self.datasets)
    }
}

impl EnricherState {
    /// The holder itself, as the enrichers receive it.
    pub closed spec fn holder(&self) -> DatasetHolder {
        self.datasets
    }

    /// A state that holds no dataset.
    pub fn new() -> (state: Self)
        ensures
            state@ == no_datasets(),
    {
        EnricherState { datasets: empty_holder() }
    }

    /// Replaces the datasets by the given ones.
    pub fn set_datasets(&mut self, datasets: DatasetHolder)
        ensures
            final(self).holder() == datasets,
            final(self)@ == held_datasets(datasets),
    {
        self.datasets = datasets;
    }

    /// The datasets to hand to the enrichers.
    pub fn datasets(&self) -> (datasets: &DatasetHolder)
        ensures
            *datasets == self.holder(),
    {
        &self.datasets
    }

    /// The state of a duplicate of the component: it starts without datasets.
    pub fn duplicate(&self) -> (copy: Self)
        ensures
            copy@ == no_datasets(),
    {
        EnricherState::new()
    }

    /// Adds the datasets, in order, to those held; each is stored under its
    /// own type, a later one replacing an earlier one of the same type.
    pub fn add_datasets(&mut self, datasets: Vec<SiemDataset>)
        ensures
            final(self)@ == with_added(old(self)@, datasets@),
            final(self)@.dom() == old(self)@.dom().union(keys_of(datasets@)),
            forall|i: int|
                0 <= i < datasets@.len() && last_of_its_type(datasets@, i) ==> final(self)@[dataset_key(
                    #[trigger] datasets@[i],
                )] == datasets@[i],
            forall|key: Seq<char>|
                old(self)@.dom().contains(key) && !keys_of(datasets@).contains(key) ==> #[trigger] final(self)@[key]
                    == old(self)@[key],
    {
        let mut rest = datasets;
        let n: usize = rest.len();
        let ghost mut i: int = 0;
        while rest.len() > 0
            invariant
                0 <= i <= n,
                n == datasets@.len(),
                rest@ == datasets@.subrange(i, n as int),
                self@ == with_added(old(self)@, datasets@.take(i)),
            decreases rest@.len(),
        {
            let dataset = rest.remove(0);
            assert(dataset == datasets@[i]);
            let _key = insert_dataset(&mut self.datasets, dataset);
            proof {
                assert(datasets@.take(i + 1).drop_last() =~= datasets@.take(i));
                i = i + 1;
                assert(rest@ =~= datasets@.subrange(i, n as int));
            }
        }
        assert(datasets@.take(i) =~= datasets@);
        proof {
            lemma_added_datasets_are_held(old(self)@, datasets@);
        }
    }

    /// Answers a read of the local channel. A stop command ends the component,
    /// a lost channel too; a log goes on to be enriched and forwarded; a dataset
    /// is stored under its own type, replacing the one held there; anything
    /// else is ignored.
    pub fn handle_message(&mut self, polled: Polled<Incoming>) -> (step: Step)
        ensures
            step == message_step(polled),
            polled matches Polled::Received(Incoming::Dataset(dataset)) ==> final(self)@ == old(
                self,
            )@.insert(dataset_key(dataset), dataset),
            !(polled matches Polled::Received(Incoming::Dataset(_))) ==> final(self)@ == old(self)@,
            !(polled matches Polled::Received(Incoming::Dataset(_))) ==> final(self).holder()
                == old(self).holder(),
    {
        match polled {
            Polled::Empty => Step::Done(Ok(())),
            Polled::Disconnected => Step::Done(Err(EnricherError::Disconnected)),
            Polled::Received(message) => match message {
                Incoming::Stop => Step::Done(Err(EnricherError::StopRequested)),
                Incoming::Log(log) => Step::Forward(log),
                Incoming::Dataset(dataset) => {
                    let _key = insert_dataset(&mut self.datasets, dataset);
                    Step::Done(Ok(()))
                },
                Incoming::Command => Step::Done(Ok(())),
                Incoming::Other => Step::Done(Ok(())),
            },
        }
    }
}

/// Answers a read of the log channel: nothing waiting is fine, a lost channel
/// ends the component, a log goes on to be enriched and forwarded.
pub fn handle_log(polled: Polled<SiemLog>) -> (step: Step)
    ensures
        step == log_step(polled),
{
    match polled {
        Polled::Empty => Step::Done(Ok(())),
        Polled::Disconnected => Step::Done(Err(EnricherError::Disconnected)),
        Polled::Received(log) => Step::Forward(log),
    }
}

/// The result of handling a log: success once it reached the next component,
/// `Disconnected` when the next component is gone.
pub fn forward_outcome(sent: bool) -> (result: Result<(), EnricherError>)
    ensures
        result == forward_result(sent),
{
    if sent {
        Ok(())
    } else {
        Err(EnricherError::Disconnected)
    }
}

/// A log is treated alike whether it arrives in a message of the local channel
/// or on the log channel: it is forwarded, unchanged by the decision.
pub proof fn lemma_log_routes_agree(log: SiemLog)
    ensures
        message_step(Polled::Received(Incoming::Log(log))) == Step::Forward(log),
        log_step(Polled::Received(log)) == Step::Forward(log),
{
}

/// The component ends its work only for a lost channel or a stop command:
/// every failing read is one of these.
pub proof fn lemma_failures_have_a_cause(message: Polled<Incoming>, log: Polled<SiemLog>, sent: bool)
    ensures
        message_step(message) == Step::Done(Err(EnricherError::Disconnected)) <==> message
            is Disconnected,
        message_step(message) == Step::Done(Err(EnricherError::StopRequested)) <==> message
            == Polled::<Incoming>::Received(Incoming::Stop),
        log_step(log) matches Step::Done(Err(e)) ==> log is Disconnected && e
            == EnricherError::Disconnected,
        forward_result(sent) is Err <==> !sent,
{
}

/// Reading an empty channel changes nothing and succeeds, on either channel.
pub proof fn lemma_empty_reads_succeed()
    ensures
        message_step(Polled::Empty) == Step::Done(Ok(())),
        log_step(Polled::Empty) == Step::Done(Ok(())),
{
}

} // verus!
