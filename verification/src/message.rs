//! What the enricher reads from its channels.
use vstd::prelude::*;
use usiem::components::dataset::SiemDataset;
use usiem::events::SiemLog;

verus! {

/// A log travelling through the SIEM pipeline; the enricher only carries it.
#[verifier::external_type_specification]
#[verifier::external_body]
pub struct ExSiemLog(SiemLog);

/// The latest state of a dataset, as sent by the dataset manager.
#[verifier::external_type_specification]
#[verifier::external_body]
pub struct ExSiemDataset(SiemDataset);

/// The outcome of a non-blocking read of a channel.
pub enum Polled<T> {
    /// Nothing was waiting in the channel.
    Empty,
    /// Every sender of the channel is gone.
    Disconnected,
    /// One item was taken from the channel.
    Received(T),
}

/// What the enricher distinguishes in a message of its local channel.
pub enum Incoming {
    /// A command asking the component to stop.
    Stop,
    /// Any other command.
    Command,
    /// A log to enrich and forward.
    Log(SiemLog),
    /// A new version of a dataset.
    Dataset(SiemDataset),
    /// Any other kind of message, which the enricher ignores.
    Other,
}

/// Why the enricher ends its work.
#[derive(PartialEq, Eq, Structural, Clone, Copy, Debug)]
pub enum EnricherError {
    /// A channel that the enricher reads or writes has lost its other end.
    Disconnected,
    /// A stop command was received.
    StopRequested,
}

} // verus!
