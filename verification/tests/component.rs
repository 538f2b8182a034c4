use std::sync::Arc;

use u_siem_enricher::component::{forward_outcome, handle_log, EnricherState, Step};
use u_siem_enricher::message::{EnricherError, Incoming, Polled};
use usiem::components::dataset::holder::DatasetHolder;
use usiem::components::dataset::ip_map::{IpMapDataset, IpMapSynDataset};
use usiem::components::dataset::{SiemDataset, SiemDatasetType};
use usiem::components::enrichment::LogEnrichment;
use usiem::crossbeam_channel;
use usiem::events::field::SiemField;
use usiem::events::ip::SiemIp;
use usiem::events::SiemLog;
use usiem::utilities::types::LogString;

fn field_name<'a>(name: &'a str) -> &'a str {
    match name.rfind(".") {
        Some(pos) => &name[..pos],
        None => name,
    }
}

#[derive(Clone)]
struct MacEnricher {
    pub name: &'static str,
}

impl LogEnrichment for MacEnricher {
    fn enrich(&self, mut log: SiemLog, datasets: &DatasetHolder) -> SiemLog {
        let mut fields_to_add = vec![];
        let mac_dataset: &IpMapSynDataset = match datasets.get(&SiemDatasetType::IpMac) {
            Some(dst) => match dst.try_into() {
                Ok(v) => v,
                Err(_) => return log,
            },
            None => return log,
        };
        for (name, field) in log.fields() {
            if let SiemField::IP(ip) = field {
                if let Some(val) = mac_dataset.get(ip) {
                    fields_to_add.push((
                        format!("{}.mac", field_name(name)),
                        SiemField::Text(val.clone()),
                    ));
                }
            }
        }
        for (name, val) in fields_to_add {
            log.insert(LogString::Owned(name), val);
        }
        log
    }

    fn name(&self) -> &'static str {
        self.name
    }

    fn description(&self) -> &'static str {
        "Adds a Mac to each IP field"
    }
}

fn mac_dataset() -> SiemDataset {
    let mut dataset = IpMapDataset::new();
    dataset.insert(SiemIp::V4(100), "SuperData");
    let (comm, _) = crossbeam_channel::bounded(1);
    SiemDataset::IpMac(IpMapSynDataset::new(Arc::new(dataset), comm))
}

fn with_mac_dataset() -> EnricherState {
    let mut state = EnricherState::new();
    state.set_datasets(DatasetHolder::from_datasets(vec![mac_dataset()]));
    state
}

fn simple_log() -> SiemLog {
    let mut log = SiemLog::new("Simple message", 0, "Testing");
    log.add_field("source.ip", SiemField::IP(SiemIp::V4(100)));
    log
}

fn forwarded(step: Step) -> SiemLog {
    match step {
        Step::Forward(log) => log,
        Step::Done(_) => panic!("the log should be forwarded"),
    }
}

fn done(step: Step) -> Result<(), EnricherError> {
    match step {
        Step::Done(result) => result,
        Step::Forward(_) => panic!("nothing should be forwarded"),
    }
}

#[test]
fn component_enricher_adds_hostname_to_log() {
    let (s, receiver) = crossbeam_channel::bounded(10000);
    let (log_sender, log_receiver) = crossbeam_channel::bounded(10000);
    let enrichers: Vec<Box<dyn LogEnrichment>> = vec![Box::new(MacEnricher { name: "MacEnricher" })];
    let state = with_mac_dataset();

    log_sender.send(simple_log()).expect("Should be sent");
    let polled = match log_receiver.try_recv() {
        Ok(log) => Polled::Received(log),
        Err(_) => Polled::Empty,
    };
    let mut log = forwarded(handle_log(polled));
    for enricher in &enrichers {
        log = enricher.enrich(log, state.datasets());
    }
    let sent = s.send(log).is_ok();
    assert_eq!(forward_outcome(sent), Ok(()));

    let log = receiver.try_recv().expect("Should receive a message");
    assert!(log.has_field("source.mac"));
    assert_eq!(log.field("source.mac"), Some(&SiemField::from("SuperData")));
}

#[test]
fn dataset_message_is_stored() {
    let mut state = EnricherState::new();
    assert!(state.datasets().get(&SiemDatasetType::IpMac).is_none());
    let result = done(state.handle_message(Polled::Received(Incoming::Dataset(mac_dataset()))));
    assert_eq!(result, Ok(()));
    assert!(state.datasets().get(&SiemDatasetType::IpMac).is_some());
    assert!(state.datasets().get(&SiemDatasetType::GeoIp).is_none());
}

#[test]
fn stop_command_ends_the_component() {
    let mut state = EnricherState::new();
    let result = done(state.handle_message(Polled::Received(Incoming::Stop)));
    assert_eq!(result, Err(EnricherError::StopRequested));
}

#[test]
fn other_commands_and_messages_are_ignored() {
    let mut state = EnricherState::new();
    assert_eq!(done(state.handle_message(Polled::Received(Incoming::Command))), Ok(()));
    assert_eq!(done(state.handle_message(Polled::Received(Incoming::Other))), Ok(()));
    assert!(state.datasets().get(&SiemDatasetType::IpMac).is_none());
}

#[test]
fn empty_channels_are_fine() {
    let mut state = EnricherState::new();
    assert_eq!(done(state.handle_message(Polled::Empty)), Ok(()));
    assert_eq!(done(handle_log(Polled::Empty)), Ok(()));
}

#[test]
fn lost_channels_end_the_component() {
    let mut state = EnricherState::new();
    assert_eq!(
        done(state.handle_message(Polled::Disconnected)),
        Err(EnricherError::Disconnected)
    );
    assert_eq!(done(handle_log(Polled::Disconnected)), Err(EnricherError::Disconnected));
}

#[test]
fn log_message_is_forwarded_unchanged() {
    let mut state = EnricherState::new();
    let log = forwarded(state.handle_message(Polled::Received(Incoming::Log(simple_log()))));
    assert_eq!(log.field("source.ip"), Some(&SiemField::IP(SiemIp::V4(100))));
    assert!(!log.has_field("source.mac"));
}

#[test]
fn failed_forward_means_disconnected() {
    assert_eq!(forward_outcome(true), Ok(()));
    assert_eq!(forward_outcome(false), Err(EnricherError::Disconnected));
}

#[test]
fn duplicate_starts_without_datasets() {
    let state = with_mac_dataset();
    assert!(state.datasets().get(&SiemDatasetType::IpMac).is_some());
    let copy = state.duplicate();
    assert!(copy.datasets().get(&SiemDatasetType::IpMac).is_none());
}

#[test]
fn set_datasets_replaces_them() {
    let mut state = with_mac_dataset();
    state.set_datasets(DatasetHolder::new());
    assert!(state.datasets().get(&SiemDatasetType::IpMac).is_none());
}

#[test]
fn add_datasets_keeps_those_held() {
    let mut state = EnricherState::new();
    state.add_datasets(vec![mac_dataset()]);
    assert!(state.datasets().get(&SiemDatasetType::IpMac).is_some());
    state.add_datasets(vec![]);
    assert!(state.datasets().get(&SiemDatasetType::IpMac).is_some());
    assert!(state.datasets().get(&SiemDatasetType::GeoIp).is_none());
}

#[test]
fn dataset_message_replaces_the_held_version() {
    let mut state = with_mac_dataset();
    let mut newer = IpMapDataset::new();
    newer.insert(SiemIp::V4(100), "Newer");
    let (comm, _) = crossbeam_channel::bounded(1);
    let newer = SiemDataset::IpMac(IpMapSynDataset::new(Arc::new(newer), comm));
    assert_eq!(done(state.handle_message(Polled::Received(Incoming::Dataset(newer)))), Ok(()));
    let enricher = MacEnricher { name: "MacEnricher" };
    let log = enricher.enrich(simple_log(), state.datasets());
    assert_eq!(log.field("source.mac"), Some(&SiemField::from("Newer")));
}
