//! Verified core of a log-enriching component for the µSIEM framework.
//!
//! The enricher receives logs and control messages over channels, runs the
//! configured enrichers over each log and forwards the result. This crate holds
//! the decisions of that component: how every polled message or log is
//! answered, which datasets are held, the labels of the enrichment metric and
//! the capabilities that the component advertises.
pub mod capabilities;
pub mod component;
pub mod datasets;
pub mod message;
pub mod metrics;
pub mod pipeline;
