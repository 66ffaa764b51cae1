//! Webhook-triggered benchmark tracking: signature checks on inbound push
//! events, the admission decisions of the webhook endpoint, extraction of
//! figures from benchmark reports, and the records and dataset entries built
//! from them.

pub mod dataset;
pub mod decimal;
pub mod error;
pub mod model;
pub mod runner;
pub mod signature;
pub mod text;
pub mod util;
pub mod webhook;

pub use dataset::{
    convert_into_relevant_data, extract_raw_histogram, extract_throughput, update_json, Data,
};
pub use error::Error;
pub use model::Benchmark;
pub use util::WholeReport;
