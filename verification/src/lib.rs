//! Host telemetry: snapshot assembly, process ranking, network rate
//! sampling and the bookkeeping around the background server and push tasks.

pub mod battery;
pub mod config;
pub mod dashboard;
pub mod decimal;
pub mod media;
pub mod network;
pub mod platform;
pub mod process;
pub mod push;
pub mod remote_push;
pub mod report;
pub mod settings;
pub mod snapshot;
pub mod state;
pub mod tasks;
