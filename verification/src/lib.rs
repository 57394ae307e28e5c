//! Driver logic for running unit tests on a microcontroller through a debug
//! probe: image preparation, the shared status record, and the per-test
//! protocol, with verified contracts.

pub mod batch;
pub mod crc;
pub mod config;
pub mod connection;
pub mod discovery;
pub mod elf;
pub mod error;
pub mod image;
pub mod image_laws;
pub mod protocol;
pub mod report;
pub mod runner;
pub mod runner_laws;
pub mod text;
pub mod wire;
