//! UBench: an honest USB flash drive benchmark.
//!
//! The verified core of the benchmark: the standard test profiles, the
//! scoring rules, the deterministic offset generator, the signed-report
//! checksum, device classification and the report renderers.

pub mod text;
pub mod profile;
pub mod score;
pub mod prng;
pub mod buffer;
pub mod runner;
pub mod report;
pub mod device_info;
pub mod cli;
pub mod page;
pub mod html;
pub mod summary;
