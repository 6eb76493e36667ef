//! A local system-information reporter library: immutable per-category
//! hardware records, a tiered rendering contract, source adapters over the
//! host's sampling interfaces, and an aggregator that tolerates per-category
//! failure.
pub mod args;
pub mod chars;
pub mod component;
pub mod cpu;
pub mod disk;
pub mod error;
pub mod gpu;
pub mod grabber;
pub mod memory;
pub mod numfmt;
pub mod nvidia_gpu;
pub mod nvidia_grabber;
pub mod os;
pub mod record;
pub mod sampling;
pub mod table;
