//! Verified core of a solar-inverter telemetry collector.
//!
//! The library covers the register catalog of the device, the decoding of raw
//! register words into typed values, the coalescing of sparse register reads
//! into a single covering span, the bounded retry policy around transport
//! failures, and the epoch-aligned scheduling of measurement groups. All
//! wire and database I/O lives outside the library and hands it plain values.

pub mod batch;
pub mod registers;
pub mod retry;
pub mod schedule;

