//! A small, verified inference-benchmarking library: it builds a fixed-topology
//! multilayer perceptron deterministically from a configuration and a seed,
//! runs forward passes over a tensor backend, and aggregates per-iteration
//! latencies into a report.

pub mod arena;
pub mod bench;
pub mod model;
pub mod config;
pub mod forward;
pub mod lines;
pub mod tensor;
