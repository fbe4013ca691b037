//! Validation of a hardware CRC peripheral against a portable software
//! reference implementation.
//!
//! The library holds the configuration and data model, the bit-reflection
//! utilities that reconcile hardware and software bit conventions, the
//! software CRC engine, and the exhaustive validation matrix that drives a
//! comparison of both engines case by case. Driving the peripheral's
//! registers, and the serial report transport, live outside the library.

pub mod engine;
pub mod matrix;
pub mod model;
pub mod reflect;
