//! Decision logic of a telemetry-instrumented process executor: which path a
//! command takes, which extra arguments it gets, which error codes its
//! diagnostic output carries, and how the invocation ends.

pub mod error_codes;
pub mod invocation;
pub mod text;
