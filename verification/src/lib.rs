//! Request-parameter resolution and execution planning for a small
//! command-line HTTP(S) client.
//!
//! Raw command-line values are resolved into a validated request
//! descriptor (method, address, output sink), and a single request is
//! driven through a small state machine whose transitions decide what the
//! caller has to do next and how the invocation ends.

pub mod text;
pub mod error;
pub mod method;
pub mod verbosity;
pub mod address;
pub mod sink;
pub mod params;
pub mod executor;
pub mod cli;
