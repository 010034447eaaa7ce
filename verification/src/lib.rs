//! A startup supervisor for a local backend server process.
//!
//! On application startup the supervisor must ensure that a backend server is
//! reachable on a known loopback TCP port: either an already-running instance
//! is detected, or a server entry file is located among an ordered list of
//! candidate filesystem locations and spawned with a resolved runtime.
//!
//! All decisions are made by a verified state machine ([`supervisor`]): the
//! machine consumes plain observation events (a port probe result, a file
//! existence result, a spawn result) and emits the next action to perform.
//! The caller performs the actual network, filesystem and process work and
//! feeds the results back, so every branch of the startup policy is verified
//! while the side effects stay outside the library.

pub mod config;
pub mod discovery;
pub mod laws;
pub mod outcome;
pub mod supervisor;
