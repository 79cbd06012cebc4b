//! Supervision core for long-running tunnel subprocesses.
//!
//! The library drives an external `cloudflared` binary that exposes a local
//! port through an edge relay. It owns the decision logic of that job: how
//! the process is invoked, how its unstructured log output is classified
//! into a connection-status timeline, how failures feed a fixed-delay retry
//! loop, and how explicit cancellation ends a tunnel. All I/O (spawning,
//! reading lines, waiting, sleeping) is performed by a thin driver outside
//! this crate; the driver feeds observed events into the verified state
//! machine and carries out the actions it returns.

pub mod event;
pub mod text;
pub mod classify;
pub mod launcher;
pub mod supervisor;
pub mod registry;
pub mod records;
