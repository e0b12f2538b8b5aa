//! Image resolution and migration for container launches.
//!
//! Before a container is started from an environment definition, its image
//! has to be in the read-only store that the run context reads. This crate
//! holds the decisions of that preparation: the storage contexts of each
//! engine operation (`context`, `graphroot`), the pipeline that probes,
//! pulls, migrates and probes again (`pipeline`, with what it guarantees of
//! whole runs in `runs`), the launch itself (`launch`), and what the
//! commands report (`report`, `error`). The engine calls themselves are made
//! by the caller.

pub mod context;
pub mod error;
pub mod graphroot;
pub mod launch;
pub mod pipeline;
pub mod report;
pub mod runs;
pub mod text;
