//! Worker invocation and result aggregation for a desktop shell that
//! delegates data fetching and numeric work to bundled sidecar executables.
//!
//! A call resolves a named worker and builds its argument vector
//! ([`launch`]), consumes the process's interleaved stdout/stderr event
//! stream into a pair of byte buffers ([`event`]), and decodes the finished
//! stdout buffer against one of a fixed set of result shapes ([`decode`],
//! [`results`]), reporting each failure with the stage it arose in
//! ([`errors`], [`task`]). The process itself is started and drained by the
//! caller; everything the library decides is specified and verified.

pub mod decode;
pub mod errors;
pub mod event;
pub mod jmodel;
pub mod jsonio;
pub mod launch;
pub mod numfmt;
pub mod results;
pub mod task;
