//! Secure data pipeline for a field sensor device: per-record authenticated
//! encryption with an integrity hash, a FIFO queue of encrypted records, and
//! the batching state machine that groups them for durable output.

pub mod primitives;
pub mod cipher;
pub mod text;
pub mod record;
pub mod queue;
pub mod pipeline;
pub mod keystore;
