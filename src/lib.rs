//! Validation and execution of the channel-open-try handshake step.
//!
//! An inbound message passes three phases in order: a stateless check of its
//! own fields, a stateful check against the store and the application that
//! owns its port, and an execution that records the state changes to apply.
//! The first phase that fails ends the pipeline.
pub mod error;
pub mod handler;
pub mod laws;
pub mod message;
pub mod router;
