//! Core of a serverless peer-to-peer connection setup: a copy-paste-safe
//! codec for connection descriptors, a network-path discovery completion
//! detector, the per-role negotiation state machine, and the data-channel
//! lifecycle. I/O, page rendering and the transport itself live outside;
//! this crate decides, and reports what the outside must do.

pub mod channel;
pub mod codec;
pub mod descriptor;
pub mod gatherer;
pub mod orchestrator;
