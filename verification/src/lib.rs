//! Telemetry fan-out over named shared-memory channels: the envelope and its
//! wire frame, the publisher and subscriber handles, the sequence tracker, the
//! publisher lifecycle and the orchestrator's polling state machine.

pub mod channel;
pub mod clock;
pub mod envelope;
pub mod lifecycle;
pub mod orchestrator;
pub mod publisher;
pub mod subscriber;
pub mod text;
pub mod tracker;
pub mod transport;
pub mod wire;
