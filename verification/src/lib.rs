//! Frame-capture handoff pipeline: padded-row copy planning, latest-frame
//! transport between a producer and a consumer context, and the consumer-side
//! capture sequencer that strips row padding and decides when a frame is saved.

pub mod channel;
pub mod copier;
pub mod frame;
pub mod layout;
pub mod rendezvous;
pub mod scene_controller;
pub mod sequencer;
