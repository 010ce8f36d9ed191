//! Status-display core of a split keyboard: a bounded observer queue beside the
//! key-event path, a layer tracker driven by key transitions, a status
//! aggregator that publishes into a single-slot channel, and a renderer that
//! turns the latest status into a text frame.

pub mod layers;
pub mod observer;
pub mod status;
pub mod render;
