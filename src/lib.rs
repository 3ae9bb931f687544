//! A bridge that hands remote commands from a network listener to a
//! single-threaded, tick-driven viewer loop, and the scene state that those
//! commands drive.
pub mod net;
pub mod queue;
pub mod scene;
pub mod task;
