//! The control core of a two-loop real-time simulation: a fixed-tick
//! simulation loop and an independently paced render loop, joined by event
//! queues and a latest-wins hand-off.

pub mod event;
pub mod handoff;
pub mod input;
pub mod queue;
pub mod render;
pub mod scene;
pub mod simulation;
pub mod timing;
