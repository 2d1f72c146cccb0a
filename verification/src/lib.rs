//! Recording and replay of mouse and keyboard activity: the event vocabulary,
//! its stable stored form, macros with relative timing, and the state machine
//! that decides when recording, listening and executing are legal.

pub mod modules;
pub mod orchestrator;
