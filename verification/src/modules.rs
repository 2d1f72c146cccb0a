//! The building blocks below the orchestrator.

pub mod codec;
pub mod cognition;
pub mod input;
pub mod io_controller;
pub mod macro_engine;
pub mod text;
