//! GPU resource management for a small always-on-top overlay renderer.
//!
//! The graphics driver is reached only by the program that embeds this
//! library. Every operation here takes the explicit [`context::Context`],
//! queues the driver calls it stands for, and updates the context's account
//! of the state those calls establish. The embedding program drains the
//! queue, makes the calls, and hands the driver's answers back.

pub mod command;
pub mod state;
pub mod context;
pub mod buffer;
pub mod hint;
pub mod shader;
pub mod texture;
pub mod window;
