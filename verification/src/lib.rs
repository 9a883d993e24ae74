//! Ownership discipline and resource bookkeeping for a renderer that draws
//! off-screen in one GL context and presents through a second one.
//!
//! The crate holds no GL binding. It decides which commands are issued, in
//! which order and under which context, and keeps a model of the GPU objects
//! those commands touch. A driver executes the commands it is handed.

pub mod error;
pub mod ownership;
pub mod startup;
pub mod gpu;
pub mod plan;
pub mod renderer;
