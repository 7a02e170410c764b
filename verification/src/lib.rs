//! The decisions behind building OpenGL shaders and programs: which command
//! the driver is asked to run next, and what a build yields, given what the
//! driver answered.

pub mod info_log;
pub mod protocol;
pub mod shader;
pub mod program;
pub mod events;
pub mod setup;
