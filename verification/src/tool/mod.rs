//! The tools that the agent offers the model.

pub mod cmd;
pub mod fs;
