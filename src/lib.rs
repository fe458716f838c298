//! A registry of built-in summary models and the chat templates that frame
//! prompts for them.

pub mod error;
pub mod paths;
pub mod prompt;
pub mod registry;
