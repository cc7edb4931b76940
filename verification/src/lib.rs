//! Planning and sequencing for turning a video into a palette-optimised
//! animated image with an external video tool.
//!
//! The library decides everything that can be decided without touching the
//! outside world: how the answers typed at the prompts are read, which files
//! are derived from the input path, which arguments each of the three tool
//! invocations gets, and in which order invocations, clean-up and reports
//! follow each other. Running the tool and touching the file system is left
//! to the caller.

pub mod command;
pub mod filter;
pub mod number;
pub mod outcome;
pub mod paths;
pub mod request;
pub mod session;
pub mod text;
