//! Orchestration core of a small desktop video-to-MP3 converter.
//!
//! The user interface and the external transcoder subprocess live outside
//! this crate; here are the pieces worth getting right: the status state
//! machine that the render loop observes, the mapping from subprocess
//! outcomes to terminal statuses, the output-path and thumbnail-path naming
//! rules, and the exact argument lists handed to the transcoder.

pub mod command;
pub mod laws;
pub mod paths;
pub mod state;
pub mod status;
