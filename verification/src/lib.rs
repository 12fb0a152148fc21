//! Orchestration core for an external video-download tool.
//!
//! The library holds the verified logic of the front-end: mapping a quality
//! selection to a format selector, resolving a browser name to a credential
//! source, parsing the tool's line-oriented progress output, building the
//! argument vector for an invocation, and classifying the tool's exit into a
//! typed outcome. Everything that talks to the operating system (spawning the
//! tool, prompting, probing the file system) lives outside the library and
//! hands it plain values.

pub mod cli;
pub mod cookie_detector;
pub mod error;
pub mod interactive;
pub mod progress_parser;
pub mod quality;
pub mod text;
pub mod updater;
pub mod ytdlp_wrapper;
