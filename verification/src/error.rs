//! The error taxonomy of the front-end.

use vstd::prelude::*;

verus! {

/// Everything that can go wrong while orchestrating the external tool.
#[derive(Debug, Clone)]
pub enum YtdlError {
    /// The external tool is not installed or not on the search path.
    YtdlpNotFound,
    /// No URL was supplied before the command was built.
    MissingUrl,
    /// A credential source could not be resolved or probed.
    CookieDetection(String),
    /// The external tool ran and failed; the payload explains why.
    DownloadFailed(String),
    /// The external tool could not be spawned or waited on.
    ProcessError(String),
    /// A progress line carried the download marker but no readable percent.
    ProgressParseError(String),
    /// An input/output error reported by the surrounding program.
    IoError(String),
    /// Any other failure.
    Other(String),
}

} // verus!
