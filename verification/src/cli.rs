//! The download configuration record and its validation.

use vstd::prelude::*;

use crate::quality::QualityPreset;
use crate::text::push_decimal;

verus! {

/// A download configuration, built once from the caller's input and then
/// read-only. Paths are held as plain strings.
#[derive(Debug, Clone)]
pub struct Cli {
    /// The target URL; required before a command can be built.
    pub url: Option<String>,
    /// Skip interactive prompting.
    pub non_interactive: bool,
    /// Quality preset.
    pub quality: QualityPreset,
    /// Output directory; the surrounding program supplies a default.
    pub output_dir: Option<String>,
    /// Browser whose cookies the external tool should use.
    pub cookie_browser: Option<String>,
    /// Never use browser cookies.
    pub no_cookies: bool,
    /// Download a whole playlist rather than a single item.
    pub playlist: bool,
    /// One-based first playlist position to download.
    pub playlist_start: Option<usize>,
    /// One-based last playlist position to download.
    pub playlist_end: Option<usize>,
    /// Also fetch subtitles.
    pub download_subtitle: bool,
    /// Also save metadata, description and thumbnail.
    pub save_metadata: bool,
    /// Rate limit, passed through verbatim.
    pub rate_limit: Option<String>,
    /// Number of retries the external tool should attempt.
    pub retry_count: usize,
    /// Verbose logging in the surrounding program.
    pub verbose: bool,
    /// Output filename template; a fixed default is used when absent.
    pub output_template: Option<String>,
    /// Archive file recording finished items, to skip duplicates.
    pub download_archive: Option<String>,
    /// Disable the archive file.
    pub no_archive: bool,
}

/// Playlist bounds are sound: when both are given, each is positive and
/// the start does not exceed the end.
pub open spec fn spec_playlist_bounds_ok(start: Option<usize>, end: Option<usize>) -> bool {
    match (start, end) {
        (Some(s), Some(e)) => 0 < s <= e && 0 < e,
        _ => true,
    }
}

impl Cli {
    /// Checks the configuration before any invocation: it is accepted
    /// exactly when the playlist bounds are sound.
    pub fn validate(&self) -> (r: Result<(), String>)
        ensures
            r is Ok <==> spec_playlist_bounds_ok(self.playlist_start, self.playlist_end),
    {
        if let (Some(start), Some(end)) = (self.playlist_start, self.playlist_end) {
            if start > end {
                let mut msg = String::from_str("playlist start position ");
                push_decimal(&mut msg, start as u64);
                msg.append(" is greater than end position ");
                push_decimal(&mut msg, end as u64);
                return Err(msg);
            }
            if start == 0 || end == 0 {
                return Err(String::from_str("playlist positions start at 1"));
            }
        }
        Ok(())
    }
}

} // verus!