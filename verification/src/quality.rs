//! Quality presets and the format selectors they stand for.

use vstd::prelude::*;

verus! {

/// A download quality preset chosen by the user.
#[derive(Debug, Clone, Copy, PartialEq, Eq)]
pub enum QualityPreset {
    /// Best available video paired with best available audio.
    MaxVideo,
    /// Best available audio only, extracted to an audio file.
    MaxAudio,
    /// Worst available video paired with worst available audio.
    MinVideo,
    /// Smallest file: worst stream restricted to mp4.
    MinSize,
}

/// The format selector handed to the external tool for a preset.
pub open spec fn spec_format_selector(q: QualityPreset) -> Seq<char> {
    match q {
        QualityPreset::MaxVideo => "bestvideo+bestaudio/best"@,
        QualityPreset::MaxAudio => "bestaudio"@,
        QualityPreset::MinVideo => "worstvideo+worstaudio/worst"@,
        QualityPreset::MinSize => "worst[ext=mp4]"@,
    }
}

impl QualityPreset {
    /// The external tool's format-selector string for this preset.
    pub fn to_ytdlp_format(&self) -> (r: String)
        ensures
            r@ == spec_format_selector(*self),
    {
        match self {
            QualityPreset::MaxVideo => String::from_str("bestvideo+bestaudio/best"),
            QualityPreset::MaxAudio => String::from_str("bestaudio"),
            QualityPreset::MinVideo => String::from_str("worstvideo+worstaudio/worst"),
            QualityPreset::MinSize => String::from_str("worst[ext=mp4]"),
        }
    }

    /// Whether the preset asks for audio to be extracted after download.
    pub fn needs_audio_extraction(&self) -> (r: bool)
        ensures
            r == (*self is MaxAudio),
    {
        matches!(self, QualityPreset::MaxAudio)
    }

    /// A short human-readable description of the preset.
    pub fn description(&self) -> (r: &str)
        ensures
            *self is MaxVideo ==> r@ == "best video quality (up to 4K)"@,
            *self is MaxAudio ==> r@ == "best audio quality (audio only)"@,
            *self is MinVideo ==> r@ == "lowest video quality (preview)"@,
            *self is MinSize ==> r@ == "smallest file size"@,
    {
        match self {
            QualityPreset::MaxVideo => "best video quality (up to 4K)",
            QualityPreset::MaxAudio => "best audio quality (audio only)",
            QualityPreset::MinVideo => "lowest video quality (preview)",
            QualityPreset::MinSize => "smallest file size",
        }
    }
}

} // verus!
