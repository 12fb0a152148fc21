use ytdl::quality::QualityPreset;

#[test]
fn test_format_strings() {
    assert_eq!(
        QualityPreset::MaxVideo.to_ytdlp_format(),
        "bestvideo+bestaudio/best"
    );
    assert_eq!(QualityPreset::MaxAudio.to_ytdlp_format(), "bestaudio");
    assert_eq!(
        QualityPreset::MinVideo.to_ytdlp_format(),
        "worstvideo+worstaudio/worst"
    );
    assert_eq!(QualityPreset::MinSize.to_ytdlp_format(), "worst[ext=mp4]");
}

#[test]
fn test_audio_extraction_flag() {
    assert!(!QualityPreset::MaxVideo.needs_audio_extraction());
    assert!(QualityPreset::MaxAudio.needs_audio_extraction());
    assert!(!QualityPreset::MinVideo.needs_audio_extraction());
    assert!(!QualityPreset::MinSize.needs_audio_extraction());
}
