use ytdl::cli::Cli;
use ytdl::error::YtdlError;
use ytdl::interactive::InteractiveMode;
use ytdl::quality::QualityPreset;
use ytdl::updater::{UpdateMechanism, Updater};
use ytdl::ytdlp_wrapper::{
    classify_outcome, progress_message, FailureReason, PipelineState, ProcessOutcome,
    YtdlpWrapper,
};

fn base_cli() -> Cli {
    Cli {
        url: Some(String::from("https://example.com/v")),
        non_interactive: true,
        quality: QualityPreset::MaxVideo,
        output_dir: Some(String::from("/tmp/out")),
        cookie_browser: None,
        no_cookies: true,
        playlist: false,
        playlist_start: None,
        playlist_end: None,
        download_subtitle: false,
        save_metadata: false,
        rate_limit: None,
        retry_count: 3,
        verbose: false,
        output_template: None,
        download_archive: None,
        no_archive: true,
    }
}

#[test]
fn invalid_playlist_bounds_fail_validation() {
    let mut cli = base_cli();
    cli.playlist = true;
    cli.playlist_start = Some(5);
    cli.playlist_end = Some(2);
    assert!(cli.validate().is_err());

    cli.playlist_start = Some(0);
    cli.playlist_end = Some(2);
    assert!(cli.validate().is_err());

    cli.playlist_start = Some(2);
    cli.playlist_end = Some(5);
    assert!(cli.validate().is_ok());

    cli.playlist_start = None;
    cli.playlist_end = None;
    assert!(cli.validate().is_ok());
}

#[test]
fn build_command_minimal_args_in_order() {
    let wrapper = YtdlpWrapper::new(base_cli());
    let spec = wrapper.build_command().unwrap();
    assert_eq!(spec.program, "yt-dlp");
    let expected: Vec<&str> = vec![
        "--newline",
        "--progress",
        "-f",
        "bestvideo+bestaudio/best",
        "-o",
        "/tmp/out/%(title)s-%(id)s.%(ext)s",
        "--no-playlist",
        "--retries",
        "3",
        "--no-warnings",
        "--ignore-errors",
        "--no-continue",
        "https://example.com/v",
    ];
    let got: Vec<&str> = spec.args.iter().map(|s| s.as_str()).collect();
    assert_eq!(got, expected);
}

#[test]
fn build_command_full_args_in_order() {
    let mut cli = base_cli();
    cli.quality = QualityPreset::MaxAudio;
    cli.cookie_browser = Some(String::from("Chrome"));
    cli.playlist = true;
    cli.playlist_start = Some(2);
    cli.playlist_end = Some(5);
    cli.download_subtitle = true;
    cli.save_metadata = true;
    cli.rate_limit = Some(String::from("1M"));
    cli.download_archive = Some(String::from("/tmp/out/downloaded.txt"));
    let wrapper = YtdlpWrapper::new(cli);
    let spec = wrapper.build_command().unwrap();
    let expected: Vec<&str> = vec![
        "--newline",
        "--progress",
        "-f",
        "bestaudio",
        "-x",
        "--audio-format",
        "mp3",
        "--audio-quality",
        "0",
        "--cookies-from-browser",
        "chrome",
        "-o",
        "/tmp/out/%(title)s-%(id)s.%(ext)s",
        "--playlist-start",
        "2",
        "--playlist-end",
        "5",
        "--write-subs",
        "--write-auto-subs",
        "--sub-lang",
        "ja,en",
        "--write-info-json",
        "--write-description",
        "--write-thumbnail",
        "--limit-rate",
        "1M",
        "--retries",
        "3",
        "--download-archive",
        "/tmp/out/downloaded.txt",
        "--no-warnings",
        "--ignore-errors",
        "--no-continue",
        "https://example.com/v",
    ];
    let got: Vec<&str> = spec.args.iter().map(|s| s.as_str()).collect();
    assert_eq!(got, expected);
}

#[test]
fn build_command_without_url_fails() {
    let mut cli = base_cli();
    cli.url = None;
    let wrapper = YtdlpWrapper::new(cli);
    assert!(matches!(
        wrapper.build_command(),
        Err(YtdlError::MissingUrl)
    ));
}

#[test]
fn unresolvable_browser_is_skipped_not_fatal() {
    let mut cli = base_cli();
    cli.cookie_browser = Some(String::from("netscape"));
    let wrapper = YtdlpWrapper::new(cli);
    let spec = wrapper.build_command().unwrap();
    assert!(!spec.args.iter().any(|a| a == "--cookies-from-browser"));
}

#[test]
fn dry_run_command_lists_only() {
    let mut cli = base_cli();
    cli.cookie_browser = Some(String::from("firefox"));
    let wrapper = YtdlpWrapper::new(cli);
    let spec = wrapper.dry_run_command().unwrap();
    let got: Vec<&str> = spec.args.iter().map(|s| s.as_str()).collect();
    assert_eq!(
        got,
        vec![
            "--dump-json",
            "--flat-playlist",
            "https://example.com/v",
            "--cookies-from-browser",
            "firefox",
        ]
    );
}

#[test]
fn bot_challenge_is_classified() {
    let stderr = "ERROR: Sign in to confirm you're not a bot. Use --cookies.";
    let outcome = classify_outcome(false, 1, stderr);
    assert!(matches!(
        outcome,
        ProcessOutcome::Failure(FailureReason::BotChallenge)
    ));
    assert!(outcome.remediation_text().is_some());
    assert!(matches!(
        outcome.into_result(),
        Err(YtdlError::DownloadFailed(_))
    ));
}

#[test]
fn locked_cookies_are_classified() {
    let stderr = "ERROR: Could not copy Chrome cookie database to temp dir";
    let outcome = classify_outcome(false, 1, stderr);
    assert!(matches!(
        outcome,
        ProcessOutcome::Failure(FailureReason::CookieLocked)
    ));
}

#[test]
fn other_failures_keep_code_and_diagnostics() {
    let outcome = classify_outcome(false, 101, "ERROR: no formats found");
    match &outcome {
        ProcessOutcome::Failure(FailureReason::GenericFailure {
            exit_code,
            diagnostic,
        }) => {
            assert_eq!(*exit_code, 101);
            assert_eq!(diagnostic, "ERROR: no formats found");
        }
        _ => panic!("expected a generic failure"),
    }
    assert!(outcome.remediation_text().is_none());
}

#[test]
fn clean_exit_succeeds_despite_diagnostics() {
    let stderr = "WARNING: Sign in to confirm you're not a bot";
    let outcome = classify_outcome(true, 0, stderr);
    assert!(matches!(outcome, ProcessOutcome::Success));
    assert!(outcome.into_result().is_ok());
}

#[test]
fn progress_message_renders_all_fields() {
    let parser = ytdl::progress_parser::ProgressParser::new();
    let info = parser
        .parse("[download] 50% of 2.00MiB at 1.00KiB/s ETA 01:30")
        .unwrap()
        .unwrap();
    assert_eq!(
        progress_message(&info),
        "1.00 MiB / 2.00 MiB | 1.00 KiB/s | ETA 01:30"
    );
}

#[test]
fn interactive_choices_map_to_presets() {
    assert!(matches!(
        InteractiveMode::choice_to_quality("1"),
        QualityPreset::MaxVideo
    ));
    assert!(matches!(
        InteractiveMode::choice_to_quality("2"),
        QualityPreset::MaxAudio
    ));
    assert!(matches!(
        InteractiveMode::choice_to_quality("3"),
        QualityPreset::MinVideo
    ));
    assert!(matches!(
        InteractiveMode::choice_to_quality("4"),
        QualityPreset::MinSize
    ));
    assert!(matches!(
        InteractiveMode::choice_to_quality(""),
        QualityPreset::MaxVideo
    ));
    assert!(InteractiveMode::answer_is_yes("y"));
    assert!(InteractiveMode::answer_is_yes("YES"));
    assert!(InteractiveMode::answer_is_yes("はい"));
    assert!(!InteractiveMode::answer_is_yes("no"));
    assert!(!InteractiveMode::answer_is_yes(""));
}

#[test]
fn pipeline_states_advance_in_order() {
    let state = PipelineState::initial();
    let state = state.spawned();
    let state = state.draining();
    let state = state.terminated(false, 1, "Sign in to confirm you're not a bot");
    match state {
        PipelineState::Terminated(ProcessOutcome::Failure(FailureReason::BotChallenge)) => {}
        other => panic!("unexpected terminal state: {:?}", other),
    }
}

#[test]
fn update_falls_back_once_and_never_fails() {
    let first = Updater::first_mechanism();
    assert!(matches!(first, UpdateMechanism::PipUpgrade));
    assert!(matches!(
        Updater::next_mechanism(first),
        Some(UpdateMechanism::SelfUpdate)
    ));
    assert!(Updater::next_mechanism(UpdateMechanism::SelfUpdate).is_none());
    assert!(Updater::conclude(false).is_ok());
    assert!(Updater::conclude(true).is_ok());
}
