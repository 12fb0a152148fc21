//! Building the external tool's invocation from a configuration, and
//! classifying its exit into a typed outcome.

use vstd::prelude::*;

use crate::cli::Cli;
use crate::cookie_detector::{spec_browser_name, spec_browser_of};
use crate::error::YtdlError;
use crate::progress_parser::{
    spec_format_bytes, spec_format_duration, ProgressInfo, ProgressParser,
};
use crate::text::{dec_digits, has_substring, push_decimal, str_contains};

verus! {

/// A fully built invocation: the executable name and its ordered
/// argument vector. Built once, never changed, consumed by the spawn.
#[derive(Debug, Clone)]
pub struct CommandSpec {
    /// The executable to run.
    pub program: String,
    /// Its arguments, in order.
    pub args: Vec<String>,
}

/// The output path argument: the directory (when given) joined with the
/// filename template, which defaults to a fixed pattern of title,
/// identifier and extension placeholders.
pub open spec fn spec_output_path(cli: Cli) -> Seq<char> {
    let template = match cli.output_template {
        Some(t) => t@,
        None => "%(title)s-%(id)s.%(ext)s"@,
    };
    match cli.output_dir {
        Some(d) => d@ + "/"@ + template,
        None => template,
    }
}

/// The credential-source arguments: present exactly when a browser was
/// named and resolves; a name that does not resolve is skipped, never
/// fatal here.
pub open spec fn spec_cookie_args(cli: Cli) -> Seq<Seq<char>> {
    match cli.cookie_browser {
        Some(b) => match spec_browser_of(b@) {
            Some(br) => seq!["--cookies-from-browser"@, spec_browser_name(br)],
            None => Seq::empty(),
        },
        None => Seq::empty(),
    }
}

/// The playlist-range arguments, or the single-item flag.
pub open spec fn spec_playlist_args(cli: Cli) -> Seq<Seq<char>> {
    if cli.playlist {
        (match cli.playlist_start {
            Some(s) => seq!["--playlist-start"@, dec_digits(s as nat)],
            None => Seq::empty(),
        }) + (match cli.playlist_end {
            Some(e) => seq!["--playlist-end"@, dec_digits(e as nat)],
            None => Seq::empty(),
        })
    } else {
        seq!["--no-playlist"@]
    }
}

/// The leading arguments: progress mode, format selection, and the
/// audio-extraction flags when the preset asks for them.
pub open spec fn spec_lead_args(cli: Cli) -> Seq<Seq<char>> {
    seq!["--newline"@, "--progress"@, "-f"@, crate::quality::spec_format_selector(cli.quality)]
        + (if cli.quality is MaxAudio {
        seq!["-x"@, "--audio-format"@, "mp3"@, "--audio-quality"@, "0"@]
    } else {
        Seq::empty()
    })
}

/// The subtitle arguments, when requested.
pub open spec fn spec_subtitle_args(cli: Cli) -> Seq<Seq<char>> {
    if cli.download_subtitle {
        seq!["--write-subs"@, "--write-auto-subs"@, "--sub-lang"@, "ja,en"@]
    } else {
        Seq::empty()
    }
}

/// The metadata arguments, when requested.
pub open spec fn spec_metadata_args(cli: Cli) -> Seq<Seq<char>> {
    if cli.save_metadata {
        seq!["--write-info-json"@, "--write-description"@, "--write-thumbnail"@]
    } else {
        Seq::empty()
    }
}

/// The rate-limit arguments, when a limit was given.
pub open spec fn spec_rate_args(cli: Cli) -> Seq<Seq<char>> {
    match cli.rate_limit {
        Some(r) => seq!["--limit-rate"@, r@],
        None => Seq::empty(),
    }
}

/// The archive-file arguments, when an archive was resolved.
pub open spec fn spec_archive_args(cli: Cli) -> Seq<Seq<char>> {
    match cli.download_archive {
        Some(a) => seq!["--download-archive"@, a@],
        None => Seq::empty(),
    }
}

/// The full argument vector of a download invocation, in its fixed
/// order: progress mode, format selection, extraction, credentials,
/// output path, playlist range, subtitles, metadata, rate limit,
/// retries, archive, the always-on safety flags, and the URL last.
pub open spec fn spec_build_args(cli: Cli, url: Seq<char>) -> Seq<Seq<char>> {
    spec_lead_args(cli) + spec_cookie_args(cli) + seq!["-o"@, spec_output_path(cli)]
        + spec_playlist_args(cli) + spec_subtitle_args(cli) + spec_metadata_args(cli)
        + spec_rate_args(cli) + seq!["--retries"@, dec_digits(cli.retry_count as nat)]
        + spec_archive_args(cli) + seq!["--no-warnings"@, "--ignore-errors"@, "--no-continue"@, url]
}

/// Appends one argument, tracking the argument vector's contents.
fn push_arg(args: &mut Vec<String>, a: String)
    ensures
        final(args).deep_view() == old(args).deep_view() + seq![a@],
{
    let ghost pre = args.deep_view();
    args.push(a);
    proof {
        assert(args.deep_view() =~~= pre + seq![a@]);
    }
}

/// Moves every argument of `src` onto the end of `dst`, in order.
fn append_args(dst: &mut Vec<String>, src: Vec<String>)
    ensures
        final(dst).deep_view() == old(dst).deep_view() + src.deep_view(),
{
    let ghost dst0 = dst.deep_view();
    let ghost src0 = src.deep_view();
    let mut src = src;
    let mut i: usize = 0;
    let n = src.len();
    while i < n
        invariant
            i <= n,
            n == src0.len(),
            src.deep_view() == src0,
            dst.deep_view() == dst0 + src0.subrange(0, i as int),
        decreases n - i,
    {
        let ghost pre = dst.deep_view();
        let a = src[i].clone();
        proof {
            assert(a@ == src0[i as int]);
        }
        dst.push(a);
        proof {
            assert(dst.deep_view() =~~= pre + seq![src0[i as int]]);
            assert(dst.deep_view() =~~= dst0 + src0.subrange(0, i + 1));
        }
        i = i + 1;
    }
    proof {
        assert(src0.subrange(0, n as int) =~= src0);
    }
}

/// The leading arguments of a download invocation.
fn lead_args(cli: &Cli) -> (r: Vec<String>)
    ensures
        r.deep_view() == spec_lead_args(*cli),
{
    let mut args: Vec<String> = Vec::new();
    push_arg(&mut args, String::from_str("--newline"));
    push_arg(&mut args, String::from_str("--progress"));
    push_arg(&mut args, String::from_str("-f"));
    push_arg(&mut args, cli.quality.to_ytdlp_format());
    if cli.quality.needs_audio_extraction() {
        push_arg(&mut args, String::from_str("-x"));
        push_arg(&mut args, String::from_str("--audio-format"));
        push_arg(&mut args, String::from_str("mp3"));
        push_arg(&mut args, String::from_str("--audio-quality"));
        push_arg(&mut args, String::from_str("0"));
    }
    proof {
        assert(args.deep_view() =~~= spec_lead_args(*cli));
    }
    args
}

/// The credential-source arguments of an invocation.
fn cookie_args(cli: &Cli) -> (r: Vec<String>)
    ensures
        r.deep_view() == spec_cookie_args(*cli),
{
    let mut args: Vec<String> = Vec::new();
    if let Some(browser) = &cli.cookie_browser {
        if let Ok(detector) = crate::cookie_detector::CookieDetector::from_str(browser.as_str()) {
            push_arg(&mut args, String::from_str("--cookies-from-browser"));
            push_arg(&mut args, detector.get_ytdlp_browser_arg());
        }
    }
    proof {
        assert(args.deep_view() =~~= spec_cookie_args(*cli));
    }
    args
}

/// The output-path arguments of an invocation.
fn output_args(cli: &Cli) -> (r: Vec<String>)
    ensures
        r.deep_view() == seq!["-o"@, spec_output_path(*cli)],
{
    let template = match &cli.output_template {
        Some(t) => t.clone(),
        None => String::from_str("%(title)s-%(id)s.%(ext)s"),
    };
    let path = match &cli.output_dir {
        Some(d) => {
            let mut s = d.clone();
            s.append("/");
            s.append(template.as_str());
            s
        },
        None => template,
    };
    let mut args: Vec<String> = Vec::new();
    push_arg(&mut args, String::from_str("-o"));
    push_arg(&mut args, path);
    proof {
        assert(args.deep_view() =~~= seq!["-o"@, spec_output_path(*cli)]);
    }
    args
}

/// The playlist-range arguments of an invocation.
fn playlist_args(cli: &Cli) -> (r: Vec<String>)
    ensures
        r.deep_view() == spec_playlist_args(*cli),
{
    let mut args: Vec<String> = Vec::new();
    if cli.playlist {
        if let Some(start) = cli.playlist_start {
            push_arg(&mut args, String::from_str("--playlist-start"));
            push_arg(&mut args, crate::text::u64_to_string(start as u64));
        }
        if let Some(end) = cli.playlist_end {
            push_arg(&mut args, String::from_str("--playlist-end"));
            push_arg(&mut args, crate::text::u64_to_string(end as u64));
        }
    } else {
        push_arg(&mut args, String::from_str("--no-playlist"));
    }
    proof {
        assert(args.deep_view() =~~= spec_playlist_args(*cli));
    }
    args
}

/// The subtitle arguments of an invocation.
fn subtitle_args(cli: &Cli) -> (r: Vec<String>)
    ensures
        r.deep_view() == spec_subtitle_args(*cli),
{
    let mut args: Vec<String> = Vec::new();
    if cli.download_subtitle {
        push_arg(&mut args, String::from_str("--write-subs"));
        push_arg(&mut args, String::from_str("--write-auto-subs"));
        push_arg(&mut args, String::from_str("--sub-lang"));
        push_arg(&mut args, String::from_str("ja,en"));
    }
    proof {
        assert(args.deep_view() =~~= spec_subtitle_args(*cli));
    }
    args
}

/// The metadata arguments of an invocation.
fn metadata_args(cli: &Cli) -> (r: Vec<String>)
    ensures
        r.deep_view() == spec_metadata_args(*cli),
{
    let mut args: Vec<String> = Vec::new();
    if cli.save_metadata {
        push_arg(&mut args, String::from_str("--write-info-json"));
        push_arg(&mut args, String::from_str("--write-description"));
        push_arg(&mut args, String::from_str("--write-thumbnail"));
    }
    proof {
        assert(args.deep_view() =~~= spec_metadata_args(*cli));
    }
    args
}

/// The rate-limit arguments of an invocation.
fn rate_args(cli: &Cli) -> (r: Vec<String>)
    ensures
        r.deep_view() == spec_rate_args(*cli),
{
    let mut args: Vec<String> = Vec::new();
    if let Some(rate) = &cli.rate_limit {
        push_arg(&mut args, String::from_str("--limit-rate"));
        push_arg(&mut args, rate.clone());
    }
    proof {
        assert(args.deep_view() =~~= spec_rate_args(*cli));
    }
    args
}

/// The retry arguments of an invocation.
fn retry_args(cli: &Cli) -> (r: Vec<String>)
    ensures
        r.deep_view() == seq!["--retries"@, dec_digits(cli.retry_count as nat)],
{
    let mut args: Vec<String> = Vec::new();
    push_arg(&mut args, String::from_str("--retries"));
    push_arg(&mut args, crate::text::u64_to_string(cli.retry_count as u64));
    proof {
        assert(args.deep_view() =~~= seq!["--retries"@, dec_digits(cli.retry_count as nat)]);
    }
    args
}

/// The archive-file arguments of an invocation.
fn archive_args(cli: &Cli) -> (r: Vec<String>)
    ensures
        r.deep_view() == spec_archive_args(*cli),
{
    let mut args: Vec<String> = Vec::new();
    if let Some(archive) = &cli.download_archive {
        push_arg(&mut args, String::from_str("--download-archive"));
        push_arg(&mut args, archive.clone());
    }
    proof {
        assert(args.deep_view() =~~= spec_archive_args(*cli));
    }
    args
}

/// The closing arguments of an invocation: the safety flags and the URL.
fn tail_args(url: &String) -> (r: Vec<String>)
    ensures
        r.deep_view() == seq!["--no-warnings"@, "--ignore-errors"@, "--no-continue"@, url@],
{
    let mut args: Vec<String> = Vec::new();
    push_arg(&mut args, String::from_str("--no-warnings"));
    push_arg(&mut args, String::from_str("--ignore-errors"));
    push_arg(&mut args, String::from_str("--no-continue"));
    push_arg(&mut args, url.clone());
    proof {
        assert(args.deep_view() =~~= seq![
            "--no-warnings"@,
            "--ignore-errors"@,
            "--no-continue"@,
            url@,
        ]);
    }
    args
}

/// Orchestrates the external tool for one configuration.
pub struct YtdlpWrapper {
    /// The configuration of this run.
    pub cli: Cli,
    /// The stateless line parser used while draining output.
    pub progress_parser: ProgressParser,
}

impl YtdlpWrapper {
    /// A wrapper for one configuration.
    pub fn new(cli: Cli) -> (r: Self)
        ensures
            r.cli == cli,
    {
        YtdlpWrapper { cli, progress_parser: ProgressParser::new() }
    }

    /// Builds the download invocation. Fails exactly when the URL is
    /// absent; otherwise the arguments are pinned to the fixed order.
    pub fn build_command(&self) -> (r: Result<CommandSpec, YtdlError>)
        ensures
            self.cli.url is None ==> (r matches Err(e) && e is MissingUrl),
            self.cli.url matches Some(u) ==> (r matches Ok(c) && c.program@ == "yt-dlp"@
                && c.args.deep_view() == spec_build_args(self.cli, u@)),
    {
        let url = match &self.cli.url {
            Some(u) => u,
            None => {
                return Err(YtdlError::MissingUrl);
            },
        };
        let mut args = lead_args(&self.cli);
        append_args(&mut args, cookie_args(&self.cli));
        append_args(&mut args, output_args(&self.cli));
        append_args(&mut args, playlist_args(&self.cli));
        append_args(&mut args, subtitle_args(&self.cli));
        append_args(&mut args, metadata_args(&self.cli));
        append_args(&mut args, rate_args(&self.cli));
        append_args(&mut args, retry_args(&self.cli));
        append_args(&mut args, archive_args(&self.cli));
        append_args(&mut args, tail_args(url));
        Ok(CommandSpec { program: String::from_str("yt-dlp"), args })
    }

    /// Builds an information-only invocation: it lists what would be
    /// downloaded without downloading. Fails when the URL is absent, or
    /// when a named browser does not resolve.
    pub fn dry_run_command(&self) -> (r: Result<CommandSpec, YtdlError>)
        ensures
            self.cli.url is None ==> (r matches Err(e) && e is MissingUrl),
            self.cli.url matches Some(u) ==> ((match self.cli.cookie_browser {
                Some(b) => spec_browser_of(b@) is Some,
                None => true,
            }) ==> (r matches Ok(c) && c.program@ == "yt-dlp"@ && c.args.deep_view()
                == seq!["--dump-json"@, "--flat-playlist"@, u@] + spec_cookie_args(self.cli))),
            self.cli.url is Some && (match self.cli.cookie_browser {
                Some(b) => spec_browser_of(b@) is None,
                None => false,
            }) ==> (r matches Err(e) && e is CookieDetection),
    {
        let url = match &self.cli.url {
            Some(u) => u,
            None => {
                return Err(YtdlError::MissingUrl);
            },
        };
        let mut args: Vec<String> = Vec::new();
        push_arg(&mut args, String::from_str("--dump-json"));
        push_arg(&mut args, String::from_str("--flat-playlist"));
        push_arg(&mut args, url.clone());
        if let Some(browser) = &self.cli.cookie_browser {
            match crate::cookie_detector::CookieDetector::from_str(browser.as_str()) {
                Ok(detector) => {
                    push_arg(&mut args, String::from_str("--cookies-from-browser"));
                    push_arg(&mut args, detector.get_ytdlp_browser_arg());
                },
                Err(e) => {
                    return Err(e);
                },
            }
        }
        proof {
            assert(args.deep_view() =~~= seq!["--dump-json"@, "--flat-playlist"@, self.cli.url.unwrap()@]
                + spec_cookie_args(self.cli));
        }
        Ok(CommandSpec { program: String::from_str("yt-dlp"), args })
    }
}

/// The diagnostic phrase that marks a bot challenge.
pub open spec fn spec_bot_phrase() -> Seq<char> {
    "Sign in to confirm you're not a bot"@
}

/// The diagnostic phrase that marks a locked cookie store.
pub open spec fn spec_cookie_phrase() -> Seq<char> {
    "Could not copy Chrome cookie database"@
}

/// Why a completed run failed.
#[derive(Debug, Clone)]
pub enum FailureReason {
    /// The diagnostic text shows the service demanded a sign-in.
    BotChallenge,
    /// The diagnostic text shows the browser's cookie store could not be
    /// copied.
    CookieLocked,
    /// Anything else: the raw exit code and the full diagnostic text.
    GenericFailure { exit_code: i32, diagnostic: String },
}

/// The typed result of one completed run of the external tool.
#[derive(Debug, Clone)]
pub enum ProcessOutcome {
    /// The tool exited cleanly; diagnostic content is irrelevant.
    Success,
    /// The tool exited with a failure, classified by its diagnostics.
    Failure(FailureReason),
}

/// What the classifier promises of an outcome: a clean exit succeeds
/// whatever was on the diagnostic stream; a failed exit is matched
/// against the two known phrases in priority order, and anything else
/// keeps its exit code and diagnostics.
pub open spec fn spec_classified(
    exit_success: bool,
    exit_code: i32,
    stderr: Seq<char>,
    o: ProcessOutcome,
) -> bool {
    &&& exit_success ==> o is Success
    &&& !exit_success ==> !(o is Success)
    &&& !exit_success && has_substring(stderr, spec_bot_phrase()) ==> (
    o matches ProcessOutcome::Failure(reason) && reason is BotChallenge)
    &&& !exit_success && !has_substring(stderr, spec_bot_phrase()) && has_substring(
        stderr,
        spec_cookie_phrase(),
    ) ==> (o matches ProcessOutcome::Failure(reason) && reason is CookieLocked)
    &&& !exit_success && !has_substring(stderr, spec_bot_phrase()) && !has_substring(
        stderr,
        spec_cookie_phrase(),
    ) ==> (o matches ProcessOutcome::Failure(reason)
        && reason matches FailureReason::GenericFailure { exit_code: c, diagnostic: d } && c
        == exit_code && d@ == stderr)
}

/// Classifies a completed run.
pub fn classify_outcome(exit_success: bool, exit_code: i32, stderr_text: &str) -> (r:
    ProcessOutcome)
    ensures
        spec_classified(exit_success, exit_code, stderr_text@, r),
{
    if exit_success {
        return ProcessOutcome::Success;
    }
    if str_contains(stderr_text, "Sign in to confirm you're not a bot") {
        return ProcessOutcome::Failure(FailureReason::BotChallenge);
    }
    if str_contains(stderr_text, "Could not copy Chrome cookie database") {
        return ProcessOutcome::Failure(FailureReason::CookieLocked);
    }
    ProcessOutcome::Failure(
        FailureReason::GenericFailure {
            exit_code,
            diagnostic: String::from_str(stderr_text),
        },
    )
}


/// The pipeline's lifecycle: a run is spawned once, drained once, and
/// terminated once with a classified outcome. Each step is legal only
/// from the state before it.
#[derive(Debug)]
pub enum PipelineState {
    /// Nothing has been started.
    Idle,
    /// The external tool is running with both streams piped.
    Spawned,
    /// Both streams are being consumed until end-of-input.
    Draining,
    /// The tool exited and the run has its classified outcome.
    Terminated(ProcessOutcome),
}

impl PipelineState {
    /// The state before anything is started.
    pub fn initial() -> (r: Self)
        ensures
            r is Idle,
    {
        PipelineState::Idle
    }

    /// The external tool was spawned.
    pub fn spawned(self) -> (r: Self)
        requires
            self is Idle,
        ensures
            r is Spawned,
    {
        PipelineState::Spawned
    }

    /// Both output streams are now being consumed.
    pub fn draining(self) -> (r: Self)
        requires
            self is Spawned,
        ensures
            r is Draining,
    {
        PipelineState::Draining
    }

    /// The tool exited: the run terminates with the classified outcome.
    pub fn terminated(self, exit_success: bool, exit_code: i32, stderr_text: &str) -> (r: Self)
        requires
            self is Draining,
        ensures
            r matches PipelineState::Terminated(o) && spec_classified(
                exit_success,
                exit_code,
                stderr_text@,
                o,
            ),
    {
        PipelineState::Terminated(classify_outcome(exit_success, exit_code, stderr_text))
    }
}

impl ProcessOutcome {
    /// Remediation guidance for the two specifically classified
    /// failures; the others carry none.
    pub fn remediation_text(&self) -> (r: Option<&str>)
        ensures
            *self matches ProcessOutcome::Failure(reason) && reason is BotChallenge ==> (r matches Some(t) && t@
                == "the service asked for a sign-in: log in with your browser, then run again with its cookies"@),
            *self matches ProcessOutcome::Failure(reason) && reason is CookieLocked ==> (r matches Some(t) && t@
                == "the browser's cookie store is locked: close the browser fully, or use another browser's cookies"@),
            *self is Success ==> r is None,
            *self matches ProcessOutcome::Failure(reason) ==> (reason is GenericFailure ==> r
                is None),
    {
        match self {
            ProcessOutcome::Failure(FailureReason::BotChallenge) => Some(
                "the service asked for a sign-in: log in with your browser, then run again with its cookies",
            ),
            ProcessOutcome::Failure(FailureReason::CookieLocked) => Some(
                "the browser's cookie store is locked: close the browser fully, or use another browser's cookies",
            ),
            _ => None,
        }
    }

    /// The run's result for the caller: a clean exit is no error, every
    /// classified failure maps to a download error.
    pub fn into_result(&self) -> (r: Result<(), YtdlError>)
        ensures
            *self is Success <==> r is Ok,
            !(*self is Success) ==> (r matches Err(e) && e is DownloadFailed),
    {
        match self {
            ProcessOutcome::Success => Ok(()),
            ProcessOutcome::Failure(FailureReason::BotChallenge) => Err(
                YtdlError::DownloadFailed(
                    String::from_str("authentication required: sign in with your browser first"),
                ),
            ),
            ProcessOutcome::Failure(FailureReason::CookieLocked) => Err(
                YtdlError::DownloadFailed(
                    String::from_str("cookie store locked: close the browser and retry"),
                ),
            ),
            ProcessOutcome::Failure(FailureReason::GenericFailure { exit_code, .. }) => {
                let mut msg = String::from_str("the external tool exited with code ");
                if *exit_code >= 0 {
                    push_decimal(&mut msg, *exit_code as u64);
                } else {
                    msg.append("-");
                    push_decimal(&mut msg, (-(*exit_code as i64)) as u64);
                }
                Err(YtdlError::DownloadFailed(msg))
            },
        }
    }
}

/// What a parsed event shows on the live display: downloaded and total
/// size, speed, and time remaining.
pub open spec fn spec_progress_message(info: ProgressInfo) -> Seq<char> {
    (match info.downloaded_bytes {
        Some(b) => spec_format_bytes(b as nat),
        None => "unknown"@,
    }) + " / "@ + (match info.total_bytes {
        Some(b) => spec_format_bytes(b as nat),
        None => "unknown"@,
    }) + " | "@ + (match info.speed {
        Some(b) => spec_format_bytes(b as nat) + "/s"@,
        None => "unknown"@,
    }) + " | ETA "@ + (match info.eta {
        Some(e) => spec_format_duration(e as nat),
        None => "unknown"@,
    })
}

/// Renders the live display's message line for a parsed event.
pub fn progress_message(info: &ProgressInfo) -> (r: String)
    ensures
        r@ == spec_progress_message(*info),
{
    let mut s = info.downloaded_size_str();
    s.append(" / ");
    let total = info.total_size_str();
    s.append(total.as_str());
    s.append(" | ");
    let speed = info.speed_str();
    s.append(speed.as_str());
    s.append(" | ETA ");
    let eta = info.eta_str();
    s.append(eta.as_str());
    proof {
        assert(s@ =~= spec_progress_message(*info));
    }
    s
}

/// The live display's position for a parsed event: whole percent,
/// never past one hundred.
pub fn display_position(info: &ProgressInfo) -> (r: u64)
    requires
        info.percent_milli <= 100000,
    ensures
        r == info.percent_milli / 1000,
        r <= 100,
{
    info.percent_milli / 1000
}

} // verus!