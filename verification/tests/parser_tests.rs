use ytdl::error::YtdlError;
use ytdl::progress_parser::{
    downloaded_bytes, format_bytes, format_duration, parse_size, parse_time_str, ProgressParser,
};

#[test]
fn test_parse_progress() {
    let parser = ProgressParser::new();

    let line = "[download]  45.2% of 123.45MiB at 1.23MiB/s ETA 00:42";
    let result = parser.parse(line).unwrap();
    assert!(result.is_some());

    let info = result.unwrap();
    assert_eq!(info.percent_milli, 45_200);
    assert!(info.total_bytes.is_some());
    assert!(info.speed.is_some());
    assert!(info.eta.is_some());
}

#[test]
fn test_format_bytes() {
    assert_eq!(format_bytes(512), "512.00 B");
    assert_eq!(format_bytes(1024), "1.00 KiB");
    assert_eq!(format_bytes(1024 * 1024), "1.00 MiB");
    assert_eq!(format_bytes(1536 * 1024 * 1024), "1.50 GiB");
}

#[test]
fn test_format_duration() {
    assert_eq!(format_duration(30), "00:30");
    assert_eq!(format_duration(90), "01:30");
    assert_eq!(format_duration(3661), "61:01");
}

#[test]
fn test_parse_time_str() {
    assert_eq!(parse_time_str("01:30"), Some(90));
    assert_eq!(parse_time_str("00:42"), Some(42));
    assert_eq!(parse_time_str("invalid"), None);
}

#[test]
fn full_progress_line_values() {
    let parser = ProgressParser::new();
    let line = "[download]  45.2% of 123.45MiB at 1.23MiB/s ETA 00:42";
    let info = parser.parse(line).unwrap().unwrap();
    // 123.45 * 1024 * 1024 truncated to whole bytes
    assert_eq!(info.total_bytes, Some(129_446_707));
    // 1.23 * 1024 * 1024 truncated to whole bytes per second
    assert_eq!(info.speed, Some(1_289_748));
    assert_eq!(info.eta, Some(42));
    // floor(total * percent / 100)
    assert_eq!(info.downloaded_bytes, Some(58_509_911));
}

#[test]
fn parsing_is_stateless() {
    let parser = ProgressParser::new();
    let line = "[download] 99.9% of 10.00KiB at 5.00KiB/s ETA 00:01";
    let first = parser.parse(line).unwrap().unwrap();
    let second = parser.parse(line).unwrap().unwrap();
    assert_eq!(first, second);
}

#[test]
fn marker_without_percent_is_parse_error() {
    let parser = ProgressParser::new();
    match parser.parse("[download] Destination: video.mp4") {
        Err(YtdlError::ProgressParseError(m)) => {
            assert_eq!(m, "no percent field found");
        }
        other => panic!("expected a parse error, got {:?}", other),
    }
    match parser.parse("[download] ...% of 1.00MiB") {
        Err(YtdlError::ProgressParseError(m)) => {
            assert_eq!(m, "percent field is not a number");
        }
        other => panic!("expected a parse error, got {:?}", other),
    }
}

#[test]
fn line_without_marker_is_no_match() {
    let parser = ProgressParser::new();
    assert!(parser.parse("random noise 45.2% of nothing").unwrap().is_none());
    assert!(parser.parse("").unwrap().is_none());
}

#[test]
fn optional_clauses_may_be_absent() {
    let parser = ProgressParser::new();
    let info = parser.parse("[download] 12.5%").unwrap().unwrap();
    assert_eq!(info.percent_milli, 12_500);
    assert_eq!(info.total_bytes, None);
    assert_eq!(info.downloaded_bytes, None);
    assert_eq!(info.speed, None);
    assert_eq!(info.eta, None);
}

#[test]
fn unreadable_eta_is_unknown_not_error() {
    let parser = ProgressParser::new();
    let info = parser.parse("[download] 50% of 2.00MiB ETA soon").unwrap().unwrap();
    assert_eq!(info.total_bytes, Some(2 * 1024 * 1024));
    assert_eq!(info.eta, None);
}

#[test]
fn percent_is_capped_at_one_hundred() {
    let parser = ProgressParser::new();
    let info = parser.parse("[download] 250% of 1.00KiB").unwrap().unwrap();
    assert_eq!(info.percent_milli, 100_000);
    assert_eq!(info.downloaded_bytes, Some(1024));
}

#[test]
fn parse_size_scales_units() {
    assert_eq!(parse_size("1", "KiB"), Some(1024));
    assert_eq!(parse_size("123.45", "MiB"), Some(129_446_707));
    assert_eq!(parse_size("2", "GiB"), Some(2 * 1024 * 1024 * 1024));
    assert_eq!(parse_size("7", "unknown-unit"), Some(7));
    assert_eq!(parse_size("not-a-number", "MiB"), None);
}

#[test]
fn downloaded_bytes_is_floor_of_share() {
    assert_eq!(downloaded_bytes(1000, 50_000), 500);
    assert_eq!(downloaded_bytes(123, 45_200), 55);
    assert_eq!(downloaded_bytes(0, 100_000), 0);
    assert_eq!(downloaded_bytes(u64::MAX, 100_000), u64::MAX);
    assert!(downloaded_bytes(987_654_321, 99_999) <= 987_654_321);
}

#[test]
fn format_bytes_more_scales() {
    assert_eq!(format_bytes(0), "0.00 B");
    assert_eq!(format_bytes(1024_u64.pow(4)), "1.00 TiB");
    assert_eq!(format_bytes(1536), "1.50 KiB");
}

#[test]
fn progress_info_render_strings() {
    let parser = ProgressParser::new();
    let info = parser.parse("[download] 50% of 2.00MiB at 1.00KiB/s ETA 01:30").unwrap().unwrap();
    assert_eq!(info.total_size_str(), "2.00 MiB");
    assert_eq!(info.downloaded_size_str(), "1.00 MiB");
    assert_eq!(info.speed_str(), "1.00 KiB/s");
    assert_eq!(info.eta_str(), "01:30");

    let bare = parser.parse("[download] 10%").unwrap().unwrap();
    assert_eq!(bare.total_size_str(), "unknown");
    assert_eq!(bare.eta_str(), "unknown");
}

#[test]
fn default_parser_works() {
    let parser = ProgressParser::default();
    assert!(parser.parse("[download] 1%").unwrap().is_some());
}
