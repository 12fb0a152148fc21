use ytdl::cookie_detector::{Browser, CookieDetector, CookieRoot, Platform};

#[test]
fn test_browser_from_str() {
    assert!(matches!(Browser::from_str("chrome"), Some(Browser::Chrome)));
    assert!(matches!(
        Browser::from_str("FIREFOX"),
        Some(Browser::Firefox)
    ));
    assert!(Browser::from_str("unknown").is_none());
}

#[test]
fn test_cookie_detector_creation() {
    let detector = CookieDetector::from_str("chrome");
    assert!(detector.is_ok());

    let detector = CookieDetector::from_str("invalid");
    assert!(detector.is_err());
}

#[test]
fn browser_names_are_canonical() {
    assert_eq!(Browser::Chrome.name(), "chrome");
    assert_eq!(Browser::Firefox.name(), "firefox");
    assert_eq!(Browser::Edge.name(), "edge");
    assert_eq!(Browser::Brave.name(), "brave");
    assert_eq!(Browser::Opera.name(), "opera");
}

#[test]
fn browser_arg_matches_name() {
    let detector = CookieDetector::new(Browser::Edge);
    assert_eq!(detector.get_ytdlp_browser_arg(), "edge");
}

#[test]
fn cookie_paths_per_platform() {
    let chrome = CookieDetector::new(Browser::Chrome);
    assert_eq!(
        chrome.get_browser_cookie_path(Platform::Linux, "/home/u"),
        "/home/u/.config/google-chrome/Default/Cookies"
    );
    assert_eq!(
        chrome.get_browser_cookie_path(Platform::MacOs, "/Users/u"),
        "/Users/u/Library/Application Support/Google/Chrome/Default/Cookies"
    );
    assert_eq!(
        chrome.get_browser_cookie_path(Platform::Windows, "C:\\Users\\u\\AppData\\Local"),
        "C:\\Users\\u\\AppData\\Local\\Google\\Chrome\\User Data\\Default\\Network\\Cookies"
    );
    let firefox = CookieDetector::new(Browser::Firefox);
    assert_eq!(
        firefox.get_browser_cookie_path(Platform::Linux, "/home/u"),
        "/home/u/.mozilla/firefox"
    );
}

#[test]
fn cookie_roots_per_platform() {
    let chrome = CookieDetector::new(Browser::Chrome);
    assert!(matches!(
        chrome.cookie_root(Platform::Windows),
        CookieRoot::LocalAppData
    ));
    assert!(matches!(chrome.cookie_root(Platform::Linux), CookieRoot::Home));
    let firefox = CookieDetector::new(Browser::Firefox);
    assert!(matches!(
        firefox.cookie_root(Platform::Windows),
        CookieRoot::RoamingAppData
    ));
    assert!(matches!(firefox.cookie_root(Platform::MacOs), CookieRoot::Home));
}

#[test]
fn unsupported_browser_reports_cookie_detection() {
    assert!(matches!(
        CookieDetector::from_str("lynx"),
        Err(ytdl::error::YtdlError::CookieDetection(_))
    ));
}
