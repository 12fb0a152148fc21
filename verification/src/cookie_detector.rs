//! Resolving a browser name to the external tool's credential-source
//! token, and the per-platform location of that browser's cookie store.

use vstd::prelude::*;

use crate::error::YtdlError;
use crate::text::chars_of;

verus! {

/// A browser whose stored cookies the external tool can use.
#[derive(Debug, Clone, Copy, PartialEq, Eq)]
pub enum Browser {
    Chrome,
    Firefox,
    Edge,
    Brave,
    Opera,
}

/// The platform a cookie-store path is resolved for.
#[derive(Debug, Clone, Copy, PartialEq, Eq)]
pub enum Platform {
    Windows,
    MacOs,
    Linux,
}

/// The base directory a cookie-store path is relative to.
#[derive(Debug, Clone, Copy, PartialEq, Eq)]
pub enum CookieRoot {
    /// The local application-data directory of the user profile.
    LocalAppData,
    /// The roaming application-data directory of the user profile.
    RoamingAppData,
    /// The user's home directory.
    Home,
}

/// One character matches another up to ASCII case, where the second is
/// already lower case.
pub open spec fn char_matches_lower(c: char, l: char) -> bool {
    c == l || ('A' <= c && c <= 'Z' && (c as int) + 32 == (l as int))
}

/// A string equals a lower-case pattern up to ASCII case.
pub open spec fn eq_ignore_ascii_case(s: Seq<char>, l: Seq<char>) -> bool {
    s.len() == l.len() && forall|i: int| 0 <= i < s.len() ==> char_matches_lower(#[trigger] s[i], l[i])
}

/// The browser a name resolves to, matching without regard to ASCII case.
pub open spec fn spec_browser_of(s: Seq<char>) -> Option<Browser> {
    if eq_ignore_ascii_case(s, "chrome"@) {
        Some(Browser::Chrome)
    } else if eq_ignore_ascii_case(s, "firefox"@) {
        Some(Browser::Firefox)
    } else if eq_ignore_ascii_case(s, "edge"@) {
        Some(Browser::Edge)
    } else if eq_ignore_ascii_case(s, "brave"@) {
        Some(Browser::Brave)
    } else if eq_ignore_ascii_case(s, "opera"@) {
        Some(Browser::Opera)
    } else {
        None
    }
}

/// The canonical lower-case name of a browser: the token handed to the
/// external tool.
pub open spec fn spec_browser_name(b: Browser) -> Seq<char> {
    match b {
        Browser::Chrome => "chrome"@,
        Browser::Firefox => "firefox"@,
        Browser::Edge => "edge"@,
        Browser::Brave => "brave"@,
        Browser::Opera => "opera"@,
    }
}

/// Whether a character run equals a lower-case string up to ASCII case.
pub fn chars_eq_ignore_case(t: &[char], l: &str) -> (r: bool)
    ensures
        r == eq_ignore_ascii_case(t@, l@),
{
    let n = l.unicode_len();
    if t.len() != n {
        return false;
    }
    let mut i: usize = 0;
    while i < n
        invariant
            i <= n,
            n == l@.len(),
            t@.len() == n,
            forall|k: int| 0 <= k < i ==> char_matches_lower(#[trigger] t@[k], l@[k]),
        decreases n - i,
    {
        let c = t[i];
        let lc = l.get_char(i);
        let matched = c == lc || ('A' <= c && c <= 'Z' && (c as u32) + 32 == (lc as u32));
        if !matched {
            return false;
        }
        i = i + 1;
    }
    true
}

impl Browser {
    /// Resolves a browser name, ignoring ASCII case.
    pub fn from_str(s: &str) -> (r: Option<Browser>)
        ensures
            r == spec_browser_of(s@),
    {
        let cs = chars_of(s);
        if chars_eq_ignore_case(cs.as_slice(), "chrome") {
            Some(Browser::Chrome)
        } else if chars_eq_ignore_case(cs.as_slice(), "firefox") {
            Some(Browser::Firefox)
        } else if chars_eq_ignore_case(cs.as_slice(), "edge") {
            Some(Browser::Edge)
        } else if chars_eq_ignore_case(cs.as_slice(), "brave") {
            Some(Browser::Brave)
        } else if chars_eq_ignore_case(cs.as_slice(), "opera") {
            Some(Browser::Opera)
        } else {
            None
        }
    }

    /// The canonical lower-case name of the browser.
    pub fn name(&self) -> (r: &str)
        ensures
            r@ == spec_browser_name(*self),
    {
        match self {
            Browser::Chrome => "chrome",
            Browser::Firefox => "firefox",
            Browser::Edge => "edge",
            Browser::Brave => "brave",
            Browser::Opera => "opera",
        }
    }
}

/// The cookie-store path of a browser, relative to its root directory.
/// Windows paths use backslashes, the other platforms forward slashes;
/// for Firefox the path is the profiles directory, since profile names
/// are not predictable.
pub open spec fn spec_cookie_suffix(b: Browser, p: Platform) -> Seq<char> {
    match p {
        Platform::Windows => match b {
            Browser::Chrome => "\\Google\\Chrome\\User Data\\Default\\Network\\Cookies"@,
            Browser::Firefox => "\\Mozilla\\Firefox\\Profiles"@,
            Browser::Edge => "\\Microsoft\\Edge\\User Data\\Default\\Network\\Cookies"@,
            Browser::Brave => "\\BraveSoftware\\Brave-Browser\\User Data\\Default\\Network\\Cookies"@,
            Browser::Opera => "\\Opera Software\\Opera Stable\\Network\\Cookies"@,
        },
        Platform::MacOs => match b {
            Browser::Chrome => "/Library/Application Support/Google/Chrome/Default/Cookies"@,
            Browser::Firefox => "/Library/Application Support/Firefox/Profiles"@,
            Browser::Edge => "/Library/Application Support/Microsoft Edge/Default/Cookies"@,
            Browser::Brave => "/Library/Application Support/BraveSoftware/Brave-Browser/Default/Cookies"@,
            Browser::Opera => "/Library/Application Support/com.operasoftware.Opera/Cookies"@,
        },
        Platform::Linux => match b {
            Browser::Chrome => "/.config/google-chrome/Default/Cookies"@,
            Browser::Firefox => "/.mozilla/firefox"@,
            Browser::Edge => "/.config/microsoft-edge/Default/Cookies"@,
            Browser::Brave => "/.config/BraveSoftware/Brave-Browser/Default/Cookies"@,
            Browser::Opera => "/.config/opera/Cookies"@,
        },
    }
}

/// Resolves a browser name to a credential source and locates its cookie
/// store from plain path values.
pub struct CookieDetector {
    pub browser: Browser,
}

impl CookieDetector {
    /// A detector for the given browser.
    pub fn new(browser: Browser) -> (r: Self)
        ensures
            r.browser == browser,
    {
        CookieDetector { browser }
    }

    /// A detector for a named browser; an unknown name is rejected.
    pub fn from_str(browser_name: &str) -> (r: Result<Self, YtdlError>)
        ensures
            match spec_browser_of(browser_name@) {
                Some(b) => r matches Ok(d) && d.browser == b,
                None => r matches Err(e) && e is CookieDetection,
            },
    {
        match Browser::from_str(browser_name) {
            Some(b) => Ok(Self::new(b)),
            None => Err(
                YtdlError::CookieDetection(String::from_str("unsupported browser name")),
            ),
        }
    }

    /// The base directory the browser's cookie store sits under on the
    /// given platform.
    pub fn cookie_root(&self, platform: Platform) -> (r: CookieRoot)
        ensures
            platform is MacOs || platform is Linux ==> r is Home,
            platform is Windows && self.browser is Chrome ==> r is LocalAppData,
            platform is Windows && self.browser is Edge ==> r is LocalAppData,
            platform is Windows && self.browser is Brave ==> r is LocalAppData,
            platform is Windows && self.browser is Firefox ==> r is RoamingAppData,
            platform is Windows && self.browser is Opera ==> r is RoamingAppData,
    {
        match platform {
            Platform::Windows => match self.browser {
                Browser::Chrome => CookieRoot::LocalAppData,
                Browser::Firefox => CookieRoot::RoamingAppData,
                Browser::Edge => CookieRoot::LocalAppData,
                Browser::Brave => CookieRoot::LocalAppData,
                Browser::Opera => CookieRoot::RoamingAppData,
            },
            Platform::MacOs => CookieRoot::Home,
            Platform::Linux => CookieRoot::Home,
        }
    }

    /// The cookie-store path of the browser: the root directory's value
    /// followed by the platform- and browser-specific suffix.
    pub fn get_browser_cookie_path(&self, platform: Platform, root: &str) -> (r: String)
        ensures
            r@ == root@ + spec_cookie_suffix(self.browser, platform),
    {
        let mut s = String::from_str(root);
        match platform {
            Platform::Windows => match self.browser {
                Browser::Chrome => s.append(
                    "\\Google\\Chrome\\User Data\\Default\\Network\\Cookies",
                ),
                Browser::Firefox => s.append("\\Mozilla\\Firefox\\Profiles"),
                Browser::Edge => s.append(
                    "\\Microsoft\\Edge\\User Data\\Default\\Network\\Cookies",
                ),
                Browser::Brave => s.append(
                    "\\BraveSoftware\\Brave-Browser\\User Data\\Default\\Network\\Cookies",
                ),
                Browser::Opera => s.append("\\Opera Software\\Opera Stable\\Network\\Cookies"),
            },
            Platform::MacOs => match self.browser {
                Browser::Chrome => s.append(
                    "/Library/Application Support/Google/Chrome/Default/Cookies",
                ),
                Browser::Firefox => s.append("/Library/Application Support/Firefox/Profiles"),
                Browser::Edge => s.append(
                    "/Library/Application Support/Microsoft Edge/Default/Cookies",
                ),
                Browser::Brave => s.append(
                    "/Library/Application Support/BraveSoftware/Brave-Browser/Default/Cookies",
                ),
                Browser::Opera => s.append(
                    "/Library/Application Support/com.operasoftware.Opera/Cookies",
                ),
            },
            Platform::Linux => match self.browser {
                Browser::Chrome => s.append("/.config/google-chrome/Default/Cookies"),
                Browser::Firefox => s.append("/.mozilla/firefox"),
                Browser::Edge => s.append("/.config/microsoft-edge/Default/Cookies"),
                Browser::Brave => s.append("/.config/BraveSoftware/Brave-Browser/Default/Cookies"),
                Browser::Opera => s.append("/.config/opera/Cookies"),
            },
        }
        s
    }

    /// The credential-source token handed to the external tool.
    pub fn get_ytdlp_browser_arg(&self) -> (r: String)
        ensures
            r@ == spec_browser_name(self.browser),
    {
        match self.browser {
            Browser::Chrome => String::from_str("chrome"),
            Browser::Firefox => String::from_str("firefox"),
            Browser::Edge => String::from_str("edge"),
            Browser::Brave => String::from_str("brave"),
            Browser::Opera => String::from_str("opera"),
        }
    }
}

} // verus!
