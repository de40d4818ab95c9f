//! What the webview may ask the shell to open or fetch, and what the
//! application menu's items do.
use vstd::prelude::*;

use crate::secrets::opt_view;
use crate::text::{has_prefix, join2, join3, same_text, starts_with, suffix_from};

verus! {

/// The parts of a parsed URL that the allow-list reads.
pub struct UrlParts {
    /// The scheme, lower-cased, without the colon.
    pub scheme: String,
    /// The host, if the URL has one.
    pub host: Option<String>,
    /// The whole URL as the parser serialized it.
    pub serialization: String,
}

impl View for UrlParts {
    type V = (Seq<char>, Option<Seq<char>>, Seq<char>);

    open spec fn view(&self) -> (Seq<char>, Option<Seq<char>>, Seq<char>) {
        (self.scheme@, opt_view(self.host), self.serialization@)
    }
}

/// The scheme, host and serialization of the absolute URL that `input`
/// parses as; `None` when it is no absolute URL.
pub uninterp spec fn parsed_url(input: Seq<char>) -> Option<(Seq<char>, Option<Seq<char>>, Seq<char>)>;

/// Relies on `reqwest::Url::parse` (the `url` crate's parser), and on the
/// parsed URL's `scheme`, `host_str` and `as_str`, which read its parts.
#[verifier::external_body]
fn parse_url(input: &str) -> (r: Option<UrlParts>)
    ensures
        match parsed_url(input@) {
            Some(p) => r matches Some(u) && u@ == p,
            None => r is None,
        },
{
    match reqwest::Url::parse(input) {
        Ok(u) => Some(
            UrlParts {
                scheme: u.scheme().to_string(),
                host: u.host_str().map(|h| h.to_string()),
                serialization: u.as_str().to_string(),
            },
        ),
        Err(_) => None,
    }
}

/// The error for text that is no URL.
pub open spec fn invalid_url_message() -> Seq<char> {
    "Invalid URL"@
}

/// The error for a URL that may not be opened.
pub open spec fn url_refused_message() -> Seq<char> {
    "Only https:// URLs are allowed (http:// only for localhost)"@
}

/// A URL with this scheme and host may be opened: any `https` URL, and an
/// `http` URL on the local machine.
pub open spec fn url_permitted(scheme: Seq<char>, host: Option<Seq<char>>) -> bool {
    scheme == "https"@ || (scheme == "http"@ && (host == Some("localhost"@) || host == Some(
        "127.0.0.1"@,
    )))
}

/// What opening a URL that parsed as `parsed` (or did not parse) comes to:
/// the URL to hand to the desktop, or the error.
pub open spec fn open_outcome(parsed: Option<(Seq<char>, Option<Seq<char>>, Seq<char>)>) -> Result<
    Seq<char>,
    Seq<char>,
> {
    match parsed {
        None => Err(invalid_url_message()),
        Some((scheme, host, text)) => if url_permitted(scheme, host) {
            Ok(text)
        } else {
            Err(url_refused_message())
        },
    }
}

/// The view of a result of strings.
pub open spec fn result_view(r: Result<String, String>) -> Result<Seq<char>, Seq<char>> {
    match r {
        Ok(s) => Ok(s@),
        Err(e) => Err(e@),
    }
}

/// The URL to open for a parse result: its serialization when the scheme
/// and host are allowed, else the error.
pub fn url_open_target(parsed: Option<UrlParts>) -> (r: Result<String, String>)
    ensures
        result_view(r) == open_outcome(
            match parsed {
                Some(u) => Some(u@),
                None => None,
            },
        ),
{
    match parsed {
        None => Err(String::from_str("Invalid URL")),
        Some(u) => {
            let allowed = if same_text(u.scheme.as_str(), "https") {
                true
            } else if same_text(u.scheme.as_str(), "http") {
                match &u.host {
                    Some(h) => same_text(h.as_str(), "localhost") || same_text(
                        h.as_str(),
                        "127.0.0.1",
                    ),
                    None => false,
                }
            } else {
                false
            };
            if allowed {
                Ok(u.serialization)
            } else {
                Err(String::from_str("Only https:// URLs are allowed (http:// only for localhost)"))
            }
        },
    }
}

/// The URL that the desktop is to open for `url`, once it has been parsed
/// and allowed; else the error.
pub fn url_to_open(url: &str) -> (r: Result<String, String>)
    ensures
        result_view(r) == open_outcome(parsed_url(url@)),
{
    url_open_target(parse_url(url))
}

/// `s` without its leading slashes.
pub open spec fn trim_leading_slashes(s: Seq<char>) -> Seq<char>
    decreases s.len(),
{
    if s.len() > 0 && s[0] == '/' {
        trim_leading_slashes(s.drop_first())
    } else {
        s
    }
}

/// The Polymarket API paths that may be fetched: those under events,
/// markets and tags.
pub open spec fn polymarket_path_allowed(segment: Seq<char>) -> bool {
    starts_with(segment, "events"@) || starts_with(segment, "markets"@) || starts_with(
        segment,
        "tags"@,
    )
}

/// The Polymarket Gamma API request for `path` and the query `params`, or
/// the error for a path that is not allowed.
pub open spec fn polymarket_request(path: Seq<char>, params: Seq<char>) -> Result<
    Seq<char>,
    Seq<char>,
> {
    let segment = trim_leading_slashes(path);
    if polymarket_path_allowed(segment) {
        Ok("https://gamma-api.polymarket.com/"@ + segment + "?"@ + params)
    } else {
        Err("Invalid Polymarket path"@)
    }
}

fn strip_leading_slashes(s: &str) -> (r: String)
    ensures
        r@ == trim_leading_slashes(s@),
{
    let n = s.unicode_len();
    let mut i: usize = 0;
    assert(s@.skip(0) =~= s@);
    while i < n && s.get_char(i) == '/'
        invariant
            n == s@.len(),
            i <= n,
            trim_leading_slashes(s@) == trim_leading_slashes(s@.skip(i as int)),
        decreases n - i,
    {
        assert(s@.skip(i as int).drop_first() =~= s@.skip(i + 1));
        i = i + 1;
    }
    suffix_from(s, i)
}

/// The Gamma API URL for the Polymarket `path` (leading slashes dropped)
/// and the query `params`; only event, market and tag paths are allowed.
pub fn polymarket_url(path: &str, params: &str) -> (r: Result<String, String>)
    ensures
        result_view(r) == polymarket_request(path@, params@),
{
    let segment = strip_leading_slashes(path);
    let s = segment.as_str();
    if has_prefix(s, "events") || has_prefix(s, "markets") || has_prefix(s, "tags") {
        let mut u = join3("https://gamma-api.polymarket.com/", s, "?");
        u.append(params);
        Ok(u)
    } else {
        Err(String::from_str("Invalid Polymarket path"))
    }
}

/// Succeeds when the Polymarket API answered with a success status; else
/// the error that gives the status.
pub fn polymarket_status(success: bool, status: &str) -> (r: Result<(), String>)
    ensures
        success ==> r is Ok,
        !success ==> (r matches Err(e) && e@ == "Polymarket HTTP "@ + status@),
{
    if success {
        Ok(())
    } else {
        Err(join2("Polymarket HTTP ", status))
    }
}

/// The menu item that opens the settings window.
pub const MENU_FILE_SETTINGS_ID: &'static str = "file.settings";

/// The menu item that opens the project's repository.
pub const MENU_HELP_GITHUB_ID: &'static str = "help.github";

/// The menu item that shows or hides the developer tools.
pub const MENU_HELP_DEVTOOLS_ID: &'static str = "help.devtools";

/// The project's source repository.
pub const REPOSITORY_URL: &'static str = "https://github.com/koala73/worldmonitor";

/// What a click on a menu item does.
pub enum MenuAction {
    OpenSettings,
    OpenRepository,
    ToggleDevtools,
    Ignore,
}

/// The action for the menu item with the identifier `id`; items that the
/// shell does not own are ignored.
pub fn menu_action(id: &str) -> (r: MenuAction)
    ensures
        id@ == "file.settings"@ ==> r is OpenSettings,
        id@ == "help.github"@ ==> r is OpenRepository,
        id@ == "help.devtools"@ ==> r is ToggleDevtools,
        (id@ != "file.settings"@ && id@ != "help.github"@ && id@ != "help.devtools"@) ==> r is Ignore,
{
    proof {
        reveal_strlit("file.settings");
        reveal_strlit("help.github");
        reveal_strlit("help.devtools");
        assert("help.github"@.len() != "file.settings"@.len());
        assert("help.devtools"@[0] != "file.settings"@[0]);
        assert("help.devtools"@.len() != "help.github"@.len());
    }
    if same_text(id, MENU_FILE_SETTINGS_ID) {
        MenuAction::OpenSettings
    } else if same_text(id, MENU_HELP_GITHUB_ID) {
        MenuAction::OpenRepository
    } else if same_text(id, MENU_HELP_DEVTOOLS_ID) {
        MenuAction::ToggleDevtools
    } else {
        MenuAction::Ignore
    }
}

} // verus!
