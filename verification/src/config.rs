//! Runtime configuration for sessions and clients: network proxy and retries,
//! locale, lenient bulk mode, cache location and login cookies, as a plain
//! builder-style struct.

use std::path::PathBuf;

use vstd::prelude::*;

verus! {

#[verifier::external_type_specification]
#[verifier::external_body]
pub struct ExPathBuf(PathBuf);

/// Locale sent with every `quoteSummary` / visualization request.
#[derive(Debug, Clone)]
pub struct Locale {
    /// Language tag, e.g. `"en"`.
    pub lang: String,
    /// Region tag, e.g. `"US"`.
    pub region: String,
}

impl Locale {
    /// The default locale: `en` / `US`.
    pub fn new() -> (l: Locale)
        ensures
            l.lang@ == "en"@,
            l.region@ == "US"@,
    {
        Locale { lang: "en".to_owned(), region: "US".to_owned() }
    }
}

impl Default for Locale {
    fn default() -> (l: Locale)
        ensures
            l.lang@ == "en"@,
            l.region@ == "US"@,
    {
        Locale::new()
    }
}

/// The User-Agent header sent by default.
pub open spec fn default_user_agent() -> Seq<char> {
    "Mozilla/5.0 (Windows NT 10.0; Win64; x64) AppleWebKit/537.36 (KHTML, like Gecko) Chrome/146.0.0.0 Safari/537.36"@
}

/// Configuration of a session / client.
#[derive(Debug, Clone)]
pub struct Config {
    /// Optional HTTP proxy (e.g. `"http://127.0.0.1:7890"`).
    pub proxy: Option<String>,
    /// Number of retries on transient failures (default 0).
    pub retries: u32,
    /// Per-request timeout in seconds.
    pub timeout_secs: u64,
    /// User-Agent header sent with every request.
    pub user_agent: String,
    /// Locale for summary/visualization requests.
    pub locale: Locale,
    /// When true, bulk download collects per-ticker errors instead of
    /// aborting.
    pub lenient: bool,
    /// Optional on-disk cache directory; a temp dir when `None`.
    pub cache_dir: Option<PathBuf>,
    /// Optional Yahoo login `T` cookie.
    pub cookie_t: Option<String>,
    /// Optional Yahoo login `Y` cookie.
    pub cookie_y: Option<String>,
}

/// The defaults: no proxy, no retries, 30s timeout, a Chrome User-Agent,
/// `en`/`US`, lenient, default cache dir, no cookies.
pub open spec fn is_default_config(c: Config) -> bool {
    &&& c.proxy is None
    &&& c.retries == 0
    &&& c.timeout_secs == 30
    &&& c.user_agent@ == default_user_agent()
    &&& c.locale.lang@ == "en"@
    &&& c.locale.region@ == "US"@
    &&& c.lenient
    &&& c.cache_dir is None
    &&& c.cookie_t is None
    &&& c.cookie_y is None
}

impl Config {
    /// The default configuration (see [`is_default_config`]).
    pub fn new() -> (c: Config)
        ensures
            is_default_config(c),
    {
        Config {
            proxy: None,
            retries: 0,
            timeout_secs: 30,
            user_agent: "Mozilla/5.0 (Windows NT 10.0; Win64; x64) AppleWebKit/537.36 (KHTML, like Gecko) Chrome/146.0.0.0 Safari/537.36".to_owned(),
            locale: Locale::new(),
            lenient: true,
            cache_dir: None,
            cookie_t: None,
            cookie_y: None,
        }
    }

    /// Builder: set proxy.
    pub fn proxy(self, proxy: &str) -> (c: Config)
        ensures
            c.proxy matches Some(p) && p@ == proxy@,
            c == (Config { proxy: c.proxy, ..self }),
    {
        Config { proxy: Some(proxy.to_owned()), ..self }
    }

    /// Builder: set retries.
    pub fn retries(self, retries: u32) -> (c: Config)
        ensures
            c == (Config { retries, ..self }),
    {
        Config { retries, ..self }
    }

    /// Builder: set request timeout.
    pub fn timeout_secs(self, secs: u64) -> (c: Config)
        ensures
            c == (Config { timeout_secs: secs, ..self }),
    {
        Config { timeout_secs: secs, ..self }
    }

    /// Builder: set locale.
    pub fn locale(self, lang: &str, region: &str) -> (c: Config)
        ensures
            c.locale.lang@ == lang@,
            c.locale.region@ == region@,
            c == (Config { locale: c.locale, ..self }),
    {
        Config { locale: Locale { lang: lang.to_owned(), region: region.to_owned() }, ..self }
    }

    /// Builder: toggle lenient bulk mode.
    pub fn lenient(self, lenient: bool) -> (c: Config)
        ensures
            c == (Config { lenient, ..self }),
    {
        Config { lenient, ..self }
    }

    /// Builder: set cache directory.
    pub fn cache_dir(self, dir: PathBuf) -> (c: Config)
        ensures
            c == (Config { cache_dir: Some(dir), ..self }),
    {
        Config { cache_dir: Some(dir), ..self }
    }

    /// Builder: inject Yahoo login `T`/`Y` cookies at session start.
    pub fn cookies(self, cookie_t: &str, cookie_y: &str) -> (c: Config)
        ensures
            c.cookie_t matches Some(t) && t@ == cookie_t@,
            c.cookie_y matches Some(y) && y@ == cookie_y@,
            c == (Config { cookie_t: c.cookie_t, cookie_y: c.cookie_y, ..self }),
    {
        Config { cookie_t: Some(cookie_t.to_owned()), cookie_y: Some(cookie_y.to_owned()), ..self }
    }
}

impl Default for Config {
    fn default() -> (c: Config)
        ensures
            is_default_config(c),
    {
        Config::new()
    }
}

} // verus!
