use vstd::prelude::*;
use std::time::Duration;

verus! {

/// The fetch-cache configuration: a user agent for the HTTP client, an
/// optional request timeout, and an optional politeness delay that a cache
/// miss observes after a successful fetch.
///
/// Built fluently: start from [`CrawlCache::new`] and chain the setters.
/// No validation is performed on the values; a zero duration is kept as-is.
pub struct CrawlCache {
    user_agent: String,
    duration: Option<Duration>,
    timeout: Option<Duration>,
}

impl CrawlCache {
    /// The configured user agent, as a sequence of characters.
    pub closed spec fn user_agent_spec(&self) -> Seq<char> {
        self.user_agent@
    }

    /// The configured post-fetch delay, if any.
    pub closed spec fn duration_spec(&self) -> Option<Duration> {
        self.duration
    }

    /// The configured request timeout, if any.
    pub closed spec fn timeout_spec(&self) -> Option<Duration> {
        self.timeout
    }

    /// The user agent a fresh configuration starts with: a common desktop
    /// browser identifier.
    pub open spec fn default_user_agent() -> Seq<char> {
        "Mozilla/5.0 (Windows NT 10.0; WOW64) AppleWebKit/537.36 (KHTML, like Gecko) Chrome/121.0.0.0 Safari/537.36"@
    }

    /// A fresh configuration: the default browser user agent, no post-fetch
    /// delay, no explicit timeout.
    pub fn new() -> (r: Self)
        ensures
            r.user_agent_spec() == Self::default_user_agent(),
            r.duration_spec() is None,
            r.timeout_spec() is None,
    {
        CrawlCache {
            user_agent: "Mozilla/5.0 (Windows NT 10.0; WOW64) AppleWebKit/537.36 (KHTML, like Gecko) Chrome/121.0.0.0 Safari/537.36".to_owned(),
            duration: None,
            timeout: None,
        }
    }

    /// Replaces the user agent; the other settings are kept.
    pub fn set_user_agent(self, user_agent: String) -> (r: Self)
        ensures
            r.user_agent_spec() == user_agent@,
            r.duration_spec() == self.duration_spec(),
            r.timeout_spec() == self.timeout_spec(),
    {
        CrawlCache { user_agent, duration: self.duration, timeout: self.timeout }
    }

    /// Sets the post-fetch delay; the other settings are kept.
    pub fn set_duration(self, duration: Duration) -> (r: Self)
        ensures
            r.duration_spec() == Some(duration),
            r.user_agent_spec() == self.user_agent_spec(),
            r.timeout_spec() == self.timeout_spec(),
    {
        CrawlCache { user_agent: self.user_agent, duration: Some(duration), timeout: self.timeout }
    }

    /// Sets the request timeout; the other settings are kept.
    pub fn set_timeout(self, timeout: Duration) -> (r: Self)
        ensures
            r.timeout_spec() == Some(timeout),
            r.user_agent_spec() == self.user_agent_spec(),
            r.duration_spec() == self.duration_spec(),
    {
        CrawlCache { user_agent: self.user_agent, duration: self.duration, timeout: Some(timeout) }
    }

    /// The configured user agent; this exact string is what the HTTP client
    /// must send as the `User-Agent` header.
    pub fn user_agent(&self) -> (r: &String)
        ensures
            r@ == self.user_agent_spec(),
    {
        &self.user_agent
    }

    /// The configured request timeout, if any.
    pub fn timeout(&self) -> (r: Option<Duration>)
        ensures
            r == self.timeout_spec(),
    {
        self.timeout
    }

    /// The configured post-fetch delay, if any.
    pub fn post_fetch_delay(&self) -> (r: Option<Duration>)
        ensures
            r == self.duration_spec(),
    {
        self.duration
    }
}

} // verus!
