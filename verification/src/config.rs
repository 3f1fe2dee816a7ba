//! Client configuration: credentials, base path rules, timeouts, and its log-safe rendering.
//!
//! The access token is never rendered: only its length in bytes appears.
use vstd::prelude::*;
use vstd::string::*;
use vstd::utf8::*;

use crate::duration::{duration_debug_text, max_nanos, Duration};
use crate::error::Error;
use crate::text::{
    blank, chars_of, debug_quoted, decimal, is_blank, joined, owned, push_decimal,
    str_debug_text, str_eq, string_of_chars, starts_with,
};
use crate::types::opt_view;

verus! {

/// Default TCP connect timeout, in seconds.
pub const DEFAULT_CONNECT_TIMEOUT_SECS: u64 = 10;

/// Default per-request timeout, in seconds.
pub const DEFAULT_REQUEST_TIMEOUT_SECS: u64 = 60;

/// Default time added on top of a command's own timeout for the HTTP call, in seconds.
pub const DEFAULT_COMMAND_TIMEOUT_SLACK_SECS: u64 = 15;

/// In-box command timeout the server applies when a request omits one, in seconds.
pub const DEFAULT_COMMAND_TIMEOUT_SECS: u32 = 30;

/// The `User-Agent` sent by default.
pub const DEFAULT_USER_AGENT: &'static str = "box_client/0.1.0";

/// Client configuration.
///
/// Timeouts: a short connect budget and a separate request budget. Long-running `command`
/// calls extend the request timeout to cover `timeout_seconds` plus slack.
#[derive(Clone)]
pub struct Configuration {
    pub base_path: String,
    pub access_token: String,
    /// Optional org / team wallet scope (`X-Box-Org`).
    pub org: Option<String>,
    /// TCP connect timeout (default 10s).
    pub connect_timeout: Duration,
    /// Default per-request timeout for API calls (default 60s).
    pub request_timeout: Duration,
    /// Added on top of a command's `timeout_seconds` for the HTTP layer (default 15s).
    pub command_timeout_slack: Duration,
    /// Sent as `User-Agent`.
    pub user_agent: String,
}

// --- URL parsing ---
/// What the base-path rule reads of a parsed URL: its scheme and its host text.
pub struct UrlParts {
    pub scheme: String,
    pub host: Option<String>,
}

impl View for UrlParts {
    type V = (Seq<char>, Option<Seq<char>>);

    open spec fn view(&self) -> (Seq<char>, Option<Seq<char>>) {
        (self.scheme@, opt_view(self.host))
    }
}

/// Names what `url::Url::parse` makes of an input: on success the parsed URL's `scheme()`
/// and `host_str()`, on failure the `Display` text of the `url::ParseError` it returns.
pub uninterp spec fn url_parse(input: Seq<char>) -> Result<(Seq<char>, Option<Seq<char>>), Seq<char>>;

/// `url::Url::parse`, read as scheme and host, or as the text of its error.
#[verifier::external_body]
fn parse_url(input: &str) -> (r: Result<UrlParts, String>)
    ensures
        match r {
            Ok(p) => url_parse(input@) matches Ok(q) && q == p@,
            Err(t) => url_parse(input@) matches Err(u) && u == t@,
        },
{
    match url::Url::parse(input) {
        Ok(u) => Ok(
            UrlParts {
                scheme: u.scheme().to_string(),
                host: match u.host_str() {
                    Some(h) => Some(h.to_string()),
                    None => None,
                },
            },
        ),
        Err(e) => Err(e.to_string()),
    }
}

// --- Base path rule ---
/// A decimal digit.
pub open spec fn is_digit(c: char) -> bool {
    ('0' as u32) <= (c as u32) <= ('9' as u32)
}

/// How many `.` characters `s` holds.
pub open spec fn dot_count(s: Seq<char>) -> nat
    decreases s.len(),
{
    if s.len() == 0 {
        0
    } else {
        dot_count(s.drop_last()) + if s.last() == '.' {
            1nat
        } else {
            0nat
        }
    }
}

/// Positions `i` and `i + 1` of `s` both hold `.`.
pub open spec fn adjacent_dots(s: Seq<char>, i: int) -> bool {
    s[i] == '.' && s[i + 1] == '.'
}

/// An IPv4 address literal: four non-empty groups of digits separated by `.`.
pub open spec fn dotted_quad(s: Seq<char>) -> bool {
    &&& s.len() > 0
    &&& forall|i: int| 0 <= i < s.len() ==> is_digit(#[trigger] s[i]) || s[i] == '.'
    &&& s[0] != '.'
    &&& s.last() != '.'
    &&& forall|i: int| 0 <= i < s.len() - 1 ==> !#[trigger] adjacent_dots(s, i)
    &&& dot_count(s) == 3
}

/// The literals of the base path rule, as sequences: the two schemes differ, and the
/// loopback names and the `127.` prefix have their lengths.
proof fn lemma_base_rule_literals()
    ensures
        "https"@ != "http"@,
        "https"@.len() == 5,
        "http"@.len() == 4,
        "localhost"@.len() == 9,
        "[::1]"@.len() == 5,
        "127."@.len() == 4,
        ""@.len() == 0,
{
    reveal_strlit("https");
    reveal_strlit("http");
    reveal_strlit("localhost");
    reveal_strlit("[::1]");
    reveal_strlit("127.");
    reveal_strlit("");
    assert("https"@.len() != "http"@.len());
}

/// Hosts on the local machine, as the URL parser writes them: `localhost`, the IPv6
/// loopback `[::1]`, or an IPv4 address literal in `127.0.0.0/8`.
pub open spec fn loopback_host(h: Seq<char>) -> bool {
    ||| h == "localhost"@
    ||| h == "[::1]"@
    ||| (h.len() >= 4 && h.take(4) == "127."@ && dotted_quad(h))
}

/// Whether `s` is an IPv4 address literal (four non-empty digit groups separated by `.`).
pub fn is_dotted_quad(s: &str) -> (r: bool)
    ensures
        r == dotted_quad(s@),
{
    let cs = chars_of(s);
    let n = cs.len();
    if n == 0 || cs[0] == '.' || cs[n - 1] == '.' {
        return false;
    }
    let mut dots: usize = 0;
    let mut i: usize = 0;
    while i < n
        invariant
            cs@ == s@,
            n == cs@.len(),
            n > 0,
            i <= n,
            dots == dot_count(s@.take(i as int)),
            dots <= i,
            forall|j: int| 0 <= j < i ==> is_digit(#[trigger] s@[j]) || s@[j] == '.',
            forall|j: int| 0 <= j < i - 1 ==> !#[trigger] adjacent_dots(s@, j),
        decreases n - i,
    {
        let c = cs[i];
        if !(('0' as u32) <= (c as u32) && (c as u32) <= ('9' as u32)) && c != '.' {
            assert(!(is_digit(s@[i as int]) || s@[i as int] == '.'));
            return false;
        }
        if c == '.' && i > 0 && cs[i - 1] == '.' {
            assert(adjacent_dots(s@, i - 1));
            return false;
        }
        assert(s@.take(i + 1).drop_last() =~= s@.take(i as int));
        if c == '.' {
            dots = dots + 1;
        }
        i = i + 1;
    }
    assert(s@.take(n as int) =~= s@);
    dots == 3
}

/// Whether `host` is on the local machine (see `loopback_host`).
pub fn is_loopback_host(host: &str) -> (r: bool)
    ensures
        r == loopback_host(host@),
{
    proof {
        lemma_base_rule_literals();
    }
    str_eq(host, "localhost") || str_eq(host, "[::1]") || (starts_with(host, "127.")
        && is_dotted_quad(host))
}

/// A parsed base URL is accepted when it uses `https`, or `http` with a loopback host,
/// and has a host.
pub open spec fn base_url_ok(p: (Seq<char>, Option<Seq<char>>)) -> bool {
    &&& (p.0 == "https"@ || (p.0 == "http"@ && p.1 is Some && loopback_host(p.1->0)))
    &&& p.1 is Some
}

/// A base path is accepted when it parses as a URL that `base_url_ok` accepts.
pub open spec fn base_path_ok(base: Seq<char>) -> bool {
    url_parse(base) matches Ok(p) && base_url_ok(p)
}

/// The message for a parsed base URL that is refused, if it is refused.
pub open spec fn base_url_refusal(base: Seq<char>, p: (Seq<char>, Option<Seq<char>>)) -> Option<
    Seq<char>,
> {
    if p.0 == "https"@ {
        if p.1 is None {
            Some("base_path must include a host"@)
        } else {
            None
        }
    } else if p.0 == "http"@ {
        let host = match p.1 {
            Some(h) => h,
            None => Seq::empty(),
        };
        if !loopback_host(host) {
            Some("base_path must use https (http only allowed for localhost), got `"@ + base + "`"@)
        } else if p.1 is None {
            Some("base_path must include a host"@)
        } else {
            None
        }
    } else {
        Some("base_path must be http(s), got "@ + p.0)
    }
}

/// Applies the base path rule to a parsed URL: `https` is accepted; `http` only for a
/// loopback host; any other scheme is refused; a URL without a host is refused.
pub fn check_base_url(base: &str, parts: &UrlParts) -> (r: Result<(), Error>)
    ensures
        match base_url_refusal(base@, parts@) {
            None => r is Ok,
            Some(m) => r matches Err(Error::Config(t)) && t@ == m,
        },
        r is Ok <==> base_url_ok(parts@),
{
    proof {
        lemma_base_rule_literals();
    }
    let scheme = parts.scheme.as_str();
    if str_eq(scheme, "https") {
    } else if str_eq(scheme, "http") {
        let host = match &parts.host {
            Some(h) => h.as_str(),
            None => "",
        };
        let loopback = is_loopback_host(host);
        proof {
            lemma_base_rule_literals();
        }
        if !loopback {
            let mut m = owned("base_path must use https (http only allowed for localhost), got `");
            m.append(base);
            m.append("`");
            return Err(Error::Config(m));
        }
    } else {
        return Err(Error::Config(joined("base_path must be http(s), got ", scheme)));
    }
    if parts.host.is_none() {
        return Err(Error::Config(owned("base_path must include a host")));
    }
    Ok(())
}

/// The message a base path is refused with, if it is refused: the parser's reason when it
/// does not parse as a URL, else the refusal of `base_url_refusal`.
pub open spec fn base_path_refusal(base: Seq<char>) -> Option<Seq<char>> {
    match url_parse(base) {
        Ok(p) => base_url_refusal(base, p),
        Err(reason) => Some("invalid base_path `"@ + base + "`: "@ + reason),
    }
}

/// Checks a base path: it must parse as a URL, and the URL must pass `check_base_url`.
pub fn validate_base_path(base: &str) -> (r: Result<(), Error>)
    ensures
        r is Ok <==> base_path_ok(base@),
        match base_path_refusal(base@) {
            None => r is Ok,
            Some(m) => r matches Err(Error::Config(t)) && t@ == m,
        },
{
    match parse_url(base) {
        Ok(parts) => check_base_url(base, &parts),
        Err(reason) => {
            let mut m = owned("invalid base_path `");
            m.append(base);
            m.append("`: ");
            m.append(reason.as_str());
            Err(Error::Config(m))
        },
    }
}

/// Checks an access token: it must not be empty or whitespace only.
pub fn validate_token(token: &str) -> (r: Result<(), Error>)
    ensures
        !blank(token@) ==> r is Ok,
        blank(token@) ==> (r matches Err(Error::Config(m)) && m@
            == "access token must not be empty"@),
{
    if is_blank(token) {
        return Err(Error::Config(owned("access token must not be empty")));
    }
    Ok(())
}

/// `s` without its trailing `/` characters.
pub open spec fn trim_end_slashes(s: Seq<char>) -> Seq<char>
    decreases s.len(),
{
    if s.len() > 0 && s.last() == '/' {
        trim_end_slashes(s.drop_last())
    } else {
        s
    }
}

/// Trimming twice trims nothing more: a base path set by `with_base_path` is used as it is.
pub proof fn lemma_trim_idempotent(s: Seq<char>)
    ensures
        trim_end_slashes(trim_end_slashes(s)) == trim_end_slashes(s),
        trim_end_slashes(s).len() == 0 || trim_end_slashes(s).last() != '/',
    decreases s.len(),
{
    if s.len() > 0 && s.last() == '/' {
        lemma_trim_idempotent(s.drop_last());
    }
}

/// `s` without its trailing `/` characters.
pub fn trim_trailing_slashes(s: &str) -> (r: String)
    ensures
        r@ == trim_end_slashes(s@),
{
    let cs = chars_of(s);
    let mut end = cs.len();
    assert(cs@.take(end as int) =~= cs@);
    while end > 0 && cs[end - 1] == '/'
        invariant
            cs@ == s@,
            end <= cs@.len(),
            trim_end_slashes(s@) == trim_end_slashes(s@.take(end as int)),
        decreases end,
    {
        assert(s@.take(end as int).drop_last() =~= s@.take(end - 1));
        end = end - 1;
    }
    let mut kept: Vec<char> = Vec::new();
    let mut i: usize = 0;
    while i < end
        invariant
            cs@ == s@,
            end <= cs@.len(),
            i <= end,
            kept@ == s@.take(i as int),
        decreases end - i,
    {
        kept.push(cs[i]);
        assert(s@.take(i + 1) =~= s@.take(i as int).push(s@[i as int]));
        i = i + 1;
    }
    string_of_chars(&kept)
}

/// The text that stands in for a secret: its length in bytes, nothing else.
pub open spec fn redacted(secret: Seq<char>) -> Seq<char> {
    "<redacted len="@ + decimal((encode_utf8(secret).len() as usize) as nat) + ">"@
}

/// The stand-in for a secret in logs: `<redacted len=N>` with `N` its length in bytes.
pub fn redact_secret(secret: &str) -> (r: String)
    ensures
        r@ == redacted(secret@),
{
    let mut r = owned("<redacted len=");
    push_decimal(&mut r, secret.len() as u64);
    r.append(">");
    r
}

/// The `Debug` text of an optional string.
pub open spec fn opt_str_debug_text(o: Option<Seq<char>>) -> Seq<char> {
    match o {
        Some(s) => "Some("@ + str_debug_text(s) + ")"@,
        None => "None"@,
    }
}

/// The `Debug` text of a configuration, with the access token replaced by its length.
pub open spec fn config_debug_text(c: Configuration) -> Seq<char> {
    "Configuration { base_path: "@ + str_debug_text(c.base_path@) + ", access_token: "@
        + str_debug_text(redacted(c.access_token@)) + ", org: "@ + opt_str_debug_text(
        opt_view(c.org),
    ) + ", connect_timeout: "@ + duration_debug_text(
        c.connect_timeout.whole_secs(),
        c.connect_timeout.subsec(),
    ) + ", request_timeout: "@ + duration_debug_text(
        c.request_timeout.whole_secs(),
        c.request_timeout.subsec(),
    ) + ", command_timeout_slack: "@ + duration_debug_text(
        c.command_timeout_slack.whole_secs(),
        c.command_timeout_slack.subsec(),
    ) + ", user_agent: "@ + str_debug_text(c.user_agent@) + " }"@
}

/// `cfg`'s fields other than the base path are those of `old`.
pub open spec fn same_but_base_path(cfg: Configuration, old: Configuration) -> bool {
    &&& cfg.access_token == old.access_token
    &&& cfg.org == old.org
    &&& cfg.connect_timeout == old.connect_timeout
    &&& cfg.request_timeout == old.request_timeout
    &&& cfg.command_timeout_slack == old.command_timeout_slack
    &&& cfg.user_agent == old.user_agent
}

/// The HTTP timeout of a command: the in-box timeout (30 s when omitted) plus the slack,
/// saturating, and never below the request timeout; in nanoseconds.
pub open spec fn command_http_timeout(c: Configuration, timeout_seconds: Option<u32>) -> nat {
    let secs = match timeout_seconds {
        Some(s) => s,
        None => DEFAULT_COMMAND_TIMEOUT_SECS,
    };
    let budget = secs as nat * 1_000_000_000 + c.command_timeout_slack@;
    let capped = if budget <= max_nanos() {
        budget
    } else {
        max_nanos()
    };
    if capped >= c.request_timeout@ {
        capped
    } else {
        c.request_timeout@
    }
}

/// The text of an optional setting that is present and not empty.
pub open spec fn set_text(o: Option<&str>) -> Option<Seq<char>> {
    match o {
        Some(s) => if s@.len() > 0 {
            Some(s@)
        } else {
            None
        },
        None => None,
    }
}

impl Configuration {
    /// The production API base path.
    pub const DEFAULT_BASE_PATH: &'static str = "https://ascii.dev/api/box/v1";

    /// A configuration for the production API with the given token and default timeouts.
    pub fn new(access_token: &str) -> (r: Result<Configuration, Error>)
        ensures
            blank(access_token@) ==> (r matches Err(Error::Config(m)) && m@
                == "access token must not be empty"@),
            !blank(access_token@) ==> (r is Ok <==> base_path_ok(Configuration::DEFAULT_BASE_PATH@)),
            !blank(access_token@) ==> match base_path_refusal(Configuration::DEFAULT_BASE_PATH@) {
                None => r is Ok,
                Some(m) => r matches Err(Error::Config(t)) && t@ == m,
            },
            r matches Ok(c) ==> {
                &&& c.base_path@ == Configuration::DEFAULT_BASE_PATH@
                &&& c.access_token@ == access_token@
                &&& c.org is None
                &&& c.connect_timeout@ == DEFAULT_CONNECT_TIMEOUT_SECS * 1_000_000_000
                &&& c.request_timeout@ == DEFAULT_REQUEST_TIMEOUT_SECS * 1_000_000_000
                &&& c.command_timeout_slack@ == DEFAULT_COMMAND_TIMEOUT_SLACK_SECS
                    * 1_000_000_000
                &&& c.user_agent@ == DEFAULT_USER_AGENT@
            },
    {
        validate_token(access_token)?;
        let base_path = owned(Configuration::DEFAULT_BASE_PATH);
        validate_base_path(base_path.as_str())?;
        Ok(
            Configuration {
                base_path,
                access_token: owned(access_token),
                org: None,
                connect_timeout: Duration::from_secs(DEFAULT_CONNECT_TIMEOUT_SECS),
                request_timeout: Duration::from_secs(DEFAULT_REQUEST_TIMEOUT_SECS),
                command_timeout_slack: Duration::from_secs(DEFAULT_COMMAND_TIMEOUT_SLACK_SECS),
                user_agent: owned(DEFAULT_USER_AGENT),
            },
        )
    }

    /// A configuration from the values of `BOX_API_KEY` (required), `BOX_BASE_URL` and
    /// `BOX_ORG` (used when set and not empty).
    pub fn from_env_values(
        api_key: Option<&str>,
        base_url: Option<&str>,
        org: Option<&str>,
    ) -> (r: Result<Configuration, Error>)
        ensures
            api_key is None ==> (r matches Err(Error::Config(m)) && m@
                == "BOX_API_KEY is not set (create one with `box api-key create`)"@),
            api_key matches Some(k) && blank(k@) ==> (r matches Err(Error::Config(m)) && m@
                == "access token must not be empty"@),
            api_key matches Some(k) && !blank(k@) ==> match base_path_refusal(Configuration::DEFAULT_BASE_PATH@) {
                Some(m) => r matches Err(Error::Config(t)) && t@ == m,
                None => match set_text(base_url) {
                    Some(b) => match base_path_refusal(b) {
                        Some(m) => r matches Err(Error::Config(t)) && t@ == m,
                        None => r is Ok,
                    },
                    None => r is Ok,
                },
            },
            r is Ok <==> {
                &&& api_key matches Some(k) && !blank(k@)
                &&& base_path_ok(Configuration::DEFAULT_BASE_PATH@)
                &&& match set_text(base_url) {
                    Some(b) => base_path_ok(b),
                    None => true,
                }
            },
            r matches Ok(c) ==> {
                &&& c.access_token@ == api_key->0@
                &&& c.base_path@ == match set_text(base_url) {
                    Some(b) => trim_end_slashes(b),
                    None => Configuration::DEFAULT_BASE_PATH@,
                }
                &&& opt_view(c.org) == set_text(org)
                &&& c.connect_timeout@ == DEFAULT_CONNECT_TIMEOUT_SECS * 1_000_000_000
                &&& c.request_timeout@ == DEFAULT_REQUEST_TIMEOUT_SECS * 1_000_000_000
                &&& c.command_timeout_slack@ == DEFAULT_COMMAND_TIMEOUT_SLACK_SECS
                    * 1_000_000_000
                &&& c.user_agent@ == DEFAULT_USER_AGENT@
            },
    {
        let key = match api_key {
            Some(k) => k,
            None => {
                return Err(
                    Error::Config(
                        owned("BOX_API_KEY is not set (create one with `box api-key create`)"),
                    ),
                );
            },
        };
        let mut cfg = Configuration::new(key)?;
        if let Some(base) = base_url {
            if !base.is_empty() {
                cfg = cfg.with_base_path(base)?;
            }
        }
        if let Some(o) = org {
            if !o.is_empty() {
                cfg.org = Some(owned(o));
            }
        }
        Ok(cfg)
    }

    /// The same configuration pointed at another base path, without trailing slashes.
    pub fn with_base_path(self, base_path: &str) -> (r: Result<Configuration, Error>)
        ensures
            r is Ok <==> base_path_ok(base_path@),
            r matches Ok(c) ==> c.base_path@ == trim_end_slashes(base_path@) && same_but_base_path(
                c,
                self,
            ),
            match base_path_refusal(base_path@) {
                None => r is Ok,
                Some(m) => r matches Err(Error::Config(t)) && t@ == m,
            },
    {
        validate_base_path(base_path)?;
        Ok(Configuration { base_path: trim_trailing_slashes(base_path), ..self })
    }

    /// The same configuration scoped to an org (`X-Box-Org`).
    pub fn with_org(self, org: &str) -> (r: Configuration)
        ensures
            opt_view(r.org) == Some(org@),
            r.base_path == self.base_path,
            r.access_token == self.access_token,
            r.connect_timeout == self.connect_timeout,
            r.request_timeout == self.request_timeout,
            r.command_timeout_slack == self.command_timeout_slack,
            r.user_agent == self.user_agent,
    {
        Configuration { org: Some(owned(org)), ..self }
    }

    /// Sets the default per-request timeout (does not change `connect_timeout`).
    pub fn with_timeout(self, timeout: Duration) -> (r: Configuration)
        ensures
            r.request_timeout == timeout,
            r.base_path == self.base_path,
            r.access_token == self.access_token,
            r.org == self.org,
            r.connect_timeout == self.connect_timeout,
            r.command_timeout_slack == self.command_timeout_slack,
            r.user_agent == self.user_agent,
    {
        Configuration { request_timeout: timeout, ..self }
    }

    /// Sets the TCP connect timeout.
    pub fn with_connect_timeout(self, timeout: Duration) -> (r: Configuration)
        ensures
            r.connect_timeout == timeout,
            r.base_path == self.base_path,
            r.access_token == self.access_token,
            r.org == self.org,
            r.request_timeout == self.request_timeout,
            r.command_timeout_slack == self.command_timeout_slack,
            r.user_agent == self.user_agent,
    {
        Configuration { connect_timeout: timeout, ..self }
    }

    /// Sets the default per-request timeout.
    pub fn with_request_timeout(self, timeout: Duration) -> (r: Configuration)
        ensures
            r.request_timeout == timeout,
            r.base_path == self.base_path,
            r.access_token == self.access_token,
            r.org == self.org,
            r.connect_timeout == self.connect_timeout,
            r.command_timeout_slack == self.command_timeout_slack,
            r.user_agent == self.user_agent,
    {
        Configuration { request_timeout: timeout, ..self }
    }

    /// Sets the time added on top of a command's own timeout for the HTTP call.
    pub fn with_command_timeout_slack(self, slack: Duration) -> (r: Configuration)
        ensures
            r.command_timeout_slack == slack,
            r.base_path == self.base_path,
            r.access_token == self.access_token,
            r.org == self.org,
            r.connect_timeout == self.connect_timeout,
            r.request_timeout == self.request_timeout,
            r.user_agent == self.user_agent,
    {
        Configuration { command_timeout_slack: slack, ..self }
    }

    /// Sets the `User-Agent`.
    pub fn with_user_agent(self, user_agent: &str) -> (r: Configuration)
        ensures
            r.user_agent@ == user_agent@,
            r.base_path == self.base_path,
            r.access_token == self.access_token,
            r.org == self.org,
            r.connect_timeout == self.connect_timeout,
            r.request_timeout == self.request_timeout,
            r.command_timeout_slack == self.command_timeout_slack,
    {
        Configuration { user_agent: owned(user_agent), ..self }
    }

    /// HTTP timeout for a `command` call given the in-box `timeout_seconds`.
    pub fn http_timeout_for_command(&self, timeout_seconds: Option<u32>) -> (r: Duration)
        ensures
            r@ == command_http_timeout(*self, timeout_seconds),
    {
        let secs = match timeout_seconds {
            Some(s) => s,
            None => DEFAULT_COMMAND_TIMEOUT_SECS,
        };
        let cmd = Duration::from_secs(secs as u64);
        cmd.saturating_add(self.command_timeout_slack).max(self.request_timeout)
    }

    /// The `Debug` text, with the access token shown only as its length.
    pub fn debug_string(&self) -> (r: String)
        ensures
            r@ == config_debug_text(*self),
    {
        let mut r = owned("Configuration { base_path: ");
        r.append(debug_quoted(self.base_path.as_str()).as_str());
        r.append(", access_token: ");
        let token = redact_secret(self.access_token.as_str());
        r.append(debug_quoted(token.as_str()).as_str());
        r.append(", org: ");
        match &self.org {
            Some(o) => {
                r.append("Some(");
                r.append(debug_quoted(o.as_str()).as_str());
                r.append(")");
            },
            None => {
                r.append("None");
            },
        }
        r.append(", connect_timeout: ");
        r.append(self.connect_timeout.debug_string().as_str());
        r.append(", request_timeout: ");
        r.append(self.request_timeout.debug_string().as_str());
        r.append(", command_timeout_slack: ");
        r.append(self.command_timeout_slack.debug_string().as_str());
        r.append(", user_agent: ");
        r.append(debug_quoted(self.user_agent.as_str()).as_str());
        r.append(" }");
        assert(r@ =~= config_debug_text(*self));
        r
    }
}

/// The stand-in for a secret depends on its length alone.
pub proof fn lemma_redaction_depends_on_length_only(a: Seq<char>, b: Seq<char>)
    requires
        encode_utf8(a).len() == encode_utf8(b).len(),
    ensures
        redacted(a) == redacted(b),
{
}

/// Two configurations that differ only in access tokens of the same length render the same
/// `Debug` text: the token never shows, only its length.
pub proof fn lemma_config_debug_hides_token(a: Configuration, b: Configuration)
    requires
        a.base_path@ == b.base_path@,
        opt_view(a.org) == opt_view(b.org),
        a.connect_timeout == b.connect_timeout,
        a.request_timeout == b.request_timeout,
        a.command_timeout_slack == b.command_timeout_slack,
        a.user_agent@ == b.user_agent@,
        encode_utf8(a.access_token@).len() == encode_utf8(b.access_token@).len(),
    ensures
        config_debug_text(a) == config_debug_text(b),
{
}

/// The HTTP timeout of a command is never below the request timeout, and covers the
/// command's own budget (its timeout, 30 s when omitted, plus the slack) unless that budget
/// exceeds the largest span.
pub proof fn lemma_command_timeout_covers_budget(c: Configuration, timeout_seconds: Option<u32>)
    ensures
        command_http_timeout(c, timeout_seconds) >= c.request_timeout@,
        ({
            let secs = match timeout_seconds {
                Some(s) => s,
                None => DEFAULT_COMMAND_TIMEOUT_SECS,
            };
            let budget = secs as nat * 1_000_000_000 + c.command_timeout_slack@;
            budget <= max_nanos() ==> command_http_timeout(c, timeout_seconds) >= budget
        }),
{
}

/// A base path with the `http` scheme is accepted only for a loopback host; every accepted
/// base path uses `https` or `http`, and has a host.
pub proof fn lemma_accepted_base_paths(base: Seq<char>)
    requires
        base_path_ok(base),
    ensures
        match url_parse(base) {
            Ok(p) => {
                &&& p.1 is Some
                &&& p.0 == "https"@ || p.0 == "http"@
                &&& p.0 == "http"@ ==> loopback_host(p.1->0)
            },
            Err(_) => false,
        },
{
    lemma_base_rule_literals();
    let p = url_parse(base)->Ok_0;
    assert(base_url_ok(p));
    assert(p.1 is Some);
    assert(p.0 == "https"@ || p.0 == "http"@);
    assert(p.0 == "http"@ ==> loopback_host(p.1->0));
}

/// Every `https` URL with a host is accepted as a base path.
pub proof fn lemma_https_with_host_accepted(base: Seq<char>, host: Seq<char>)
    requires
        url_parse(base) == Ok::<(Seq<char>, Option<Seq<char>>), Seq<char>>(("https"@, Some(host))),
    ensures
        base_path_ok(base),
{
}

} // verus!
