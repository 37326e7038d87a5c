//! Client configuration: the immutable bundle of credentials, endpoint,
//! timeout, retry budget and identifying string, validated once at
//! construction, plus the builder that assembles it with defaults.

use vstd::prelude::*;
use crate::error::Error;
use crate::urls::absolute_url;
use crate::urls::url_check;

verus! {

/// Configuration for the API client. Created once, immutable thereafter,
/// shared read-only by every facade and by the request engine.
#[derive(Debug, Clone)]
pub struct Config {
    /// Access token for authentication; must be non-empty.
    pub access_token: String,
    /// Base URL for the API; must parse as an absolute URL.
    pub base_url: String,
    /// Request timeout, in milliseconds.
    pub timeout_ms: u64,
    /// Maximum number of retries after the first attempt.
    pub max_retries: u32,
    /// User agent string sent with every request.
    pub user_agent: String,
}

/// `base` guaranteed to end with a path separator: unchanged when it already
/// does, with `/` appended otherwise.
pub open spec fn spec_normalized_base(base: Seq<char>) -> Seq<char> {
    if base.len() > 0 && base[base.len() - 1] == '/' {
        base
    } else {
        base.push('/')
    }
}

impl Config {
    /// The configuration invariant: token and base URL non-empty, and the
    /// base URL absolute.
    pub open spec fn spec_valid(self) -> bool {
        self.access_token@.len() > 0 && self.base_url@.len() > 0 && absolute_url(self.base_url@)
    }

    /// Start building a configuration.
    pub fn builder() -> (b: ConfigBuilder)
        ensures
            b == ConfigBuilder::spec_empty(),
    {
        ConfigBuilder::new()
    }

    /// Check the configuration: `Ok` exactly when the invariant holds, and
    /// otherwise the configuration error for the first check that fails.
    pub fn validate(&self) -> (r: Result<(), Error>)
        ensures
            r is Ok <==> self.spec_valid(),
            self.access_token@.len() == 0 ==> (r matches Err(e) && e matches Error::Config {
                message,
            } && message@ == "access token is required"@),
            self.access_token@.len() > 0 && self.base_url@.len() == 0 ==> (r matches Err(e) && e
                matches Error::Config { message } && message@ == "base URL is required"@),
            self.access_token@.len() > 0 && self.base_url@.len() > 0 && !absolute_url(
                self.base_url@,
            ) ==> (r matches Err(e) && e matches Error::Config { message } && message@.len()
                >= "invalid base URL: "@.len() && message@.subrange(
                0,
                "invalid base URL: "@.len() as int,
            ) == "invalid base URL: "@),
    {
        if self.access_token.as_str().is_empty() {
            return Err(Error::Config { message: String::from_str("access token is required") });
        }
        if self.base_url.as_str().is_empty() {
            return Err(Error::Config { message: String::from_str("base URL is required") });
        }
        match url_check(self.base_url.as_str()) {
            None => Ok(()),
            Some(detail) => {
                let mut message = String::from_str("invalid base URL: ");
                message.append(detail.as_str());
                proof {
                    assert(message@.subrange(0, "invalid base URL: "@.len() as int)
                        =~= "invalid base URL: "@);
                }
                Err(Error::Config { message })
            },
        }
    }

    /// The base URL normalized to end with a path separator.
    pub fn normalized_base_url(&self) -> (r: String)
        ensures
            r@ == spec_normalized_base(self.base_url@),
    {
        let n = self.base_url.as_str().unicode_len();
        if n > 0 && self.base_url.as_str().get_char(n - 1) == '/' {
            self.base_url.clone()
        } else {
            let mut r = self.base_url.clone();
            r.append("/");
            proof {
                reveal_strlit("/");
                assert(r@ =~= spec_normalized_base(self.base_url@));
            }
            r
        }
    }
}

/// Builder for `Config`: each unset field takes its documented default at
/// `build` time.
#[derive(Debug)]
pub struct ConfigBuilder {
    /// Access token, defaulting to the empty string (which `build` rejects).
    pub access_token: Option<String>,
    /// Base URL, defaulting to the local desktop service endpoint.
    pub base_url: Option<String>,
    /// Timeout in milliseconds, defaulting to 30 seconds.
    pub timeout_ms: Option<u64>,
    /// Retry budget, defaulting to 2.
    pub max_retries: Option<u32>,
    /// User agent, defaulting to the library's own identifying string.
    pub user_agent: Option<String>,
}

impl ConfigBuilder {
    /// The builder with nothing set.
    pub open spec fn spec_empty() -> ConfigBuilder {
        ConfigBuilder {
            access_token: None,
            base_url: None,
            timeout_ms: None,
            max_retries: None,
            user_agent: None,
        }
    }

    /// Create a builder with nothing set.
    pub fn new() -> (b: Self)
        ensures
            b == Self::spec_empty(),
    {
        ConfigBuilder {
            access_token: None,
            base_url: None,
            timeout_ms: None,
            max_retries: None,
            user_agent: None,
        }
    }

    /// Set the access token.
    pub fn access_token(self, token: String) -> (b: Self)
        ensures
            b == (ConfigBuilder { access_token: Some(token), ..self }),
    {
        ConfigBuilder { access_token: Some(token), ..self }
    }

    /// Set the base URL.
    pub fn base_url(self, u: String) -> (b: Self)
        ensures
            b == (ConfigBuilder { base_url: Some(u), ..self }),
    {
        ConfigBuilder { base_url: Some(u), ..self }
    }

    /// Set the request timeout, in milliseconds.
    pub fn timeout(self, timeout_ms: u64) -> (b: Self)
        ensures
            b == (ConfigBuilder { timeout_ms: Some(timeout_ms), ..self }),
    {
        ConfigBuilder { timeout_ms: Some(timeout_ms), ..self }
    }

    /// Set the maximum number of retries.
    pub fn max_retries(self, retries: u32) -> (b: Self)
        ensures
            b == (ConfigBuilder { max_retries: Some(retries), ..self }),
    {
        ConfigBuilder { max_retries: Some(retries), ..self }
    }

    /// Set the user agent string.
    pub fn user_agent(self, agent: String) -> (b: Self)
        ensures
            b == (ConfigBuilder { user_agent: Some(agent), ..self }),
    {
        ConfigBuilder { user_agent: Some(agent), ..self }
    }

    /// The token `build` settles on: the one set, else empty.
    pub open spec fn spec_chosen_token(self) -> Seq<char> {
        match self.access_token {
            Some(t) => t@,
            None => Seq::empty(),
        }
    }

    /// The base URL `build` settles on: the one set, else the default local
    /// desktop service endpoint.
    pub open spec fn spec_chosen_base(self) -> Seq<char> {
        match self.base_url {
            Some(u) => u@,
            None => "http://localhost:23373"@,
        }
    }

    /// The user agent `build` settles on: the one set, else the library's
    /// identifying string.
    pub open spec fn spec_chosen_agent(self) -> Seq<char> {
        match self.user_agent {
            Some(a) => a@,
            None => "beeper-desktop-api-rust/0.1.0"@,
        }
    }

    /// Assemble and validate the configuration: every unset field takes its
    /// default, and the result is `Ok` exactly when the assembled
    /// configuration satisfies the invariant.
    pub fn build(self) -> (r: Result<Config, Error>)
        ensures
            r matches Ok(c) ==> c.access_token@ == self.spec_chosen_token() && c.base_url@
                == self.spec_chosen_base() && c.user_agent@ == self.spec_chosen_agent()
                && c.timeout_ms == (match self.timeout_ms {
                Some(t) => t,
                None => 30000u64,
            }) && c.max_retries == (match self.max_retries {
                Some(m) => m,
                None => 2u32,
            }) && c.spec_valid(),
            r is Ok <==> (self.spec_chosen_token().len() > 0 && self.spec_chosen_base().len() > 0
                && absolute_url(self.spec_chosen_base())),
            r matches Err(e) ==> e matches Error::Config { .. },
    {
        let access_token = match self.access_token {
            Some(t) => t,
            None => String::new(),
        };
        let base_url = match self.base_url {
            Some(u) => u,
            None => String::from_str("http://localhost:23373"),
        };
        let user_agent = match self.user_agent {
            Some(a) => a,
            None => String::from_str("beeper-desktop-api-rust/0.1.0"),
        };
        let timeout_ms = match self.timeout_ms {
            Some(t) => t,
            None => 30000,
        };
        let max_retries = match self.max_retries {
            Some(m) => m,
            None => 2,
        };
        let config = Config { access_token, base_url, timeout_ms, max_retries, user_agent };
        match config.validate() {
            Ok(()) => Ok(config),
            Err(e) => Err(e),
        }
    }
}

impl Default for ConfigBuilder {
    /// The builder with nothing set.
    fn default() -> (b: Self)
        ensures
            b == Self::spec_empty(),
    {
        Self::new()
    }
}

} // verus!
