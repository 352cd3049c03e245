//! Layered configuration: built-in defaults, then the config file, then the
//! environment, then command-line flags. Reading the file and the
//! environment is the caller's part; this module decides what wins.
use vstd::prelude::*;

use crate::domain::execution::copy_opt_string;
use crate::text::{chars_of, copy_str, push_str, trim_end_char, trim_end_matches};

verus! {

/// The instance URL used when nothing else sets one.
pub open spec fn default_api_url() -> Seq<char> {
    "http://localhost:5678"@
}

/// Settings of the dashboard.
#[derive(Debug)]
pub struct Config {
    pub api_url: String,
    pub api_key: String,
    pub project_id: Option<String>,
    pub page_size: u32,
    pub log_level: String,
}

/// The abstract content of the settings.
pub struct ConfigView {
    pub api_url: Seq<char>,
    pub api_key: Seq<char>,
    pub project_id: Option<Seq<char>>,
    pub page_size: u32,
    pub log_level: Seq<char>,
}

impl View for Config {
    type V = ConfigView;

    open spec fn view(&self) -> ConfigView {
        ConfigView {
            api_url: self.api_url@,
            api_key: self.api_key@,
            project_id: match self.project_id {
                Some(p) => Some(p@),
                None => None,
            },
            page_size: self.page_size,
            log_level: self.log_level@,
        }
    }
}

/// Items fetched per page unless configured otherwise.
pub fn default_page_size() -> (r: u32)
    ensures
        r == 50,
{
    50
}

/// The log level used unless configured otherwise.
pub fn default_log_level() -> (r: String)
    ensures
        r@ == "warn"@,
{
    copy_str("warn")
}

/// The built-in settings.
pub open spec fn default_config() -> ConfigView {
    ConfigView {
        api_url: default_api_url(),
        api_key: Seq::empty(),
        project_id: None,
        page_size: 50,
        log_level: "warn"@,
    }
}

impl Default for Config {
    fn default() -> (r: Self)
        ensures
            r@ == default_config(),
    {
        Config {
            api_url: copy_str("http://localhost:5678"),
            api_key: String::new(),
            project_id: None,
            page_size: default_page_size(),
            log_level: default_log_level(),
        }
    }
}

/// `base` with the settings that `other` sets: a URL other than the empty
/// or the built-in one, a non-empty key, a project, a page size other than
/// the built-in one, and a log level other than the empty or the built-in
/// one.
pub open spec fn merged(base: ConfigView, other: ConfigView) -> ConfigView {
    ConfigView {
        api_url: if other.api_url.len() > 0 && other.api_url != default_api_url() {
            other.api_url
        } else {
            base.api_url
        },
        api_key: if other.api_key.len() > 0 {
            other.api_key
        } else {
            base.api_key
        },
        project_id: if other.project_id is Some {
            other.project_id
        } else {
            base.project_id
        },
        page_size: if other.page_size != 50 {
            other.page_size
        } else {
            base.page_size
        },
        log_level: if other.log_level.len() > 0 && other.log_level != "warn"@ {
            other.log_level
        } else {
            base.log_level
        },
    }
}

// ─── Reading a page size ────────────────────────────────────────────────────
/// The value of a run of decimal digits.
pub open spec fn digits_value(s: Seq<char>) -> nat
    decreases s.len(),
{
    if s.len() == 0 {
        0
    } else {
        digits_value(s.drop_last()) * 10 + (s.last() as u32 - '0' as u32) as nat
    }
}

/// Every character is a decimal digit.
pub open spec fn all_digits(s: Seq<char>) -> bool {
    forall|i: int| 0 <= i < s.len() ==> '0' <= #[trigger] s[i] <= '9'
}

/// The unsigned 32-bit number that `s` writes: an optional `+`, then one
/// or more decimal digits, of a value that fits.
pub open spec fn parsed_u32(s: Seq<char>) -> Option<u32> {
    let body = if s.len() > 0 && s[0] == '+' {
        s.drop_first()
    } else {
        s
    };
    if body.len() > 0 && all_digits(body) && digits_value(body) <= u32::MAX {
        Some(digits_value(body) as u32)
    } else {
        None
    }
}

/// Reads an unsigned 32-bit number as `str::parse::<u32>` does.
pub fn parse_u32(s: &str) -> (r: Option<u32>)
    ensures
        r == parsed_u32(s@),
{
    let all = chars_of(s);
    let start: usize = if all.len() > 0 && all[0] == '+' {
        1
    } else {
        0
    };
    let ghost body = if s@.len() > 0 && s@[0] == '+' {
        s@.drop_first()
    } else {
        s@
    };
    if start >= all.len() {
        proof {
            assert(body.len() == 0);
        }
        return None;
    }
    let mut acc: u64 = 0;
    let mut i: usize = start;
    while i < all.len()
        invariant
            all@ == s@,
            start <= i <= all.len(),
            body == all@.skip(start as int),
            body == (if s@.len() > 0 && s@[0] == '+' {
                s@.drop_first()
            } else {
                s@
            }),
            acc <= u32::MAX ==> acc == digits_value(body.take(i - start)),
            acc > u32::MAX ==> digits_value(body.take(i - start)) > u32::MAX,
            acc <= u32::MAX + 1,
            all_digits(body.take(i - start)),
        decreases all.len() - i,
    {
        let c = all[i];
        if c < '0' || c > '9' {
            proof {
                assert(body[i - start] == all@[i as int]);
                assert(!('0' <= body[i - start] <= '9'));
                assert(!all_digits(body));
            }
            return None;
        }
        proof {
            let k = (i - start) as int;
            assert(body.take(k + 1).drop_last() =~= body.take(k));
            assert(body.take(k + 1).last() == c);
        }
        if acc <= u32::MAX as u64 {
            acc = acc * 10 + (c as u32 - '0' as u32) as u64;
            if acc > u32::MAX as u64 {
                acc = u32::MAX as u64 + 1;
            }
        }
        i = i + 1;
        proof {
            let k = (i - start) as int;
            assert forall|j: int| 0 <= j < k implies '0' <= #[trigger] body.take(k)[j] <= '9' by {
                if j < k - 1 {
                    assert(body.take(k)[j] == body.take(k - 1)[j]);
                }
            }
        }
    }
    proof {
        assert(body.take(body.len() as int) =~= body);
    }
    if acc > u32::MAX as u64 {
        None
    } else {
        Some(acc as u32)
    }
}

// ─── Layering ───────────────────────────────────────────────────────────────
/// What the environment sets: `N8N_API_URL`, `N8N_API_KEY`,
/// `N8N_PROJECT_ID` and `N8N_PAGE_SIZE`, each when present.
#[derive(Debug)]
pub struct ConfigEnv {
    pub api_url: Option<String>,
    pub api_key: Option<String>,
    pub project_id: Option<String>,
    pub page_size: Option<String>,
}

/// The characters of an optional string.
pub open spec fn opt_view(o: Option<String>) -> Option<Seq<char>> {
    match o {
        Some(s) => Some(s@),
        None => None,
    }
}

/// `c` with what the environment sets; a page size that does not read as a
/// number is ignored.
pub open spec fn with_env(c: ConfigView, env: ConfigEnv) -> ConfigView {
    ConfigView {
        api_url: match env.api_url {
            Some(u) => u@,
            None => c.api_url,
        },
        api_key: match env.api_key {
            Some(k) => k@,
            None => c.api_key,
        },
        project_id: match env.project_id {
            Some(p) => Some(p@),
            None => c.project_id,
        },
        page_size: match env.page_size {
            Some(t) => match parsed_u32(t@) {
                Some(n) => n,
                None => c.page_size,
            },
            None => c.page_size,
        },
        log_level: c.log_level,
    }
}

/// `c` with what the command line sets.
pub open spec fn with_flags(
    c: ConfigView,
    url: Option<Seq<char>>,
    key: Option<Seq<char>>,
    project: Option<Seq<char>>,
) -> ConfigView {
    ConfigView {
        api_url: match url {
            Some(u) => u,
            None => c.api_url,
        },
        api_key: match key {
            Some(k) => k,
            None => c.api_key,
        },
        project_id: match project {
            Some(p) => Some(p),
            None => c.project_id,
        },
        ..c
    }
}

/// The settings in force: defaults, overridden by the file, the
/// environment and the command line in that order, with trailing slashes
/// taken off the URL.
pub open spec fn layered(
    file: Option<ConfigView>,
    env: ConfigEnv,
    url: Option<Seq<char>>,
    key: Option<Seq<char>>,
    project: Option<Seq<char>>,
) -> ConfigView {
    let c1 = match file {
        Some(f) => merged(default_config(), f),
        None => default_config(),
    };
    let c3 = with_flags(with_env(c1, env), url, key, project);
    ConfigView { api_url: trim_end_char(c3.api_url, '/'), ..c3 }
}

/// Why the settings cannot be used.
#[derive(Debug, Clone, Copy, PartialEq, Eq, Structural)]
pub enum ConfigError {
    MissingApiKey,
    MissingApiUrl,
}

impl ConfigError {
    /// The message shown for the error; `hint` names the config file.
    pub fn message(&self, hint: &str) -> (r: String)
        ensures
            r@ == match *self {
                ConfigError::MissingApiKey => "No API key configured.\nSet N8N_API_KEY environment variable, or add api_key to "@
                    + hint@,
                ConfigError::MissingApiUrl => "No API URL configured."@,
            },
    {
        match self {
            ConfigError::MissingApiKey => {
                let mut s = copy_str(
                    "No API key configured.\nSet N8N_API_KEY environment variable, or add api_key to ",
                );
                push_str(&mut s, hint);
                s
            },
            ConfigError::MissingApiUrl => copy_str("No API URL configured."),
        }
    }
}

fn opt_as_string(o: Option<&str>) -> (r: Option<String>)
    ensures
        opt_view(r) == match o {
            Some(s) => Some(s@),
            None => None::<Seq<char>>,
        },
{
    match o {
        Some(s) => Some(copy_str(s)),
        None => None,
    }
}

impl Config {
    /// Takes over what `other` sets (see `merged`).
    pub fn merge(&mut self, other: Self)
        ensures
            final(self)@ == merged(old(self)@, other@),
    {
        if !other.api_url.as_str().is_empty() && !crate::domain::json::str_eq(
            other.api_url.as_str(),
            "http://localhost:5678",
        ) {
            self.api_url = other.api_url;
        }
        if !other.api_key.as_str().is_empty() {
            self.api_key = other.api_key;
        }
        if other.project_id.is_some() {
            self.project_id = other.project_id;
        }
        if other.page_size != default_page_size() {
            self.page_size = other.page_size;
        }
        if !other.log_level.as_str().is_empty() && !crate::domain::json::str_eq(
            other.log_level.as_str(),
            "warn",
        ) {
            self.log_level = other.log_level;
        }
    }

    /// The settings in force, from the config file's settings (when there
    /// is a file), the environment and the command-line flags.
    pub fn load(
        file: Option<Config>,
        env: &ConfigEnv,
        url_override: Option<&str>,
        key_override: Option<&str>,
        project_override: Option<&str>,
    ) -> (r: Self)
        ensures
            r@ == layered(
                match file {
                    Some(f) => Some(f@),
                    None => None,
                },
                *env,
                match url_override {
                    Some(u) => Some(u@),
                    None => None,
                },
                match key_override {
                    Some(k) => Some(k@),
                    None => None,
                },
                match project_override {
                    Some(p) => Some(p@),
                    None => None,
                },
            ),
    {
        let mut config = Config::default();
        match file {
            Some(f) => config.merge(f),
            None => {},
        }
        match &env.api_url {
            Some(u) => config.api_url = u.clone(),
            None => {},
        }
        match &env.api_key {
            Some(k) => config.api_key = k.clone(),
            None => {},
        }
        match &env.project_id {
            Some(p) => config.project_id = Some(p.clone()),
            None => {},
        }
        match &env.page_size {
            Some(t) => match parse_u32(t.as_str()) {
                Some(n) => config.page_size = n,
                None => {},
            },
            None => {},
        }
        match url_override {
            Some(u) => config.api_url = copy_str(u),
            None => {},
        }
        match key_override {
            Some(k) => config.api_key = copy_str(k),
            None => {},
        }
        match project_override {
            Some(p) => config.project_id = Some(copy_str(p)),
            None => {},
        }
        config.api_url = trim_end_matches(config.api_url.as_str(), '/');
        config
    }

    /// The settings can be used: an API key and an API URL are set.
    pub fn validate(&self) -> (r: Result<(), ConfigError>)
        ensures
            r == if self.api_key@.len() == 0 {
                Err::<(), ConfigError>(ConfigError::MissingApiKey)
            } else if self.api_url@.len() == 0 {
                Err(ConfigError::MissingApiUrl)
            } else {
                Ok(())
            },
    {
        if self.api_key.as_str().is_empty() {
            return Err(ConfigError::MissingApiKey);
        }
        if self.api_url.as_str().is_empty() {
            return Err(ConfigError::MissingApiUrl);
        }
        Ok(())
    }

    /// The base of the REST API: the instance URL with `/api/v1`.
    pub fn base_url(&self) -> (r: String)
        ensures
            r@ == self.api_url@ + "/api/v1"@,
    {
        let mut s = self.api_url.clone();
        push_str(&mut s, "/api/v1");
        s
    }
}

} // verus!
