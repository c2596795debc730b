//! Server configuration, the loopback rule shared by every bind decision,
//! and the on-disk locations the control plane owns.
use vstd::prelude::*;

use crate::error::SttError;
use crate::text::{concat, decimal, is_blank, owned, push_decimal, str_eq, trimmed};

verus! {

/// The recognized loopback spellings.
pub open spec fn spec_is_loopback_host(host: Seq<char>) -> bool {
    host == "127.0.0.1"@ || host == "::1"@ || host == "localhost"@
}

/// Whether `host` is one of the recognized loopback spellings
/// (`127.0.0.1`, `::1`, `localhost`). Shared by `ServerConfig::validate`
/// and the managed-runtime bind guardrails, so both layers agree on what
/// counts as "still local".
pub fn is_loopback_host(host: &str) -> (r: bool)
    ensures
        r == spec_is_loopback_host(host@),
{
    str_eq(host, "127.0.0.1") || str_eq(host, "::1") || str_eq(host, "localhost")
}

// ── Paths ───────────────────────────────────────────────────────────

/// `PathBuf::join` of a relative component onto `base` (`/`-separated).
pub open spec fn path_join(base: Seq<char>, part: Seq<char>) -> Seq<char> {
    if base.len() == 0 {
        part
    } else if base.last() == '/' {
        base + part
    } else {
        base + "/"@ + part
    }
}

/// Joins the relative component `part` onto `base`.
pub fn join_path(base: &str, part: &str) -> (r: String)
    ensures
        r@ == path_join(base@, part@),
{
    let v = crate::text::chars_of(base);
    if v.len() == 0 {
        owned(part)
    } else if v[v.len() - 1] == '/' {
        assert(v@.last() == '/');
        concat(base, part)
    } else {
        let mut r = concat(base, "/");
        r.append(part);
        r
    }
}

/// The user's local data directory (`dirs::data_local_dir`), rendered as
/// a string. Depends on the platform and the environment
/// (`$XDG_DATA_HOME`, `$HOME`, the Windows known-folder API), so nothing
/// is promised about the value.
#[verifier::external_body]
fn data_local_dir() -> (r: Option<String>) {
    dirs::data_local_dir().map(|p| p.to_string_lossy().to_string())
}

/// The data root for a given user data directory (`.` when there is none).
pub open spec fn data_root_spec(base: Option<Seq<char>>) -> Seq<char> {
    path_join(
        match base {
            Some(b) => b,
            None => "."@,
        },
        "stt-server"@,
    )
}

pub open spec fn opt_view(o: Option<String>) -> Option<Seq<char>> {
    match o {
        Some(s) => Some(s@),
        None => None,
    }
}

/// `<base>/stt-server`, or `./stt-server` when no user data directory is
/// known: the root of every on-disk artifact the control plane manages.
pub fn data_root_under(base: Option<String>) -> (r: String)
    ensures
        r@ == data_root_spec(opt_view(base)),
{
    match base {
        Some(b) => join_path(b.as_str(), "stt-server"),
        None => join_path(".", "stt-server"),
    }
}

/// `<data root>/models`.
pub fn model_dir_under(base: Option<String>) -> (r: String)
    ensures
        r@ == path_join(data_root_spec(opt_view(base)), "models"@),
{
    let root = data_root_under(base);
    join_path(root.as_str(), "models")
}

/// `<data root>/runtimes`.
pub fn runtime_cache_dir_under(base: Option<String>) -> (r: String)
    ensures
        r@ == path_join(data_root_spec(opt_view(base)), "runtimes"@),
{
    let root = data_root_under(base);
    join_path(root.as_str(), "runtimes")
}

/// Root of every on-disk artifact the control plane manages: the user's
/// local data directory joined with `stt-server`.
pub fn default_data_root() -> (r: String)
    ensures
        exists|b: Option<Seq<char>>| r@ == data_root_spec(b),
{
    let base = data_local_dir();
    let r = data_root_under(base);
    assert(r@ == data_root_spec(opt_view(base)));
    r
}

/// Default model directory: `<data root>/models`.
pub fn default_model_dir() -> (r: String)
    ensures
        exists|b: Option<Seq<char>>| r@ == path_join(data_root_spec(b), "models"@),
{
    let base = data_local_dir();
    let r = model_dir_under(base);
    assert(r@ == path_join(data_root_spec(opt_view(base)), "models"@));
    r
}

/// Where downloaded managed-runtime artifacts are cached:
/// `<data root>/runtimes`.
pub fn default_runtime_cache_dir() -> (r: String)
    ensures
        exists|b: Option<Seq<char>>| r@ == path_join(data_root_spec(b), "runtimes"@),
{
    let base = data_local_dir();
    let r = runtime_cache_dir_under(base);
    assert(r@ == path_join(data_root_spec(opt_view(base)), "runtimes"@));
    r
}

/// The model directory and the runtime cache both sit directly under the
/// same data root, whatever the user's data directory is.
pub proof fn law_model_and_runtime_dirs_share_the_data_root(base: Option<Seq<char>>)
    ensures
        path_join(data_root_spec(base), "models"@) == data_root_spec(base) + "/models"@,
        path_join(data_root_spec(base), "runtimes"@) == data_root_spec(base) + "/runtimes"@,
{
    let b = match base {
        Some(b) => b,
        None => "."@,
    };
    reveal_strlit("stt-server");
    reveal_strlit("/");
    reveal_strlit("models");
    reveal_strlit("/models");
    reveal_strlit("runtimes");
    reveal_strlit("/runtimes");
    let root = data_root_spec(base);
    let tail = "stt-server"@;
    assert(tail.last() == 'r');
    if b.len() == 0 {
        assert(root == tail);
    } else if b.last() == '/' {
        assert((b + tail).last() == tail.last());
    } else {
        assert((b + "/"@ + tail).last() == tail.last());
    }
    assert(root.len() > 0 && root.last() == 'r');
    assert(root + "/"@ + "models"@ =~= root + "/models"@);
    assert(root + "/"@ + "runtimes"@ =~= root + "/runtimes"@);
}

/// Environment variable that overrides the data root.
pub const DATA_ROOT_ENV_VAR: &'static str = "STT_DATA_ROOT";

/// The data root actually in effect: the override (when the environment
/// sets one) or the default root.
pub fn resolved_data_root(env_override: Option<String>) -> (r: String)
    ensures
        match env_override {
            Some(o) => r@ == o@,
            None => exists|b: Option<Seq<char>>| r@ == data_root_spec(b),
        },
{
    match env_override {
        Some(o) => o,
        None => default_data_root(),
    }
}

// ── Server configuration ────────────────────────────────────────────

/// Server configuration.
pub struct ServerConfig {
    /// Host to bind to. Loopback by default; a non-loopback value requires
    /// `allow_remote` and a non-empty `auth_token`.
    pub host: String,
    pub port: u16,
    pub model_dir: String,
    pub default_model: Option<String>,
    /// Maximum concurrent transcription sessions.
    pub max_sessions: usize,
    pub log_level: String,
    /// Explicit opt-in required to bind a non-loopback host.
    pub allow_remote: bool,
    /// Required (and required to be non-empty) when binding non-loopback;
    /// callers present it as `Authorization: Bearer <token>`.
    pub auth_token: Option<String>,
}

/// Whether an optional token is absent or empty.
pub open spec fn token_is_empty(t: Option<String>) -> bool {
    match t {
        Some(s) => s@.len() == 0,
        None => true,
    }
}

/// The configuration is acceptable: loopback, or remote binding that is
/// both explicitly allowed and authenticated; a non-zero port; at least
/// one session.
pub open spec fn config_valid(c: ServerConfig) -> bool {
    &&& (spec_is_loopback_host(c.host@) || (c.allow_remote && !token_is_empty(c.auth_token)))
    &&& c.port != 0
    &&& c.max_sessions != 0
}

impl ServerConfig {
    /// `127.0.0.1:8080`, the default model directory, no default model,
    /// 16 sessions, `info` logging, no remote binding, no token.
    pub fn default() -> (r: ServerConfig)
        ensures
            r.host@ == "127.0.0.1"@,
            r.port == 8080,
            exists|b: Option<Seq<char>>| r.model_dir@ == path_join(data_root_spec(b), "models"@),
            r.default_model.is_none(),
            r.max_sessions == 16,
            r.log_level@ == "info"@,
            !r.allow_remote,
            r.auth_token.is_none(),
    {
        ServerConfig {
            host: owned("127.0.0.1"),
            port: 8080,
            model_dir: default_model_dir(),
            default_model: None,
            max_sessions: 16,
            log_level: owned("info"),
            allow_remote: false,
            auth_token: None,
        }
    }

    /// Rejects non-loopback binding unless `allow_remote` is set and a
    /// non-empty `auth_token` is present, then a zero port, then zero
    /// sessions, in that order; every rejection is a `ConfigError`.
    pub fn validate(&self) -> (r: Result<(), SttError>)
        ensures
            r.is_ok() == config_valid(*self),
            match r {
                Ok(_) => true,
                Err(SttError::ConfigError(m)) => {
                    if !spec_is_loopback_host(self.host@) && !self.allow_remote {
                        m@ == "non-loopback host '"@ + self.host@
                            + "' requires --allow-remote to be set explicitly"@
                    } else if !spec_is_loopback_host(self.host@) && token_is_empty(
                        self.auth_token,
                    ) {
                        m@ == "non-loopback binding requires a non-empty --auth-token"@
                    } else if self.port == 0 {
                        m@ == "port cannot be 0"@
                    } else {
                        m@ == "max_sessions cannot be 0"@
                    }
                },
                Err(_) => false,
            },
    {
        let is_loopback = is_loopback_host(self.host.as_str());
        if !is_loopback {
            if !self.allow_remote {
                let mut m = concat("non-loopback host '", self.host.as_str());
                m.append("' requires --allow-remote to be set explicitly");
                return Err(SttError::ConfigError(m));
            }
            let empty = match &self.auth_token {
                Some(t) => t.as_str().is_empty(),
                None => true,
            };
            if empty {
                return Err(
                    SttError::ConfigError(
                        owned("non-loopback binding requires a non-empty --auth-token"),
                    ),
                );
            }
        }
        if self.port == 0 {
            return Err(SttError::ConfigError(owned("port cannot be 0")));
        }
        if self.max_sessions == 0 {
            return Err(SttError::ConfigError(owned("max_sessions cannot be 0")));
        }
        Ok(())
    }

    /// `host:port`.
    pub fn listen_addr(&self) -> (r: String)
        ensures
            r@ == self.host@ + ":"@ + decimal(self.port as nat),
    {
        let mut r = concat(self.host.as_str(), ":");
        push_decimal(&mut r, self.port as u64);
        r
    }
}

} // verus!
