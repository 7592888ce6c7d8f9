//! Configuration: the engine's static settings, the service's resolved
//! options, and the secret wrapper.
//!
//! Reading files, the environment and TOML happens in the service around
//! the library; the defaulting and validation rules that give those raw
//! values their meaning are all here.

use vstd::prelude::*;
use vstd::string::StringExecFns;

use crate::error::DeepResearchError;
use crate::strutil::{
    ascii_lowered, clone_opt_string, spec_is_blank, is_blank, spec_trim, str_eq, trim,
};

verus! {

/// A sensitive value, kept out of ordinary rendering.
pub struct SecretValue {
    value: String,
}

impl SecretValue {
    /// Wrap a secret read from the environment.
    pub fn new(value: String) -> (r: Self)
        ensures
            r.spec_value() == value@,
    {
        SecretValue { value }
    }

    pub closed spec fn spec_value(&self) -> Seq<char> {
        self.value@
    }

    /// The wrapped secret, for the one place that must use it.
    pub fn expose(&self) -> (r: &str)
        ensures
            r@ == self.spec_value(),
    {
        self.value.as_str()
    }
}

/// The language-model binding: provider, model, and the name of the
/// environment variable carrying the key.
#[derive(Debug)]
pub struct LlmConfig {
    pub provider: String,
    pub model: String,
    pub api_key_env: String,
}

/// The dense index connection.
#[derive(Debug)]
pub struct QdrantConfig {
    pub url: String,
    pub collection: String,
}

/// Planner limits; the confidence threshold is in hundredths.
#[derive(Debug, Clone, Copy, PartialEq, Eq, Structural)]
pub struct PlannerConfig {
    pub max_iterations: u16,
    pub confidence_threshold_hundredths: u32,
}

/// Fact-check settings as configured; the floor is in hundredths.
#[derive(Debug, Clone, Copy, PartialEq, Eq, Structural)]
pub struct FactcheckConfig {
    pub min_confidence_hundredths: u32,
    pub verification_count: u8,
    pub timeout_ms: u64,
}

impl Default for FactcheckConfig {
    /// A 0.75 floor, three verified sources, and a generous timeout.
    fn default() -> (r: Self)
        ensures
            r.min_confidence_hundredths == 75,
            r.verification_count == 3,
            r.timeout_ms == 20000,
    {
        FactcheckConfig { min_confidence_hundredths: 75, verification_count: 3, timeout_ms: 20000 }
    }
}

/// Log verbosity.
#[derive(Debug)]
pub struct LoggingConfig {
    pub level: String,
}

/// The engine's static configuration.
#[derive(Debug)]
pub struct Config {
    pub llm: LlmConfig,
    pub qdrant: QdrantConfig,
    pub planner: PlannerConfig,
    pub factcheck: FactcheckConfig,
    pub logging: LoggingConfig,
}

/// Guard rails for loading a configuration. Reading and decoding the file
/// happens in the service; validation of the decoded values is here.
pub struct ConfigLoader;

impl ConfigLoader {
    /// A configuration is rejected exactly when it does not reference an
    /// environment variable for the key. Whether that variable is set is
    /// checked where the environment is read.
    pub fn validate(config: &Config) -> (r: Result<(), DeepResearchError>)
        ensures
            r is Ok <==> !spec_is_blank(config.llm.api_key_env@),
    {
        if is_blank(config.llm.api_key_env.as_str()) {
            Result::Err(
                DeepResearchError::InvalidConfiguration(
                    "llm.api_key_env must reference an environment variable".to_owned(),
                ),
            )
        } else {
            Result::Ok(())
        }
    }
}

/// Which session storage the service runs on.
#[derive(Debug)]
pub enum StorageBackend {
    InMemory,
    Postgres { url: String },
}

/// Lenient boolean parsing: `1`, `true`, `yes`, `on` and their opposites,
/// after trimming and ASCII lowercasing; anything else is no answer.
pub open spec fn spec_parse_bool(input: Seq<char>) -> Option<bool> {
    let t = ascii_lowered(spec_trim(input));
    if t == "1"@ || t == "true"@ || t == "yes"@ || t == "on"@ {
        Option::Some(true)
    } else if t == "0"@ || t == "false"@ || t == "no"@ || t == "off"@ {
        Option::Some(false)
    } else {
        Option::None
    }
}

pub fn parse_bool(input: &str) -> (r: Option<bool>)
    ensures
        r == spec_parse_bool(input@),
{
    let t0 = trim(input);
    let t = crate::strutil::to_ascii_lowercase(t0.as_str());
    if str_eq(t.as_str(), "1") || str_eq(t.as_str(), "true") || str_eq(t.as_str(), "yes")
        || str_eq(t.as_str(), "on") {
        Option::Some(true)
    } else if str_eq(t.as_str(), "0") || str_eq(t.as_str(), "false") || str_eq(t.as_str(), "no")
        || str_eq(t.as_str(), "off") {
        Option::Some(false)
    } else {
        Option::None
    }
}

/// A trimmed value, dropped when it is empty.
pub open spec fn spec_opt_trimmed(v: Option<Seq<char>>) -> Option<Seq<char>> {
    match v {
        Option::Some(s) => if spec_trim(s).len() > 0 {
            Option::Some(spec_trim(s))
        } else {
            Option::None
        },
        Option::None => Option::None,
    }
}

fn opt_trimmed(v: &Option<String>) -> (r: Option<String>)
    ensures
        (r is Some <==> spec_opt_trimmed(
            match v {
                Option::Some(s) => Option::Some(s@),
                Option::None => Option::None,
            },
        ) is Some),
        r is Some ==> r->0@ == spec_opt_trimmed(
            match v {
                Option::Some(s) => Option::Some(s@),
                Option::None => Option::None,
            },
        )->0,
{
    match v {
        Option::Some(s) => {
            let t = trim(s.as_str());
            if t.as_str().unicode_len() > 0 {
                Option::Some(t)
            } else {
                Option::None
            }
        },
        Option::None => Option::None,
    }
}

/// The service's resolved options.
#[derive(Debug)]
pub struct AppConfig {
    pub listen_addr: String,
    pub max_concurrency: usize,
    pub default_enable_trace: bool,
    pub assets_dir: String,
    pub gui_enabled: bool,
    pub auth_token: Option<String>,
    pub storage: StorageBackend,
    pub session_namespace: Option<String>,
    pub otel_endpoint: Option<String>,
}

impl AppConfig {
    /// Resolve the service options from the raw values the environment
    /// supplied: addresses default, concurrency falls back to the
    /// hardware parallelism (or four), tracing defaults on, blank tokens
    /// and namespaces are dropped, and a configured auth token forces the
    /// interface on.
    pub fn resolve(
        listen_addr: Option<String>,
        max_concurrency: Option<usize>,
        hardware_parallelism: Option<usize>,
        default_enable_trace: Option<bool>,
        assets_dir: Option<String>,
        gui_enabled_raw: Option<String>,
        auth_token: Option<String>,
        storage: StorageBackend,
        session_namespace: Option<String>,
        otel_endpoint: Option<String>,
    ) -> (r: AppConfig)
        ensures
            r.listen_addr@ == match listen_addr {
                Option::Some(a) => a@,
                Option::None => "0.0.0.0:8080"@,
            },
            r.max_concurrency as int == match max_concurrency {
                Option::Some(m) => if m > 0 {
                    m as int
                } else {
                    match hardware_parallelism {
                        Option::Some(h) => if h > 0 {
                            h as int
                        } else {
                            4
                        },
                        Option::None => 4,
                    }
                },
                Option::None => match hardware_parallelism {
                    Option::Some(h) => if h > 0 {
                        h as int
                    } else {
                        4
                    },
                    Option::None => 4,
                },
            },
            r.default_enable_trace == match default_enable_trace {
                Option::Some(b) => b,
                Option::None => true,
            },
            r.assets_dir@ == match assets_dir {
                Option::Some(a) => a@,
                Option::None => "web/dist"@,
            },
            r.gui_enabled == ({
                let parsed = match gui_enabled_raw {
                    Option::Some(s) => spec_parse_bool(s@),
                    Option::None => Option::None,
                };
                let base = match parsed {
                    Option::Some(b) => b,
                    Option::None => false,
                };
                base || spec_opt_trimmed(
                    match auth_token {
                        Option::Some(t) => Option::Some(t@),
                        Option::None => Option::None,
                    },
                ) is Some
            }),
            (r.auth_token is Some <==> spec_opt_trimmed(
                match auth_token {
                    Option::Some(t) => Option::Some(t@),
                    Option::None => Option::None,
                },
            ) is Some),
    {
        let listen = match listen_addr {
            Option::Some(a) => a,
            Option::None => "0.0.0.0:8080".to_owned(),
        };
        let fallback: usize = match hardware_parallelism {
            Option::Some(h) => if h > 0 {
                h
            } else {
                4
            },
            Option::None => 4,
        };
        let cap: usize = match max_concurrency {
            Option::Some(m) => if m > 0 {
                m
            } else {
                fallback
            },
            Option::None => fallback,
        };
        let trace_default = match default_enable_trace {
            Option::Some(b) => b,
            Option::None => true,
        };
        let assets = match assets_dir {
            Option::Some(a) => a,
            Option::None => "web/dist".to_owned(),
        };
        let parsed_gui = match &gui_enabled_raw {
            Option::Some(s) => parse_bool(s.as_str()),
            Option::None => Option::None,
        };
        let gui_base = match parsed_gui {
            Option::Some(b) => b,
            Option::None => false,
        };
        let token = opt_trimmed(&auth_token);
        let gui_enabled = gui_base || token.is_some();
        let namespace = opt_trimmed(&session_namespace);
        let otel = opt_trimmed(&otel_endpoint);
        AppConfig {
            listen_addr: listen,
            max_concurrency: cap,
            default_enable_trace: trace_default,
            assets_dir: assets,
            gui_enabled,
            auth_token: token,
            storage,
            session_namespace: namespace,
            otel_endpoint: otel,
        }
    }
}

} // verus!
