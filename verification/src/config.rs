//! Configuration resolution: each option may be supplied on the command
//! line or through an environment variable; the command-line value wins,
//! then the environment value, then a built-in default.

use vstd::prelude::*;

use crate::decimal::{all_dec_digits, dec_value, parse_u16};

verus! {

broadcast use vstd::string::group_string_axioms;

pub const DEFAULT_NGINX_HTTP_PORT: u16 = 9392;

pub const DEFAULT_NGINX_HTTPS_PORT: u16 = 443;

/// What the two sources supplied for one string-valued option.
pub struct SuppliedValue {
    pub cli: Option<String>,
    pub env: Option<String>,
}

/// What the two sources supplied for a boolean flag: on the command line
/// the flag is either present or absent; the environment supplies a literal.
pub struct SuppliedFlag {
    pub cli: bool,
    pub env: Option<String>,
}

/// The text that takes effect for an option, before any parsing:
/// the command-line text if there is one, else the environment text.
pub open spec fn supplied_text(v: SuppliedValue) -> Option<Seq<char>> {
    if v.cli is Some {
        Some(v.cli.unwrap()@)
    } else if v.env is Some {
        Some(v.env.unwrap()@)
    } else {
        None
    }
}

/// The value a string option resolves to.
pub open spec fn resolved_string(v: SuppliedValue, default: Seq<char>) -> Seq<char> {
    match supplied_text(v) {
        Some(t) => t,
        None => default,
    }
}

/// A supplied port text must be a non-empty digit string fitting in sixteen
/// bits; an absent one is always acceptable.
pub open spec fn port_is_valid(v: SuppliedValue) -> bool {
    match supplied_text(v) {
        None => true,
        Some(t) => t.len() > 0 && all_dec_digits(t) && dec_value(t) <= 65535,
    }
}

/// The value a port option resolves to, when its supplied text is valid.
pub open spec fn resolved_port(v: SuppliedValue, default: u16) -> u16 {
    match supplied_text(v) {
        None => default,
        Some(t) => dec_value(t) as u16,
    }
}

/// A flag's environment text must be one of the two boolean literals; it is
/// not read at all when the flag stands on the command line.
pub open spec fn flag_is_valid(f: SuppliedFlag) -> bool {
    f.cli || f.env is None || f.env.unwrap()@ == "true"@ || f.env.unwrap()@ == "false"@
}

/// The value a flag resolves to: present on the command line, or the
/// environment text reads "true"; absent everywhere means false.
pub open spec fn resolved_flag(f: SuppliedFlag) -> bool {
    f.cli || (f.env is Some && f.env.unwrap()@ == "true"@)
}

/// Law: for every option, a command-line value overrides the environment
/// value, which overrides the built-in default.
pub proof fn lemma_string_precedence(v: SuppliedValue, default: Seq<char>)
    ensures
        v.cli matches Some(c) ==> resolved_string(v, default) == c@,
        v.cli is None && v.env is Some ==> resolved_string(v, default) == v.env.unwrap()@,
        v.cli is None && v.env is None ==> resolved_string(v, default) == default,
{
}

/// Law: for a port option, a valid command-line value overrides the
/// environment value, which overrides the built-in default.
pub proof fn lemma_port_precedence(v: SuppliedValue, default: u16)
    ensures
        v.cli matches Some(c) ==> resolved_port(v, default) == dec_value(c@) as u16,
        v.cli is None && v.env is Some ==> resolved_port(v, default) == dec_value(
            v.env.unwrap()@,
        ) as u16,
        v.cli is None && v.env is None ==> resolved_port(v, default) == default,
{
}

/// Law: a flag given on the command line is set regardless of the
/// environment; otherwise the environment text decides; absent everywhere,
/// the flag is clear.
pub proof fn lemma_flag_precedence(f: SuppliedFlag)
    ensures
        f.cli ==> resolved_flag(f),
        !f.cli && f.env is Some ==> resolved_flag(f) == (f.env.unwrap()@ == "true"@),
        !f.cli && f.env is None ==> !resolved_flag(f),
{
}

/// Reads a boolean literal: exactly "true" or "false".
pub fn parse_bool(s: &str) -> (r: Option<bool>)
    ensures
        r == Some(true) <==> s@ == "true"@,
        r == Some(false) <==> s@ == "false"@,
{
    proof {
        reveal_strlit("true");
        reveal_strlit("false");
        assert("true"@.len() == 4);
        assert("false"@.len() == 5);
        assert("true"@ != "false"@);
    }
    let owned = s.to_owned();
    if owned == String::from_str("true") {
        Some(true)
    } else if owned == String::from_str("false") {
        Some(false)
    } else {
        None
    }
}

fn resolve_string(v: &SuppliedValue, default: &str) -> (r: String)
    ensures
        r@ == resolved_string(*v, default@),
{
    match &v.cli {
        Some(c) => c.clone(),
        None => match &v.env {
            Some(e) => e.clone(),
            None => String::from_str(default),
        },
    }
}

fn resolve_option(v: &SuppliedValue) -> (r: Option<String>)
    ensures
        r is Some <==> supplied_text(*v) is Some,
        r matches Some(t) ==> t@ == supplied_text(*v).unwrap(),
{
    match &v.cli {
        Some(c) => Some(c.clone()),
        None => match &v.env {
            Some(e) => Some(e.clone()),
            None => None,
        },
    }
}

fn resolve_port(v: &SuppliedValue, default: u16) -> (r: Result<u16, String>)
    ensures
        r is Ok <==> port_is_valid(*v),
        r matches Ok(p) ==> p == resolved_port(*v, default),
        r matches Err(t) ==> supplied_text(*v) is Some && t@ == supplied_text(*v).unwrap(),
{
    let text = match &v.cli {
        Some(c) => Some(c),
        None => match &v.env {
            Some(e) => Some(e),
            None => None,
        },
    };
    match text {
        None => Ok(default),
        Some(t) => match parse_u16(t.as_str()) {
            Some(p) => Ok(p),
            None => Err(t.clone()),
        },
    }
}

fn resolve_flag(f: &SuppliedFlag) -> (r: Result<bool, String>)
    ensures
        r is Ok <==> flag_is_valid(*f),
        r matches Ok(b) ==> b == resolved_flag(*f),
        r matches Err(t) ==> !f.cli && f.env is Some && t@ == f.env.unwrap()@,
{
    if f.cli {
        Ok(true)
    } else {
        match &f.env {
            None => Ok(false),
            Some(e) => match parse_bool(e.as_str()) {
                Some(b) => Ok(b),
                None => Err(e.clone()),
            },
        }
    }
}

/// Everything the two input sources supplied for one invocation.
pub struct NginxArgSources {
    pub destination: SuppliedValue,
    pub source: SuppliedValue,
    pub enable_feed_key_service: SuppliedFlag,
    pub nginx_host: SuppliedValue,
    pub nginx_http_port: SuppliedValue,
    pub nginx_https_port: SuppliedValue,
    pub nginx_server_certificate: SuppliedValue,
    pub nginx_server_key: SuppliedValue,
    pub nginx_access_control_allow_origin_header: SuppliedValue,
    pub nginx_content_security_policy_header: SuppliedValue,
    pub nginx_strict_transport_security_header: SuppliedValue,
    pub nginx_x_frame_options_header: SuppliedValue,
}

impl NginxArgSources {
    /// All supplied values parse: resolution succeeds exactly here.
    pub open spec fn all_valid(self) -> bool {
        &&& port_is_valid(self.nginx_http_port)
        &&& port_is_valid(self.nginx_https_port)
        &&& flag_is_valid(self.enable_feed_key_service)
    }
}

/// Resolution failed on a supplied value that does not parse.
#[derive(Debug)]
pub enum ConfigError {
    InvalidPort { option: String, value: String },
    InvalidFlag { option: String, value: String },
}

impl ConfigError {
    pub open spec fn message_spec(self) -> Seq<char> {
        match self {
            ConfigError::InvalidPort { option, value } => "invalid port value '"@ + value@
                + "' for option '"@ + option@ + "'"@,
            ConfigError::InvalidFlag { option, value } => "invalid boolean value '"@ + value@
                + "' for option '"@ + option@ + "'"@,
        }
    }

    /// One line naming the option and the text that did not parse.
    pub fn message(&self) -> (r: String)
        ensures
            r@ == self.message_spec(),
    {
        match self {
            ConfigError::InvalidPort { option, value } => {
                let mut m = String::from_str("invalid port value '");
                m.append(value.as_str());
                m.append("' for option '");
                m.append(option.as_str());
                m.append("'");
                m
            },
            ConfigError::InvalidFlag { option, value } => {
                let mut m = String::from_str("invalid boolean value '");
                m.append(value.as_str());
                m.append("' for option '");
                m.append(option.as_str());
                m.append("'");
                m
            },
        }
    }
}

/// The tool's one entry point: the subcommand that was invoked.
pub struct Cli {
    pub command: Commands,
}

/// The subcommands the tool offers.
pub enum Commands {
    /// Render nginx templates to a specified destination directory.
    NginxConfig(NginxCommand),
}

/// The resolved configuration: every field has a value.
pub struct NginxCommand {
    pub destination: String,
    pub source: String,
    pub enable_feed_key_service: bool,
    pub nginx_host: String,
    pub nginx_http_port: u16,
    pub nginx_https_port: u16,
    pub nginx_server_certificate: String,
    pub nginx_server_key: String,
    pub nginx_access_control_allow_origin_header: Option<String>,
    pub nginx_content_security_policy_header: String,
    pub nginx_strict_transport_security_header: String,
    pub nginx_x_frame_options_header: String,
}

impl NginxCommand {
    /// Field by field, this configuration is what the sources resolve to.
    pub open spec fn is_resolution_of(self, s: NginxArgSources) -> bool {
        &&& self.destination@ == resolved_string(s.destination, "out"@)
        &&& self.source@ == resolved_string(s.source, "templates"@)
        &&& self.enable_feed_key_service == resolved_flag(s.enable_feed_key_service)
        &&& self.nginx_host@ == resolved_string(s.nginx_host, "localhost"@)
        &&& self.nginx_http_port == resolved_port(s.nginx_http_port, DEFAULT_NGINX_HTTP_PORT)
        &&& self.nginx_https_port == resolved_port(s.nginx_https_port, DEFAULT_NGINX_HTTPS_PORT)
        &&& self.nginx_server_certificate@ == resolved_string(
            s.nginx_server_certificate,
            "/etc/nginx/certs/server.cert.pem"@,
        )
        &&& self.nginx_server_key@ == resolved_string(
            s.nginx_server_key,
            "/etc/nginx/certs/server.key"@,
        )
        &&& (self.nginx_access_control_allow_origin_header is Some <==> supplied_text(
            s.nginx_access_control_allow_origin_header,
        ) is Some)
        &&& (self.nginx_access_control_allow_origin_header matches Some(v) ==> v@ == supplied_text(
            s.nginx_access_control_allow_origin_header,
        ).unwrap())
        &&& self.nginx_content_security_policy_header@ == resolved_string(
            s.nginx_content_security_policy_header,
            "default-src 'none'; object-src 'none'; base-uri 'none'; connect-src 'self'; script-src 'self'; script-src-elem 'self' 'unsafe-inline';frame-ancestors 'none'; form-action 'self'; style-src-elem 'self' 'unsafe-inline'; style-src 'self' 'unsafe-inline'; font-src 'self';img-src 'self' blob: data:;"@,
        )
        &&& self.nginx_strict_transport_security_header@ == resolved_string(
            s.nginx_strict_transport_security_header,
            "max-age=31536000; includeSubDomains;"@,
        )
        &&& self.nginx_x_frame_options_header@ == resolved_string(
            s.nginx_x_frame_options_header,
            "SAMEORIGIN"@,
        )
    }

    /// The error resolution owes for these sources: the first supplied value
    /// that does not parse, checked in the order http port, https port, flag.
    pub open spec fn is_resolution_error_for(e: ConfigError, s: NginxArgSources) -> bool {
        if !port_is_valid(s.nginx_http_port) {
            &&& e matches ConfigError::InvalidPort { option, value }
            &&& option@ == "nginx-http-port"@
            &&& value@ == supplied_text(s.nginx_http_port).unwrap()
        } else if !port_is_valid(s.nginx_https_port) {
            &&& e matches ConfigError::InvalidPort { option, value }
            &&& option@ == "nginx-https-port"@
            &&& value@ == supplied_text(s.nginx_https_port).unwrap()
        } else {
            &&& !flag_is_valid(s.enable_feed_key_service)
            &&& e matches ConfigError::InvalidFlag { option, value }
            &&& option@ == "enable-feed-key-service"@
            &&& value@ == s.enable_feed_key_service.env.unwrap()@
        }
    }

    /// Resolves the configuration from what the two sources supplied:
    /// succeeds exactly when every supplied value parses, and then every
    /// field holds the command-line value, else the environment value, else
    /// the built-in default.
    pub fn resolve(sources: &NginxArgSources) -> (r: Result<NginxCommand, ConfigError>)
        ensures
            r is Ok <==> sources.all_valid(),
            r matches Ok(cmd) ==> cmd.is_resolution_of(*sources),
            r matches Err(e) ==> Self::is_resolution_error_for(e, *sources),
    {
        let nginx_http_port = match resolve_port(&sources.nginx_http_port, DEFAULT_NGINX_HTTP_PORT) {
            Ok(p) => p,
            Err(value) => {
                return Err(
                    ConfigError::InvalidPort { option: String::from_str("nginx-http-port"), value },
                );
            },
        };
        let nginx_https_port = match resolve_port(
            &sources.nginx_https_port,
            DEFAULT_NGINX_HTTPS_PORT,
        ) {
            Ok(p) => p,
            Err(value) => {
                return Err(
                    ConfigError::InvalidPort {
                        option: String::from_str("nginx-https-port"),
                        value,
                    },
                );
            },
        };
        let enable_feed_key_service = match resolve_flag(&sources.enable_feed_key_service) {
            Ok(b) => b,
            Err(value) => {
                return Err(
                    ConfigError::InvalidFlag {
                        option: String::from_str("enable-feed-key-service"),
                        value,
                    },
                );
            },
        };
        Ok(
            NginxCommand {
                destination: resolve_string(&sources.destination, "out"),
                source: resolve_string(&sources.source, "templates"),
                enable_feed_key_service,
                nginx_host: resolve_string(&sources.nginx_host, "localhost"),
                nginx_http_port,
                nginx_https_port,
                nginx_server_certificate: resolve_string(
                    &sources.nginx_server_certificate,
                    "/etc/nginx/certs/server.cert.pem",
                ),
                nginx_server_key: resolve_string(
                    &sources.nginx_server_key,
                    "/etc/nginx/certs/server.key",
                ),
                nginx_access_control_allow_origin_header: resolve_option(
                    &sources.nginx_access_control_allow_origin_header,
                ),
                nginx_content_security_policy_header: resolve_string(
                    &sources.nginx_content_security_policy_header,
                    "default-src 'none'; object-src 'none'; base-uri 'none'; connect-src 'self'; script-src 'self'; script-src-elem 'self' 'unsafe-inline';frame-ancestors 'none'; form-action 'self'; style-src-elem 'self' 'unsafe-inline'; style-src 'self' 'unsafe-inline'; font-src 'self';img-src 'self' blob: data:;",
                ),
                nginx_strict_transport_security_header: resolve_string(
                    &sources.nginx_strict_transport_security_header,
                    "max-age=31536000; includeSubDomains;",
                ),
                nginx_x_frame_options_header: resolve_string(
                    &sources.nginx_x_frame_options_header,
                    "SAMEORIGIN",
                ),
            },
        )
    }
}

} // verus!
