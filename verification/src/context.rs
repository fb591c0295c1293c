//! The render context: the flat mapping from placeholder name to value
//! that every template is rendered against, built once from the resolved
//! configuration.

use vstd::prelude::*;

use crate::config::NginxCommand;
use crate::decimal::{dec_digits, u16_to_decimal};

verus! {

broadcast use vstd::string::group_string_axioms;

#[verifier::external_type_specification]
#[verifier::external_body]
pub struct ExContext(tera::Context);

/// What a context binds: for each key, the text of the stored value — a
/// string's own characters, a boolean as "true" or "false", a number in
/// decimal — as a placeholder writes it where no escaping applies.
pub uninterp spec fn context_entries(c: tera::Context) -> Map<Seq<char>, Seq<char>>;

/// The mapping with no binding at all.
pub open spec fn no_entries() -> Map<Seq<char>, Seq<char>> {
    Map::empty()
}

/// Relies on tera::Context::new: the new context holds no binding.
#[verifier::external_body]
fn context_new() -> (c: tera::Context)
    ensures
        context_entries(c) == no_entries(),
{
    tera::Context::new()
}

/// Relies on tera::Context::insert: a string value is stored as given, and a
/// placeholder for the key renders as that text.
#[verifier::external_body]
fn context_insert_str(c: &mut tera::Context, key: &str, value: &String)
    ensures
        context_entries(*final(c)) == context_entries(*old(c)).insert(key@, value@),
{
    c.insert(key, value)
}

/// Relies on tera::Context::insert: a boolean value renders as "true" or
/// "false".
#[verifier::external_body]
fn context_insert_bool(c: &mut tera::Context, key: &str, value: bool)
    ensures
        context_entries(*final(c)) == context_entries(*old(c)).insert(
            key@,
            if value {
                "true"@
            } else {
                "false"@
            },
        ),
{
    c.insert(key, &value)
}

/// Relies on tera::Context::insert: an unsigned number renders in decimal.
#[verifier::external_body]
fn context_insert_u16(c: &mut tera::Context, key: &str, value: u16)
    ensures
        context_entries(*final(c)) == context_entries(*old(c)).insert(
            key@,
            dec_digits(value as nat),
        ),
{
    c.insert(key, &value)
}

/// The computed fallback for the access-control-allow-origin header:
/// "https://{host}:{https port}".
pub open spec fn acao_default(host: Seq<char>, https_port: u16) -> Seq<char> {
    "https://"@ + host + ":"@ + dec_digits(https_port as nat)
}

/// The value the access-control-allow-origin header takes in the context:
/// the supplied one, or the computed fallback.
pub open spec fn resolved_acao(cmd: NginxCommand) -> Seq<char> {
    match cmd.nginx_access_control_allow_origin_header {
        Some(v) => v@,
        None => acao_default(cmd.nginx_host@, cmd.nginx_https_port),
    }
}

/// The access-control-allow-origin header value for this configuration.
pub fn access_control_allow_origin_value(cmd: &NginxCommand) -> (r: String)
    ensures
        r@ == resolved_acao(*cmd),
{
    match &cmd.nginx_access_control_allow_origin_header {
        Some(v) => v.clone(),
        None => {
            let mut s = String::from_str("https://");
            s.append(cmd.nginx_host.as_str());
            s.append(":");
            let port = u16_to_decimal(cmd.nginx_https_port);
            s.append(port.as_str());
            s
        },
    }
}

/// The mapping a configuration turns into: one entry per configuration
/// field that templates may read.
pub open spec fn render_context_spec(cmd: NginxCommand) -> Map<Seq<char>, Seq<char>> {
    no_entries().insert(
        "enable_feed_key_service"@,
        if cmd.enable_feed_key_service {
            "true"@
        } else {
            "false"@
        },
    ).insert("nginx_host"@, cmd.nginx_host@).insert(
        "nginx_http_port"@,
        dec_digits(cmd.nginx_http_port as nat),
    ).insert("nginx_https_port"@, dec_digits(cmd.nginx_https_port as nat)).insert(
        "nginx_server_certificate"@,
        cmd.nginx_server_certificate@,
    ).insert("nginx_server_key"@, cmd.nginx_server_key@).insert(
        "nginx_access_control_allow_origin_header"@,
        resolved_acao(cmd),
    ).insert(
        "nginx_content_security_policy_header"@,
        cmd.nginx_content_security_policy_header@,
    ).insert(
        "nginx_strict_transport_security_header"@,
        cmd.nginx_strict_transport_security_header@,
    ).insert("nginx_x_frame_options_header"@, cmd.nginx_x_frame_options_header@)
}

/// Builds the render context from the resolved configuration: exactly the
/// entries of `render_context_spec`.
pub fn create_context_from_template_command(cmd: &NginxCommand) -> (c: tera::Context)
    ensures
        context_entries(c) == render_context_spec(*cmd),
{
    let mut c = context_new();
    context_insert_bool(&mut c, "enable_feed_key_service", cmd.enable_feed_key_service);
    context_insert_str(&mut c, "nginx_host", &cmd.nginx_host);
    context_insert_u16(&mut c, "nginx_http_port", cmd.nginx_http_port);
    context_insert_u16(&mut c, "nginx_https_port", cmd.nginx_https_port);
    context_insert_str(&mut c, "nginx_server_certificate", &cmd.nginx_server_certificate);
    context_insert_str(&mut c, "nginx_server_key", &cmd.nginx_server_key);
    let acao = access_control_allow_origin_value(cmd);
    context_insert_str(&mut c, "nginx_access_control_allow_origin_header", &acao);
    context_insert_str(
        &mut c,
        "nginx_content_security_policy_header",
        &cmd.nginx_content_security_policy_header,
    );
    context_insert_str(
        &mut c,
        "nginx_strict_transport_security_header",
        &cmd.nginx_strict_transport_security_header,
    );
    context_insert_str(
        &mut c,
        "nginx_x_frame_options_header",
        &cmd.nginx_x_frame_options_header,
    );
    c
}

/// Law: when neither source supplies the access-control-allow-origin
/// header, the context binds it to "https://{host}:{https port}" for the
/// resolved host and https port.
pub proof fn lemma_default_acao(cmd: NginxCommand)
    requires
        cmd.nginx_access_control_allow_origin_header is None,
    ensures
        render_context_spec(cmd)["nginx_access_control_allow_origin_header"@] == acao_default(
            cmd.nginx_host@,
            cmd.nginx_https_port,
        ),
{
    reveal_strlit("nginx_access_control_allow_origin_header");
    reveal_strlit("nginx_content_security_policy_header");
    reveal_strlit("nginx_strict_transport_security_header");
    reveal_strlit("nginx_x_frame_options_header");
    assert("nginx_access_control_allow_origin_header"@.len() == 40);
    assert("nginx_content_security_policy_header"@.len() == 36);
    assert("nginx_strict_transport_security_header"@.len() == 38);
    assert("nginx_x_frame_options_header"@.len() == 28);
}

} // verus!
