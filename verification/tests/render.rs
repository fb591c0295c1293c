use gvm_config::config::{NginxArgSources, NginxCommand, SuppliedFlag, SuppliedValue};
use gvm_config::context::create_context_from_template_command;
use gvm_config::pipeline::{compile_template_set, exit_code, render_report, TemplateFile};

fn absent() -> SuppliedValue {
    SuppliedValue { cli: None, env: None }
}

fn default_sources() -> NginxArgSources {
    NginxArgSources {
        destination: absent(),
        source: absent(),
        enable_feed_key_service: SuppliedFlag { cli: false, env: None },
        nginx_host: absent(),
        nginx_http_port: absent(),
        nginx_https_port: absent(),
        nginx_server_certificate: absent(),
        nginx_server_key: absent(),
        nginx_access_control_allow_origin_header: absent(),
        nginx_content_security_policy_header: absent(),
        nginx_strict_transport_security_header: absent(),
        nginx_x_frame_options_header: absent(),
    }
}

fn default_command() -> NginxCommand {
    NginxCommand::resolve(&default_sources()).expect("resolution failed")
}

fn template(name: &str, content: &str) -> TemplateFile {
    TemplateFile { name: name.to_string(), content: content.to_string() }
}

fn render_outcomes(
    tera: &tera::Tera,
    templates: &[TemplateFile],
    ctx: &tera::Context,
) -> Vec<Result<String, String>> {
    templates.iter().map(|t| tera.render(&t.name, ctx).map_err(|e| e.to_string())).collect()
}

#[test]
fn renders_host_into_template_with_extension_stripped() {
    let templates = vec![template("nginx.conf.template", "server_name {{ nginx_host }};")];
    let tera = compile_template_set(&templates).expect("parse failed");
    let cmd = default_command();
    let ctx = create_context_from_template_command(&cmd);
    let outcomes = render_outcomes(&tera, &templates, &ctx);
    let results = render_report(&templates, &outcomes, "out");
    assert_eq!(results.len(), 1);
    assert_eq!(results[0].name, "nginx.conf.template");
    assert_eq!(results[0].output_path, "out/nginx.conf");
    assert_eq!(results[0].outcome.as_ref().unwrap(), "server_name localhost;");
}

#[test]
fn default_access_control_allow_origin_is_computed_from_host_and_port() {
    let templates = vec![
        template("h.conf.template", "{{ nginx_access_control_allow_origin_header }}"),
    ];
    let tera = compile_template_set(&templates).expect("parse failed");
    let cmd = default_command();
    let ctx = create_context_from_template_command(&cmd);
    let outcomes = render_outcomes(&tera, &templates, &ctx);
    let results = render_report(&templates, &outcomes, "out");
    assert_eq!(results[0].outcome.as_ref().unwrap(), "https://localhost:443");
}

#[test]
fn supplied_access_control_allow_origin_is_used_unchanged() {
    let templates = vec![
        template("h.conf.template", "{{ nginx_access_control_allow_origin_header }}"),
    ];
    let tera = compile_template_set(&templates).expect("parse failed");
    let mut sources = default_sources();
    sources.nginx_access_control_allow_origin_header =
        SuppliedValue { cli: Some("https://example.com".to_string()), env: None };
    let cmd = NginxCommand::resolve(&sources).expect("resolution failed");
    let ctx = create_context_from_template_command(&cmd);
    let outcomes = render_outcomes(&tera, &templates, &ctx);
    let results = render_report(&templates, &outcomes, "out");
    assert_eq!(results[0].outcome.as_ref().unwrap(), "https://example.com");
}

#[test]
fn ports_render_in_decimal() {
    let templates = vec![
        template("p.conf.template", "{{ nginx_http_port }}:{{ nginx_https_port }}"),
    ];
    let tera = compile_template_set(&templates).expect("parse failed");
    let cmd = default_command();
    let ctx = create_context_from_template_command(&cmd);
    let outcomes = render_outcomes(&tera, &templates, &ctx);
    let results = render_report(&templates, &outcomes, "out");
    assert_eq!(results[0].outcome.as_ref().unwrap(), "9392:443");
}

#[test]
fn feed_key_service_flag_renders_as_boolean_literal() {
    let templates = vec![template("f.conf.template", "{{ enable_feed_key_service }}")];
    let tera = compile_template_set(&templates).expect("parse failed");
    let cmd = default_command();
    let ctx = create_context_from_template_command(&cmd);
    let outcomes = render_outcomes(&tera, &templates, &ctx);
    let results = render_report(&templates, &outcomes, "out");
    assert_eq!(results[0].outcome.as_ref().unwrap(), "false");

    let mut sources = default_sources();
    sources.enable_feed_key_service = SuppliedFlag { cli: true, env: None };
    let cmd = NginxCommand::resolve(&sources).expect("resolution failed");
    let ctx = create_context_from_template_command(&cmd);
    let outcomes = render_outcomes(&tera, &templates, &ctx);
    let results = render_report(&templates, &outcomes, "out");
    assert_eq!(results[0].outcome.as_ref().unwrap(), "true");
}

#[test]
fn every_header_reaches_the_rendered_output() {
    let templates = vec![template(
        "headers.conf.template",
        "{{ nginx_server_certificate }}|{{ nginx_server_key }}|{{ nginx_content_security_policy_header }}|{{ nginx_strict_transport_security_header }}|{{ nginx_x_frame_options_header }}",
    )];
    let tera = compile_template_set(&templates).expect("parse failed");
    let cmd = default_command();
    let ctx = create_context_from_template_command(&cmd);
    let outcomes = render_outcomes(&tera, &templates, &ctx);
    let results = render_report(&templates, &outcomes, "out");
    let rendered = results[0].outcome.as_ref().unwrap().clone();
    assert!(rendered.starts_with("/etc/nginx/certs/server.cert.pem|/etc/nginx/certs/server.key|"));
    assert!(rendered.ends_with("|max-age=31536000; includeSubDomains;|SAMEORIGIN"));
}

#[test]
fn one_bad_template_fails_the_whole_parse() {
    let templates = vec![
        template("good.conf.template", "server_name {{ nginx_host }};"),
        template("bad.conf.template", "server_name {{ nginx_host ;"),
    ];
    let err = compile_template_set(&templates).err().expect("expected a parse error");
    assert!(err.contains("bad.conf.template"));
}

#[test]
fn render_failure_on_one_template_leaves_the_other_rendered() {
    let templates = vec![
        template("good.conf.template", "server_name {{ nginx_host }};"),
        template("bad.conf.template", "value {{ some_missing_variable }};"),
    ];
    let tera = compile_template_set(&templates).expect("parse failed");
    let cmd = default_command();
    let ctx = create_context_from_template_command(&cmd);
    let outcomes = render_outcomes(&tera, &templates, &ctx);
    let results = render_report(&templates, &outcomes, "out");
    assert_eq!(results.len(), 2);
    assert_eq!(results[0].outcome.as_ref().unwrap(), "server_name localhost;");
    assert!(results[1].outcome.is_err());
    let per_template_ok = vec![results[0].outcome.is_ok(), results[1].outcome.is_ok()];
    assert_eq!(exit_code(&per_template_ok), 1);
}

#[test]
fn nested_template_names_mirror_into_the_destination() {
    let templates = vec![template("conf.d/site.conf.template", "{{ nginx_host }}")];
    let tera = compile_template_set(&templates).expect("parse failed");
    let cmd = default_command();
    let ctx = create_context_from_template_command(&cmd);
    let outcomes = render_outcomes(&tera, &templates, &ctx);
    let results = render_report(&templates, &outcomes, "custom_out");
    assert_eq!(results[0].output_path, "custom_out/conf.d/site.conf");
}
