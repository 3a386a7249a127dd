use ai_adapter::commands::stats::model_filter_clause;
use ai_adapter::config::{
    alias_line, build_runtime_config, mask_key, summary_line, AppConfig, CliSettings, EnvSettings,
    KeyValue, ProviderConfig, UpstreamFormat, UpstreamVendor,
};
use ai_adapter::error::AdapterError;
use ai_adapter::state::store::{compose_key, split_key};
use ai_adapter::translate::aliases::{ModelAlias, ModelAliasMap};

fn env() -> EnvSettings {
    EnvSettings { upstream_base_url: None, upstream_format: None, upstream_api_key: None, log_dir: None, data_dir: None }
}

fn cli() -> CliSettings {
    CliSettings {
        base_url: None,
        format: None,
        api_key: None,
        drop_images: false,
        no_cors: false,
        log_http: false,
        vendor: None,
        access_log_dir: None,
        prefer_client_key: false,
        model_alias: vec![],
        enable_reqlog: false,
    }
}

fn app() -> AppConfig {
    AppConfig {
        server: None,
        providers: vec![],
        model_aliases: vec![],
        base_url: None,
        format: None,
        apikey: None,
        model: None,
        drop_images: None,
        vendor: None,
        headers: vec![],
        reqlog: false,
        access_log_dir: None,
        log_http: false,
        no_cors: false,
        prefer_client_key: false,
        truncate_reasoning: false,
        hide_model_list: false,
    }
}

#[test]
fn formats_and_vendors() {
    assert_eq!(UpstreamFormat::from_str("OpenAI-Chat"), Some(UpstreamFormat::OpenAiChat));
    assert_eq!(UpstreamFormat::from_str("openai"), Some(UpstreamFormat::OpenAiChat));
    assert_eq!(UpstreamFormat::from_str("Anthropic"), Some(UpstreamFormat::Anthropic));
    assert_eq!(UpstreamFormat::from_str("responses"), Some(UpstreamFormat::Responses));
    assert_eq!(UpstreamFormat::from_str("grpc"), None);
    assert_eq!(UpstreamFormat::OpenAiChat.name(), "openai-chat");
    assert_eq!(UpstreamVendor::Auto.resolve("https://api.deepseek.com"), UpstreamVendor::DeepSeek);
    assert_eq!(UpstreamVendor::Auto.resolve("https://api.xiaomimimo.com/v1"), UpstreamVendor::XiaomiMimo);
    assert_eq!(UpstreamVendor::Auto.resolve("https://api.anthropic.com"), UpstreamVendor::Anthropic);
    assert_eq!(UpstreamVendor::Auto.resolve("https://example.com"), UpstreamVendor::OpenAI);
    assert_eq!(UpstreamVendor::DeepSeek.resolve("https://api.anthropic.com"), UpstreamVendor::DeepSeek);
    assert_eq!(UpstreamVendor::XiaomiMimo.name(), "xiaomimimo");
}

#[test]
fn nothing_configured_gives_the_openai_default() {
    let c = build_runtime_config(None, &env(), &cli());
    assert_eq!(c.addr, "0.0.0.0:9090");
    assert!(c.cors);
    assert_eq!(c.providers.len(), 1);
    assert_eq!(c.providers[0].name, "default");
    assert_eq!(c.providers[0].base_url, "https://api.openai.com");
    assert_eq!(c.providers[0].vendor, UpstreamVendor::OpenAI);
    assert_eq!(c.default_provider, "default");
}

#[test]
fn cli_base_url_comes_first_and_replaces_default() {
    let mut a = app();
    a.base_url = Some("https://api.deepseek.com".into());
    a.format = Some("anthropic".into());
    a.providers = vec![];
    let mut c = cli();
    c.base_url = Some("https://api.xiaomimimo.com".into());
    c.api_key = Some("k".into());
    c.no_cors = true;
    c.model_alias = vec!["gpt-5=mimo/mimo-v2.5-pro".into(), "broken".into()];
    let r = build_runtime_config(Some(&a), &env(), &c);
    assert_eq!(r.providers.len(), 1);
    assert_eq!(r.providers[0].name, "cli");
    assert_eq!(r.providers[0].vendor, UpstreamVendor::XiaomiMimo);
    assert_eq!(r.providers[0].format, UpstreamFormat::OpenAiChat);
    assert_eq!(r.providers[0].api_key.as_deref(), Some("k"));
    assert!(!r.cors);
    let t = r.alias_map.resolve("gpt-5").unwrap();
    assert_eq!((t.provider.as_str(), t.model.as_str()), ("mimo", "mimo-v2.5-pro"));
    assert!(r.alias_map.resolve("other").is_none());
}

#[test]
fn file_providers_and_env() {
    let mut a = app();
    a.providers = vec![ProviderConfig {
        name: "ds".into(),
        base_url: "https://api.deepseek.com/v1".into(),
        format: "anthropic".into(),
        apikey: Some("sk".into()),
        models: vec![],
        vendor: None,
        headers: vec![KeyValue { key: "x-h".into(), value: "v".into() }],
        drop_images: true,
    }];
    a.model_aliases = vec![KeyValue { key: "*".into(), value: "ds/deepseek-chat".into() }];
    let mut e = env();
    e.upstream_base_url = Some("https://ignored".into());
    e.log_dir = Some("/var/log/x".into());
    let r = build_runtime_config(Some(&a), &e, &cli());
    assert_eq!(r.providers.len(), 1);
    assert_eq!(r.providers[0].vendor, UpstreamVendor::DeepSeek);
    assert_eq!(r.providers[0].format, UpstreamFormat::Anthropic);
    assert!(r.providers[0].drop_images);
    assert_eq!(r.access_log_dir.as_deref(), Some("/var/log/x"));
    let t = r.alias_map.resolve("anything").unwrap();
    assert_eq!(t.model, "deepseek-chat");
    let mut e = env();
    e.upstream_base_url = Some("https://api.deepseek.com".into());
    e.upstream_format = Some("responses".into());
    e.data_dir = Some("/data".into());
    let r = build_runtime_config(None, &e, &cli());
    assert_eq!(r.providers[0].format, UpstreamFormat::Responses);
    assert_eq!(r.access_log_dir.as_deref(), Some("/data/logs"));
}

#[test]
fn summary_helpers() {
    assert_eq!(mask_key(None), "-");
    assert_eq!(mask_key(Some("short")), "***");
    assert_eq!(mask_key(Some("sk-1234567890abcd")), "sk-1****abcd");
    assert_eq!(summary_line("addr:", "x"), format!("  {:<18} {}", "addr:", "x"));
    let t = ModelAlias { provider: "p".into(), model: "m".into() };
    assert_eq!(alias_line("gpt", &t), format!("  {:<18} {}/{}", "gpt →", "p", "m"));
    let c = build_runtime_config(None, &env(), &cli());
    let lines = c.summary_lines();
    assert_eq!(lines[0], "── server ──");
    assert_eq!(lines[4], "── default ──");
    assert_eq!(lines[7], format!("  {:<18} {}", "vendor:", "openai"));
    assert_eq!(lines[8], format!("  {:<18} {}", "api_key:", "-"));
}

#[test]
fn aliases() {
    let (alias, target) = ModelAlias::parse("gpt-5.5=deepseek/deepseek-v4-pro").unwrap();
    assert_eq!(alias, "gpt-5.5");
    assert_eq!((target.provider.as_str(), target.model.as_str()), ("deepseek", "deepseek-v4-pro"));
    assert!(ModelAlias::parse("no-equals").is_none());
    assert!(ModelAlias::parse("a=no-slash").is_none());
    let mut m = ModelAliasMap::new();
    assert!(m.is_empty());
    m.insert("a", ModelAlias { provider: "p".into(), model: "1".into() });
    m.insert("a", ModelAlias { provider: "p".into(), model: "2".into() });
    assert_eq!(m.resolve("a").unwrap().model, "2");
    assert!(m.resolve("b").is_none());
    m.insert("*", ModelAlias { provider: "q".into(), model: "w".into() });
    assert_eq!(m.resolve("b").unwrap().provider, "q");
    assert_eq!(m.resolve("a").unwrap().model, "2");
    let entries = m.iter();
    assert_eq!(entries.len(), 2);
    assert_eq!(entries.last().unwrap().0, "*");
    assert!(!m.is_empty());
}

#[test]
fn errors() {
    let e = AdapterError::BadRequest { message: "no model".into(), param: Some("model".into()) };
    assert_eq!(e.status_code(), 400);
    assert_eq!(e.message(), "Bad request (param: model): no model");
    assert_eq!(e.error_type(), "invalid_request_error");
    assert_eq!(e.param(), Some("model".to_string()));
    let e = AdapterError::Upstream { status: 429, message: "slow".into(), provider: "p".into(), model: "m".into() };
    assert_eq!(e.status_code(), 429);
    assert_eq!(e.message(), "Upstream 429 error: slow on p/m");
    assert_eq!(e.param(), None);
    let e = AdapterError::Bridge { code: "c".into(), message: "x".into(), provider: "p".into(), model: "m".into() };
    assert_eq!(e.status_code(), 502);
    assert_eq!(e.message(), "Bridge error [c]: x (provider=p, model=m)");
    let e = AdapterError::Internal { message: "oops".into() };
    assert_eq!(e.status_code(), 500);
    assert_eq!(e.message(), "Internal error: oops");
    assert_eq!(e.error_type(), "server_error");
}

#[test]
fn reasoning_keys_round_trip() {
    let k = compose_key("session", "resp_1");
    assert_eq!(k, "session\0resp_1");
    assert_eq!(split_key(&k), Some(("session".to_string(), "resp_1".to_string())));
    assert_eq!(split_key("a\0b\0c"), Some(("a".to_string(), "b\0c".to_string())));
    assert_eq!(split_key("plain"), None);
}

#[test]
fn stats_filter_escapes_quotes() {
    assert_eq!(model_filter_clause(None), "");
    assert_eq!(model_filter_clause(Some("gpt")), "WHERE model = 'gpt'");
    assert_eq!(model_filter_clause(Some("o'neil")), "WHERE model = 'o''neil'");
}

#[test]
fn openai_responses_names_the_responses_format() {
    assert_eq!(UpstreamFormat::from_str("openai-responses"), Some(UpstreamFormat::Responses));
    assert_eq!(UpstreamFormat::from_str("OPENAI-RESPONSES"), Some(UpstreamFormat::Responses));
    for f in [UpstreamFormat::Anthropic, UpstreamFormat::OpenAiChat, UpstreamFormat::Responses] {
        assert_eq!(UpstreamFormat::from_str(f.name()), Some(f));
        assert_eq!(UpstreamFormat::from_str(&f.name().to_ascii_uppercase()), Some(f));
    }
}

#[test]
fn auto_or_missing_format_is_detected_from_the_base_url() {
    let provider = |url: &str, format: &str| ProviderConfig {
        name: "deepseek".into(),
        base_url: url.into(),
        format: format.into(),
        apikey: None,
        models: vec![],
        vendor: None,
        headers: vec![],
        drop_images: false,
    };
    let mut a = app();
    a.providers = vec![
        provider("https://api.deepseek.com/anthropic", "auto"),
        provider("https://api.deepseek.com/anthropic", ""),
        provider("https://example.com/v1/responses", "AUTO"),
        provider("https://api.deepseek.com/v1", "auto"),
        provider("https://api.deepseek.com/anthropic", "openai-chat"),
        provider("https://api.deepseek.com/anthropic", "unknown"),
    ];
    let r = build_runtime_config(Some(&a), &env(), &cli());
    let formats: Vec<UpstreamFormat> = r.providers.iter().map(|p| p.format).collect();
    assert_eq!(
        formats,
        vec![
            UpstreamFormat::Anthropic,
            UpstreamFormat::Anthropic,
            UpstreamFormat::Responses,
            UpstreamFormat::OpenAiChat,
            UpstreamFormat::OpenAiChat,
            UpstreamFormat::OpenAiChat,
        ]
    );
    let mut e = env();
    e.upstream_base_url = Some("https://gateway.example.com/anthropic".into());
    let r = build_runtime_config(None, &e, &cli());
    assert_eq!(r.providers[0].format, UpstreamFormat::Anthropic);
    let mut c = cli();
    c.base_url = Some("https://gateway.example.com/anthropic/v1".into());
    let r = build_runtime_config(None, &env(), &c);
    assert_eq!(r.providers[0].format, UpstreamFormat::Anthropic);
}

#[test]
fn error_json_bodies() {
    let e = AdapterError::BadRequest { message: "no \"model\"".into(), param: Some("model".into()) };
    assert_eq!(
        e.to_json(),
        r#"{"error":{"message":"Bad request (param: model): no \"model\"","param":"model","type":"invalid_request_error"}}"#
    );
    let e = AdapterError::Internal { message: "oops".into() };
    assert_eq!(e.to_json(), r#"{"error":{"message":"Internal error: oops","type":"server_error"}}"#);
    let v: serde_json::Value = serde_json::from_str(&e.to_json()).unwrap();
    assert_eq!(v["error"]["type"], "server_error");
}

#[test]
fn alias_table_after_a_series_of_inserts() {
    let t = |p: &str, m: &str| ModelAlias { provider: p.into(), model: m.into() };
    let mut m = ModelAliasMap::new();
    assert!(m.is_empty());
    m.insert("*", t("w", "one"));
    assert!(!m.is_empty());
    m.insert("a", t("p", "first"));
    m.insert("b", t("p", "b"));
    m.insert("a", t("p", "second"));
    m.insert("*", t("w", "two"));
    let r = m.resolve("a").unwrap();
    assert_eq!((r.provider.as_str(), r.model.as_str()), ("p", "second"));
    let r = m.resolve("never").unwrap();
    assert_eq!(r.model, "two");
    let r = m.resolve("*").unwrap();
    assert_eq!(r.model, "two");
    let mut only = ModelAliasMap::new();
    only.insert("x", t("p", "x"));
    assert!(!only.is_empty());
    assert!(only.resolve("y").is_none());
}
