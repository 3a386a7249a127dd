//! Configuration: upstream formats and vendors, the config file, and the
//! run-time configuration resolved from the file, the environment and the
//! command line.
//!
//! Reading the file and the environment is the caller's part; the
//! resolution itself is [`build_runtime_config`].

use vstd::prelude::*;
use crate::text::{clone_vec_String, concat, concat3, contains, contains_seq, owned, pad_right, pad_right_spec, spec_to_lowercase, split_once_char, is_ascii, ascii_lower, ascii_upper, ascii_lower_char, ascii_upper_char, first_index_of, str_eq, string_seqs, to_lowercase};
use vstd::string::StringSliceAdditionalSpecFns;
use vstd::utf8::{decode_utf8, encode_utf8, is_char_boundary};
use crate::translate::aliases::{insert_spec, parse_alias_spec, resolve_spec, ModelAlias, ModelAliasMap, ModelAliasMapModel, ModelAliasModel};
use crate::json::opt_seq;

verus! {

/// Supported upstream API formats.
#[derive(PartialEq, Eq, Structural, Clone, Copy, Debug)]
pub enum UpstreamFormat {
    Anthropic,
    OpenAiChat,
    Responses,
}

/// Vendor-specific adapter behaviour (`Auto` detects it from the base URL).
#[derive(PartialEq, Eq, Structural, Clone, Copy, Debug)]
pub enum UpstreamVendor {
    DeepSeek,
    OpenAI,
    Anthropic,
    XiaomiMimo,
    Auto,
}

impl Default for UpstreamVendor {
    fn default() -> (r: Self)
        ensures
            r == UpstreamVendor::Auto,
    {
        UpstreamVendor::Auto
    }
}

/// The vendor that a base URL points at: the first of `xiaomimimo`,
/// `deepseek` and `anthropic` that it contains, else OpenAI.
pub open spec fn vendor_of_url(base_url: Seq<char>) -> UpstreamVendor {
    if contains_seq(base_url, "xiaomimimo"@) {
        UpstreamVendor::XiaomiMimo
    } else if contains_seq(base_url, "deepseek"@) {
        UpstreamVendor::DeepSeek
    } else if contains_seq(base_url, "anthropic"@) {
        UpstreamVendor::Anthropic
    } else {
        UpstreamVendor::OpenAI
    }
}

/// `Auto` resolved against a base URL; any other vendor stays.
pub open spec fn resolve_vendor_spec(v: UpstreamVendor, base_url: Seq<char>) -> UpstreamVendor {
    match v {
        UpstreamVendor::Auto => vendor_of_url(base_url),
        other => other,
    }
}

/// The name a vendor is shown by.
pub open spec fn vendor_name_spec(v: UpstreamVendor) -> Seq<char> {
    match v {
        UpstreamVendor::DeepSeek => "deepseek"@,
        UpstreamVendor::OpenAI => "openai"@,
        UpstreamVendor::Anthropic => "anthropic"@,
        UpstreamVendor::XiaomiMimo => "xiaomimimo"@,
        UpstreamVendor::Auto => "auto"@,
    }
}

impl UpstreamVendor {
    /// Resolves `Auto` from the base URL; other vendors are returned as they are.
    pub fn resolve(&self, base_url: &str) -> (r: UpstreamVendor)
        ensures
            r == resolve_vendor_spec(*self, base_url@),
    {
        match self {
            UpstreamVendor::Auto => {
                if contains(base_url, "xiaomimimo") {
                    UpstreamVendor::XiaomiMimo
                } else if contains(base_url, "deepseek") {
                    UpstreamVendor::DeepSeek
                } else if contains(base_url, "anthropic") {
                    UpstreamVendor::Anthropic
                } else {
                    UpstreamVendor::OpenAI
                }
            },
            other => *other,
        }
    }

    /// The vendor's name, as it is displayed.
    pub fn name(&self) -> (r: &'static str)
        ensures
            r@ == vendor_name_spec(*self),
    {
        match self {
            UpstreamVendor::DeepSeek => "deepseek",
            UpstreamVendor::OpenAI => "openai",
            UpstreamVendor::Anthropic => "anthropic",
            UpstreamVendor::XiaomiMimo => "xiaomimimo",
            UpstreamVendor::Auto => "auto",
        }
    }
}

/// The format a (case-insensitive) name denotes.
pub open spec fn format_from_lower(l: Seq<char>) -> Option<UpstreamFormat> {
    if l == "anthropic"@ {
        Some(UpstreamFormat::Anthropic)
    } else if l == "openai-chat"@ || l == "openai_chat"@ || l == "openai"@ {
        Some(UpstreamFormat::OpenAiChat)
    } else if l == "responses"@ || l == "openai-responses"@ {
        Some(UpstreamFormat::Responses)
    } else {
        None
    }
}

/// The lower-case form of a name: ASCII letters lowered one by one, other
/// text by the Unicode mapping of `str::to_lowercase`.
pub open spec fn lower_name(s: Seq<char>) -> Seq<char> {
    if is_ascii(s) {
        ascii_lower(s)
    } else {
        spec_to_lowercase(s)
    }
}

/// What `UpstreamFormat::from_str` gives for a name.
pub open spec fn format_from_str_spec(s: Seq<char>) -> Option<UpstreamFormat> {
    format_from_lower(lower_name(s))
}

/// The name a format is shown by.
pub open spec fn format_name_spec(f: UpstreamFormat) -> Seq<char> {
    match f {
        UpstreamFormat::Anthropic => "anthropic"@,
        UpstreamFormat::OpenAiChat => "openai-chat"@,
        UpstreamFormat::Responses => "responses"@,
    }
}

impl UpstreamFormat {
    /// Parses a format name, ignoring case: `anthropic`; `openai-chat`,
    /// `openai_chat` or `openai`; `responses` or `openai-responses`.
    pub fn from_str(s: &str) -> (r: Option<Self>)
        ensures
            r == format_from_str_spec(s@),
    {
        let l = lower_name_of(s);
        let l = l.as_str();
        if str_eq(l, "anthropic") {
            Some(UpstreamFormat::Anthropic)
        } else if str_eq(l, "openai-chat") || str_eq(l, "openai_chat") || str_eq(l, "openai") {
            Some(UpstreamFormat::OpenAiChat)
        } else if str_eq(l, "responses") || str_eq(l, "openai-responses") {
            Some(UpstreamFormat::Responses)
        } else {
            None
        }
    }

    /// The format's name, as it is displayed.
    pub fn name(&self) -> (r: &'static str)
        ensures
            r@ == format_name_spec(*self),
    {
        match self {
            UpstreamFormat::Anthropic => "anthropic",
            UpstreamFormat::OpenAiChat => "openai-chat",
            UpstreamFormat::Responses => "responses",
        }
    }
}

proof fn lemma_ascii_char_case(c: char)
    requires
        c as u32 <= 0x7f,
    ensures
        ascii_upper_char(c) as u32 <= 0x7f,
        ascii_lower_char(ascii_upper_char(c)) == ascii_lower_char(c),
{
    if 'a' <= c && c <= 'z' {
        let u = ((c as u32) - 32) as char;
        assert(u as u32 == (c as u32) - 32);
        assert('A' <= u && u <= 'Z');
        assert(((u as u32) + 32) as char == c);
    }
}

/// A name in lower-case ASCII is its own lower-case form.
proof fn lemma_lower_name_fixed(s: Seq<char>)
    requires
        forall|i: int| 0 <= i < s.len() ==> 'a' <= #[trigger] s[i] <= 'z' || s[i] == '-',
    ensures
        lower_name(s) == s,
{
    assert(is_ascii(s));
    assert(ascii_lower(s) =~= s);
}

/// The name a format is shown by parses back to that format.
pub proof fn law_format_name_round_trip(f: UpstreamFormat)
    ensures
        format_from_str_spec(format_name_spec(f)) == Some(f),
{
    reveal_strlit("anthropic");
    reveal_strlit("openai-chat");
    reveal_strlit("openai_chat");
    reveal_strlit("openai");
    reveal_strlit("responses");
    reveal_strlit("openai-responses");
    let n = format_name_spec(f);
    lemma_lower_name_fixed(n);
    match f {
        UpstreamFormat::Anthropic => {},
        UpstreamFormat::OpenAiChat => {
            assert(n[0] != "anthropic"@[0]);
        },
        UpstreamFormat::Responses => {
            assert(n[0] != "anthropic"@[0]);
            assert(n.len() != "openai-chat"@.len());
            assert(n.len() != "openai_chat"@.len());
            assert(n.len() != "openai"@.len());
        },
    }
}

/// On ASCII text, parsing a format name does not depend on case: the name
/// in upper case parses to what the name parses to.
pub proof fn law_format_ignores_ascii_case(s: Seq<char>)
    requires
        is_ascii(s),
    ensures
        format_from_str_spec(ascii_upper(s)) == format_from_str_spec(s),
{
    let u = ascii_upper(s);
    assert forall|i: int| 0 <= i < u.len() implies (#[trigger] u[i]) as u32 <= 0x7f by {
        lemma_ascii_char_case(s[i]);
    }
    assert forall|i: int| 0 <= i < s.len() implies #[trigger] ascii_lower(u)[i] == ascii_lower(s)[i] by {
        lemma_ascii_char_case(s[i]);
    }
    assert(ascii_lower(u) =~= ascii_lower(s));
}

/// The default listen address.
pub open spec fn default_addr_spec() -> Seq<char> {
    "0.0.0.0:9090"@
}

/// The default listen address, `0.0.0.0:9090`.
pub fn default_addr() -> (r: String)
    ensures
        r@ == default_addr_spec(),
{
    owned("0.0.0.0:9090")
}


/// A name and its value (an HTTP header, a config map entry).
pub struct KeyValue {
    pub key: String,
    pub value: String,
}

/// Model of [`KeyValue`].
pub struct KeyValueModel {
    pub key: Seq<char>,
    pub value: Seq<char>,
}

impl View for KeyValue {
    type V = KeyValueModel;

    open spec fn view(&self) -> KeyValueModel {
        KeyValueModel {
            key: self.key@,
            value: self.value@,
        }
    }
}

impl Clone for KeyValue {
    fn clone(&self) -> (r: Self)
        ensures
            r@ == self@,
    {
        let c_key = self.key.clone();
        let c_value = self.value.clone();
        KeyValue { key: c_key, value: c_value }
    }
}

/// A single upstream provider entry of the config file.
pub struct ProviderConfig {
    /// Provider name (used in `provider/model` references).
    pub name: String,
    /// Upstream base URL.
    pub base_url: String,
    /// Upstream API format.
    pub format: String,
    /// API key.
    pub apikey: Option<String>,
    /// Model names this provider serves.
    pub models: Vec<String>,
    /// Vendor hint.
    pub vendor: Option<String>,
    /// Extra headers for upstream requests.
    pub headers: Vec<KeyValue>,
    /// Drop images from requests (text-only upstreams).
    pub drop_images: bool,
}

/// Model of [`ProviderConfig`].
pub struct ProviderConfigModel {
    pub name: Seq<char>,
    pub base_url: Seq<char>,
    pub format: Seq<char>,
    pub apikey: Option<Seq<char>>,
    pub models: Seq<Seq<char>>,
    pub vendor: Option<Seq<char>>,
    pub headers: Seq<KeyValueModel>,
    pub drop_images: bool,
}

impl View for ProviderConfig {
    type V = ProviderConfigModel;

    open spec fn view(&self) -> ProviderConfigModel {
        ProviderConfigModel {
            name: self.name@,
            base_url: self.base_url@,
            format: self.format@,
            apikey: opt_seq(self.apikey),
            models: self.models@.map_values(|x1: String| x1@),
            vendor: opt_seq(self.vendor),
            headers: self.headers@.map_values(|x2: KeyValue| x2@),
            drop_images: self.drop_images,
        }
    }
}

impl Clone for ProviderConfig {
    fn clone(&self) -> (r: Self)
        ensures
            r@ == self@,
    {
        let c_name = self.name.clone();
        let c_base_url = self.base_url.clone();
        let c_format = self.format.clone();
        let c_apikey = self.apikey.clone();
        let c_models = clone_vec_String(&self.models);
        let c_vendor = self.vendor.clone();
        let c_headers = clone_vec_KeyValue(&self.headers);
        let c_drop_images = self.drop_images;
        ProviderConfig { name: c_name, base_url: c_base_url, format: c_format, apikey: c_apikey, models: c_models, vendor: c_vendor, headers: c_headers, drop_images: c_drop_images }
    }
}

/// The `server` section of the config file.
pub struct ServerConfig {
    /// Listen address.
    pub addr: String,
    /// Access log directory.
    pub access_log_dir: Option<String>,
    /// Log HTTP bodies.
    pub log_http: bool,
    /// Disable CORS.
    pub no_cors: bool,
    /// Prefer a client-supplied API key.
    pub prefer_client_key: bool,
    /// Truncate reasoning text.
    pub truncate_reasoning: bool,
    /// Enable request logging.
    pub reqlog: bool,
    /// Drop images from requests.
    pub drop_images: bool,
}

/// Model of [`ServerConfig`].
pub struct ServerConfigModel {
    pub addr: Seq<char>,
    pub access_log_dir: Option<Seq<char>>,
    pub log_http: bool,
    pub no_cors: bool,
    pub prefer_client_key: bool,
    pub truncate_reasoning: bool,
    pub reqlog: bool,
    pub drop_images: bool,
}

impl View for ServerConfig {
    type V = ServerConfigModel;

    open spec fn view(&self) -> ServerConfigModel {
        ServerConfigModel {
            addr: self.addr@,
            access_log_dir: opt_seq(self.access_log_dir),
            log_http: self.log_http,
            no_cors: self.no_cors,
            prefer_client_key: self.prefer_client_key,
            truncate_reasoning: self.truncate_reasoning,
            reqlog: self.reqlog,
            drop_images: self.drop_images,
        }
    }
}

impl Clone for ServerConfig {
    fn clone(&self) -> (r: Self)
        ensures
            r@ == self@,
    {
        let c_addr = self.addr.clone();
        let c_access_log_dir = self.access_log_dir.clone();
        let c_log_http = self.log_http;
        let c_no_cors = self.no_cors;
        let c_prefer_client_key = self.prefer_client_key;
        let c_truncate_reasoning = self.truncate_reasoning;
        let c_reqlog = self.reqlog;
        let c_drop_images = self.drop_images;
        ServerConfig { addr: c_addr, access_log_dir: c_access_log_dir, log_http: c_log_http, no_cors: c_no_cors, prefer_client_key: c_prefer_client_key, truncate_reasoning: c_truncate_reasoning, reqlog: c_reqlog, drop_images: c_drop_images }
    }
}

/// The config file.
pub struct AppConfig {
    pub server: Option<ServerConfig>,
    /// Upstream providers.
    pub providers: Vec<ProviderConfig>,
    /// Model aliases: alias to `provider/model`.
    pub model_aliases: Vec<KeyValue>,
    /// Single-provider base URL.
    pub base_url: Option<String>,
    /// Single-provider format.
    pub format: Option<String>,
    /// Single-provider API key.
    pub apikey: Option<String>,
    /// Single-provider model.
    pub model: Option<String>,
    pub drop_images: Option<bool>,
    pub vendor: Option<String>,
    /// Single-provider extra headers.
    pub headers: Vec<KeyValue>,
    /// Enable request logging.
    pub reqlog: bool,
    /// Access log directory.
    pub access_log_dir: Option<String>,
    /// Log HTTP bodies.
    pub log_http: bool,
    /// Disable CORS.
    pub no_cors: bool,
    /// Prefer a client-supplied API key.
    pub prefer_client_key: bool,
    /// Truncate reasoning text.
    pub truncate_reasoning: bool,
    pub hide_model_list: bool,
}

/// Model of [`AppConfig`].
pub struct AppConfigModel {
    pub server: Option<ServerConfigModel>,
    pub providers: Seq<ProviderConfigModel>,
    pub model_aliases: Seq<KeyValueModel>,
    pub base_url: Option<Seq<char>>,
    pub format: Option<Seq<char>>,
    pub apikey: Option<Seq<char>>,
    pub model: Option<Seq<char>>,
    pub drop_images: Option<bool>,
    pub vendor: Option<Seq<char>>,
    pub headers: Seq<KeyValueModel>,
    pub reqlog: bool,
    pub access_log_dir: Option<Seq<char>>,
    pub log_http: bool,
    pub no_cors: bool,
    pub prefer_client_key: bool,
    pub truncate_reasoning: bool,
    pub hide_model_list: bool,
}

impl View for AppConfig {
    type V = AppConfigModel;

    open spec fn view(&self) -> AppConfigModel {
        AppConfigModel {
            server: (match self.server { Some(x3) => Some(x3@), None => None }),
            providers: self.providers@.map_values(|x4: ProviderConfig| x4@),
            model_aliases: self.model_aliases@.map_values(|x5: KeyValue| x5@),
            base_url: opt_seq(self.base_url),
            format: opt_seq(self.format),
            apikey: opt_seq(self.apikey),
            model: opt_seq(self.model),
            drop_images: self.drop_images,
            vendor: opt_seq(self.vendor),
            headers: self.headers@.map_values(|x6: KeyValue| x6@),
            reqlog: self.reqlog,
            access_log_dir: opt_seq(self.access_log_dir),
            log_http: self.log_http,
            no_cors: self.no_cors,
            prefer_client_key: self.prefer_client_key,
            truncate_reasoning: self.truncate_reasoning,
            hide_model_list: self.hide_model_list,
        }
    }
}

impl Clone for AppConfig {
    #[verifier::spinoff_prover]
    #[verifier::rlimit(60)]
    fn clone(&self) -> (r: Self)
        ensures
            r@ == self@,
    {
        let c_server = match &self.server { Some(x7) => { let x8 = (*x7).clone(); Some(x8) }, None => None };
        let c_providers = clone_vec_ProviderConfig(&self.providers);
        let c_model_aliases = clone_vec_KeyValue(&self.model_aliases);
        let c_base_url = self.base_url.clone();
        let c_format = self.format.clone();
        let c_apikey = self.apikey.clone();
        let c_model = self.model.clone();
        let c_drop_images = self.drop_images.clone();
        let c_vendor = self.vendor.clone();
        let c_headers = clone_vec_KeyValue(&self.headers);
        let c_reqlog = self.reqlog;
        let c_access_log_dir = self.access_log_dir.clone();
        let c_log_http = self.log_http;
        let c_no_cors = self.no_cors;
        let c_prefer_client_key = self.prefer_client_key;
        let c_truncate_reasoning = self.truncate_reasoning;
        let c_hide_model_list = self.hide_model_list;
        AppConfig { server: c_server, providers: c_providers, model_aliases: c_model_aliases, base_url: c_base_url, format: c_format, apikey: c_apikey, model: c_model, drop_images: c_drop_images, vendor: c_vendor, headers: c_headers, reqlog: c_reqlog, access_log_dir: c_access_log_dir, log_http: c_log_http, no_cors: c_no_cors, prefer_client_key: c_prefer_client_key, truncate_reasoning: c_truncate_reasoning, hide_model_list: c_hide_model_list }
    }
}

/// A provider as used at run time.
pub struct ResolvedProvider {
    pub name: String,
    pub base_url: String,
    pub format: UpstreamFormat,
    pub api_key: Option<String>,
    pub vendor: UpstreamVendor,
    pub drop_images: bool,
    pub extra_headers: Vec<KeyValue>,
}

/// Model of [`ResolvedProvider`].
pub struct ResolvedProviderModel {
    pub name: Seq<char>,
    pub base_url: Seq<char>,
    pub format: UpstreamFormat,
    pub api_key: Option<Seq<char>>,
    pub vendor: UpstreamVendor,
    pub drop_images: bool,
    pub extra_headers: Seq<KeyValueModel>,
}

impl View for ResolvedProvider {
    type V = ResolvedProviderModel;

    open spec fn view(&self) -> ResolvedProviderModel {
        ResolvedProviderModel {
            name: self.name@,
            base_url: self.base_url@,
            format: self.format,
            api_key: opt_seq(self.api_key),
            vendor: self.vendor,
            drop_images: self.drop_images,
            extra_headers: self.extra_headers@.map_values(|x9: KeyValue| x9@),
        }
    }
}

impl Clone for ResolvedProvider {
    fn clone(&self) -> (r: Self)
        ensures
            r@ == self@,
    {
        let c_name = self.name.clone();
        let c_base_url = self.base_url.clone();
        let c_format = self.format;
        let c_api_key = self.api_key.clone();
        let c_vendor = self.vendor;
        let c_drop_images = self.drop_images;
        let c_extra_headers = clone_vec_KeyValue(&self.extra_headers);
        ResolvedProvider { name: c_name, base_url: c_base_url, format: c_format, api_key: c_api_key, vendor: c_vendor, drop_images: c_drop_images, extra_headers: c_extra_headers }
    }
}

/// The environment variables that configuration reads.
pub struct EnvSettings {
    /// `UPSTREAM_BASE_URL`.
    pub upstream_base_url: Option<String>,
    /// `UPSTREAM_FORMAT`.
    pub upstream_format: Option<String>,
    /// `UPSTREAM_API_KEY`.
    pub upstream_api_key: Option<String>,
    /// `LOG_DIR` (read after the `.env` file is loaded).
    pub log_dir: Option<String>,
    /// `DATA_DIR` (read after the `.env` file is loaded).
    pub data_dir: Option<String>,
}

/// Model of [`EnvSettings`].
pub struct EnvSettingsModel {
    pub upstream_base_url: Option<Seq<char>>,
    pub upstream_format: Option<Seq<char>>,
    pub upstream_api_key: Option<Seq<char>>,
    pub log_dir: Option<Seq<char>>,
    pub data_dir: Option<Seq<char>>,
}

impl View for EnvSettings {
    type V = EnvSettingsModel;

    open spec fn view(&self) -> EnvSettingsModel {
        EnvSettingsModel {
            upstream_base_url: opt_seq(self.upstream_base_url),
            upstream_format: opt_seq(self.upstream_format),
            upstream_api_key: opt_seq(self.upstream_api_key),
            log_dir: opt_seq(self.log_dir),
            data_dir: opt_seq(self.data_dir),
        }
    }
}

impl Clone for EnvSettings {
    fn clone(&self) -> (r: Self)
        ensures
            r@ == self@,
    {
        let c_upstream_base_url = self.upstream_base_url.clone();
        let c_upstream_format = self.upstream_format.clone();
        let c_upstream_api_key = self.upstream_api_key.clone();
        let c_log_dir = self.log_dir.clone();
        let c_data_dir = self.data_dir.clone();
        EnvSettings { upstream_base_url: c_upstream_base_url, upstream_format: c_upstream_format, upstream_api_key: c_upstream_api_key, log_dir: c_log_dir, data_dir: c_data_dir }
    }
}

/// The command-line options that configuration reads.
pub struct CliSettings {
    pub base_url: Option<String>,
    pub format: Option<String>,
    pub api_key: Option<String>,
    pub drop_images: bool,
    pub no_cors: bool,
    pub log_http: bool,
    pub vendor: Option<String>,
    pub access_log_dir: Option<String>,
    pub prefer_client_key: bool,
    /// Raw `alias=provider/model` values.
    pub model_alias: Vec<String>,
    pub enable_reqlog: bool,
}

/// Model of [`CliSettings`].
pub struct CliSettingsModel {
    pub base_url: Option<Seq<char>>,
    pub format: Option<Seq<char>>,
    pub api_key: Option<Seq<char>>,
    pub drop_images: bool,
    pub no_cors: bool,
    pub log_http: bool,
    pub vendor: Option<Seq<char>>,
    pub access_log_dir: Option<Seq<char>>,
    pub prefer_client_key: bool,
    pub model_alias: Seq<Seq<char>>,
    pub enable_reqlog: bool,
}

impl View for CliSettings {
    type V = CliSettingsModel;

    open spec fn view(&self) -> CliSettingsModel {
        CliSettingsModel {
            base_url: opt_seq(self.base_url),
            format: opt_seq(self.format),
            api_key: opt_seq(self.api_key),
            drop_images: self.drop_images,
            no_cors: self.no_cors,
            log_http: self.log_http,
            vendor: opt_seq(self.vendor),
            access_log_dir: opt_seq(self.access_log_dir),
            prefer_client_key: self.prefer_client_key,
            model_alias: self.model_alias@.map_values(|x10: String| x10@),
            enable_reqlog: self.enable_reqlog,
        }
    }
}

impl Clone for CliSettings {
    #[verifier::spinoff_prover]
    #[verifier::rlimit(60)]
    fn clone(&self) -> (r: Self)
        ensures
            r@ == self@,
    {
        let c_base_url = self.base_url.clone();
        let c_format = self.format.clone();
        let c_api_key = self.api_key.clone();
        let c_drop_images = self.drop_images;
        let c_no_cors = self.no_cors;
        let c_log_http = self.log_http;
        let c_vendor = self.vendor.clone();
        let c_access_log_dir = self.access_log_dir.clone();
        let c_prefer_client_key = self.prefer_client_key;
        let c_model_alias = clone_vec_String(&self.model_alias);
        let c_enable_reqlog = self.enable_reqlog;
        CliSettings { base_url: c_base_url, format: c_format, api_key: c_api_key, drop_images: c_drop_images, no_cors: c_no_cors, log_http: c_log_http, vendor: c_vendor, access_log_dir: c_access_log_dir, prefer_client_key: c_prefer_client_key, model_alias: c_model_alias, enable_reqlog: c_enable_reqlog }
    }
}

/// A copy of a vector of [`KeyValue`].
pub fn clone_vec_KeyValue(v: &Vec<KeyValue>) -> (r: Vec<KeyValue>)
    ensures
        r@.map_values(|x11: KeyValue| x11@) == v@.map_values(|x12: KeyValue| x12@),
{
    let mut r: Vec<KeyValue> = Vec::new();
    let mut i: usize = 0;
    while i < v.len()
        invariant
            i <= v.len(),
            r@.len() == i,
            forall|j: int| 0 <= j < i ==> r@[j]@ == v@[j]@,
        decreases v.len() - i,
    {
        r.push(v[i].clone());
        i += 1;
    }
    assert(r@.map_values(|x13: KeyValue| x13@) =~= v@.map_values(|x14: KeyValue| x14@));
    r
}

/// A copy of a vector of [`ProviderConfig`].
pub fn clone_vec_ProviderConfig(v: &Vec<ProviderConfig>) -> (r: Vec<ProviderConfig>)
    ensures
        r@.map_values(|x15: ProviderConfig| x15@) == v@.map_values(|x16: ProviderConfig| x16@),
{
    let mut r: Vec<ProviderConfig> = Vec::new();
    let mut i: usize = 0;
    while i < v.len()
        invariant
            i <= v.len(),
            r@.len() == i,
            forall|j: int| 0 <= j < i ==> r@[j]@ == v@[j]@,
        decreases v.len() - i,
    {
        r.push(v[i].clone());
        i += 1;
    }
    assert(r@.map_values(|x17: ProviderConfig| x17@) =~= v@.map_values(|x18: ProviderConfig| x18@));
    r
}



/// The run-time configuration.
pub struct RuntimeConfig {
    pub addr: String,
    pub cors: bool,
    pub log_http: bool,
    pub access_log_dir: Option<String>,
    pub enable_reqlog: bool,
    pub prefer_client_key: bool,
    pub truncate_reasoning: bool,
    pub drop_images: bool,
    pub hide_model_list: bool,
    /// Alias to `(provider, upstream model)`.
    pub alias_map: ModelAliasMap,
    /// All configured providers.
    pub providers: Vec<ResolvedProvider>,
    /// Name of the default provider (the first one).
    pub default_provider: String,
}

/// Model of [`RuntimeConfig`].
pub struct RuntimeConfigModel {
    pub addr: Seq<char>,
    pub cors: bool,
    pub log_http: bool,
    pub access_log_dir: Option<Seq<char>>,
    pub enable_reqlog: bool,
    pub prefer_client_key: bool,
    pub truncate_reasoning: bool,
    pub drop_images: bool,
    pub hide_model_list: bool,
    pub alias_map: ModelAliasMapModel,
    pub providers: Seq<ResolvedProviderModel>,
    pub default_provider: Seq<char>,
}

impl View for RuntimeConfig {
    type V = RuntimeConfigModel;

    open spec fn view(&self) -> RuntimeConfigModel {
        RuntimeConfigModel {
            addr: self.addr@,
            cors: self.cors,
            log_http: self.log_http,
            access_log_dir: opt_seq(self.access_log_dir),
            enable_reqlog: self.enable_reqlog,
            prefer_client_key: self.prefer_client_key,
            truncate_reasoning: self.truncate_reasoning,
            drop_images: self.drop_images,
            hide_model_list: self.hide_model_list,
            alias_map: self.alias_map@,
            providers: self.providers@.map_values(|p: ResolvedProvider| p@),
            default_provider: self.default_provider@,
        }
    }
}

/// The configuration before anything is applied.
pub open spec fn default_runtime_spec() -> RuntimeConfigModel {
    RuntimeConfigModel {
        addr: default_addr_spec(),
        cors: true,
        log_http: false,
        access_log_dir: None,
        enable_reqlog: false,
        prefer_client_key: false,
        truncate_reasoning: false,
        drop_images: false,
        hide_model_list: false,
        alias_map: ModelAliasMapModel { aliases: Map::empty(), wildcard: None },
        providers: seq![],
        default_provider: "default"@,
    }
}

impl Default for RuntimeConfig {
    fn default() -> (r: Self)
        ensures
            r@ == default_runtime_spec(),
    {
        let r = RuntimeConfig {
            addr: default_addr(),
            cors: true,
            log_http: false,
            access_log_dir: None,
            enable_reqlog: false,
            prefer_client_key: false,
            truncate_reasoning: false,
            drop_images: false,
            hide_model_list: false,
            alias_map: ModelAliasMap::new(),
            providers: Vec::new(),
            default_provider: owned("default"),
        };
        assert(r@.providers =~= seq![]);
        assert(r@.alias_map.aliases =~= Map::empty());
        r
    }
}

// ---------------------------------------------------------------------------
// Resolution: specification
// ---------------------------------------------------------------------------

/// The format a base URL suggests: Anthropic's Messages API where the URL
/// names `anthropic`, the Responses API where it names `responses`, else
/// Chat Completions.
pub open spec fn format_of_url(base_url: Seq<char>) -> UpstreamFormat {
    if contains_seq(base_url, "anthropic"@) {
        UpstreamFormat::Anthropic
    } else if contains_seq(base_url, "responses"@) {
        UpstreamFormat::Responses
    } else {
        UpstreamFormat::OpenAiChat
    }
}

/// Whether a format setting asks for detection: empty, or `auto` in any case.
pub open spec fn format_is_auto(s: Seq<char>) -> bool {
    s.len() == 0 || lower_name(s) == "auto"@
}

/// The format of a provider: detected from its base URL when none is given
/// or it is `auto`; else the named format, or OpenAI chat for an unknown
/// name.
pub open spec fn format_for_spec(f: Option<Seq<char>>, base_url: Seq<char>) -> UpstreamFormat {
    match f {
        Some(s) => if format_is_auto(s) {
            format_of_url(base_url)
        } else {
            match format_from_str_spec(s) {
                Some(x) => x,
                None => UpstreamFormat::OpenAiChat,
            }
        },
        None => format_of_url(base_url),
    }
}

/// A vendor named in the configuration, or the vendor of the base URL when
/// none or an unknown one is named.
pub open spec fn vendor_hint_spec(v: Option<Seq<char>>, base_url: Seq<char>) -> UpstreamVendor {
    match v {
        Some(n) => if n == "deepseek"@ {
            UpstreamVendor::DeepSeek
        } else if n == "openai"@ {
            UpstreamVendor::OpenAI
        } else if n == "anthropic"@ {
            UpstreamVendor::Anthropic
        } else if n == "xiaomimimo"@ {
            UpstreamVendor::XiaomiMimo
        } else {
            vendor_of_url(base_url)
        },
        None => vendor_of_url(base_url),
    }
}

/// A provider entry of the config file as used at run time.
pub open spec fn provider_from_config_spec(p: ProviderConfigModel) -> ResolvedProviderModel {
    ResolvedProviderModel {
        name: p.name,
        base_url: p.base_url,
        format: format_for_spec(Some(p.format), p.base_url),
        api_key: p.apikey,
        vendor: vendor_hint_spec(p.vendor, p.base_url),
        drop_images: p.drop_images,
        extra_headers: p.headers,
    }
}

/// The `default` provider of a single-provider config file.
pub open spec fn legacy_provider_spec(app: AppConfigModel, base_url: Seq<char>) -> ResolvedProviderModel {
    ResolvedProviderModel {
        name: "default"@,
        base_url,
        format: format_for_spec(app.format, base_url),
        api_key: app.apikey,
        vendor: vendor_hint_spec(app.vendor, base_url),
        drop_images: unwrap_bool(app.drop_images),
        extra_headers: app.headers,
    }
}

/// `b`, or `false` when absent.
pub open spec fn unwrap_bool(b: Option<bool>) -> bool {
    match b {
        Some(x) => x,
        None => false,
    }
}

/// The alias a config-file entry `alias: provider/model` adds, if any.
pub open spec fn alias_entry_spec(kv: KeyValueModel) -> Option<ModelAliasModel> {
    match first_index_of(kv.value, '/') {
        Some(j) => Some(
            ModelAliasModel {
                provider: kv.value.subrange(0, j),
                model: kv.value.subrange(j + 1, kv.value.len() as int),
            },
        ),
        None => None,
    }
}

/// The alias table after the config-file entries, in order.
pub open spec fn aliases_from_pairs(m: ModelAliasMapModel, kvs: Seq<KeyValueModel>) -> ModelAliasMapModel
    decreases kvs.len(),
{
    if kvs.len() == 0 {
        m
    } else {
        let m2 = aliases_from_pairs(m, kvs.drop_last());
        match alias_entry_spec(kvs.last()) {
            Some(t) => insert_spec(m2, kvs.last().key, t),
            None => m2,
        }
    }
}

/// The alias table after the command-line `alias=provider/model` values, in order.
pub open spec fn aliases_from_cli(m: ModelAliasMapModel, raws: Seq<Seq<char>>) -> ModelAliasMapModel
    decreases raws.len(),
{
    if raws.len() == 0 {
        m
    } else {
        let m2 = aliases_from_cli(m, raws.drop_last());
        match parse_alias_spec(raws.last()) {
            Some((a, t)) => insert_spec(m2, a, t),
            None => m2,
        }
    }
}

/// The configuration that the config file gives.
pub open spec fn file_config_spec(app: AppConfigModel) -> RuntimeConfigModel {
    let d = default_runtime_spec();
    let with_server = match app.server {
        Some(s) => RuntimeConfigModel {
            addr: s.addr,
            access_log_dir: s.access_log_dir,
            log_http: s.log_http || app.log_http,
            cors: !(s.no_cors || app.no_cors),
            prefer_client_key: s.prefer_client_key || app.prefer_client_key,
            truncate_reasoning: s.truncate_reasoning || app.truncate_reasoning,
            enable_reqlog: s.reqlog || app.reqlog,
            drop_images: s.drop_images || unwrap_bool(app.drop_images),
            ..d
        },
        None => RuntimeConfigModel {
            log_http: app.log_http,
            cors: !app.no_cors,
            prefer_client_key: app.prefer_client_key,
            truncate_reasoning: app.truncate_reasoning,
            enable_reqlog: app.reqlog,
            drop_images: unwrap_bool(app.drop_images),
            ..d
        },
    };
    let dir = match with_server.access_log_dir {
        Some(x) => Some(x),
        None => app.access_log_dir,
    };
    let listed = app.providers.map_values(|p: ProviderConfigModel| provider_from_config_spec(p));
    let providers = match app.base_url {
        Some(u) => if listed.len() == 0 {
            seq![legacy_provider_spec(app, u)]
        } else {
            listed
        },
        None => listed,
    };
    RuntimeConfigModel {
        access_log_dir: dir,
        providers,
        alias_map: aliases_from_pairs(d.alias_map, app.model_aliases),
        ..with_server
    }
}

/// The `default` provider that `UPSTREAM_BASE_URL` gives.
pub open spec fn env_provider_spec(env: EnvSettingsModel, url: Seq<char>) -> ResolvedProviderModel {
    ResolvedProviderModel {
        name: "default"@,
        base_url: url,
        format: format_for_spec(env.upstream_format, url),
        api_key: env.upstream_api_key,
        vendor: vendor_of_url(url),
        drop_images: false,
        extra_headers: seq![],
    }
}

/// The configuration after the environment: `UPSTREAM_BASE_URL` adds a
/// provider only when none is configured.
pub open spec fn env_config_spec(c: RuntimeConfigModel, env: EnvSettingsModel) -> RuntimeConfigModel {
    match env.upstream_base_url {
        Some(url) => if c.providers.len() == 0 {
            RuntimeConfigModel { providers: seq![env_provider_spec(env, url)], ..c }
        } else {
            c
        },
        None => c,
    }
}

/// Whether a provider is one that a command-line base URL replaces.
pub open spec fn replaced_by_cli(p: ResolvedProviderModel) -> bool {
    p.name == "cli"@ || p.name == "default"@
}

/// The providers that a command-line base URL keeps, in order.
pub open spec fn kept_providers(ps: Seq<ResolvedProviderModel>) -> Seq<ResolvedProviderModel>
    decreases ps.len(),
{
    if ps.len() == 0 {
        ps
    } else if replaced_by_cli(ps.last()) {
        kept_providers(ps.drop_last())
    } else {
        kept_providers(ps.drop_last()).push(ps.last())
    }
}

/// The `cli` provider of a command-line base URL.
pub open spec fn cli_provider_spec(cli: CliSettingsModel, url: Seq<char>) -> ResolvedProviderModel {
    ResolvedProviderModel {
        name: "cli"@,
        base_url: url,
        format: format_for_spec(cli.format, url),
        api_key: cli.api_key,
        vendor: vendor_hint_spec(cli.vendor, url),
        drop_images: cli.drop_images,
        extra_headers: seq![],
    }
}

/// The access log directory after the command line: the option, else what
/// is configured, else `LOG_DIR`, else `DATA_DIR/logs`.
pub open spec fn access_log_dir_spec(
    configured: Option<Seq<char>>,
    cli: CliSettingsModel,
    env: EnvSettingsModel,
) -> Option<Seq<char>> {
    match cli.access_log_dir {
        Some(d) => Some(d),
        None => match configured {
            Some(d) => Some(d),
            None => match env.log_dir {
                Some(d) => Some(d),
                None => match env.data_dir {
                    Some(d) => Some(d + "/logs"@),
                    None => None,
                },
            },
        },
    }
}

/// The configuration after the command line, which overrides everything.
pub open spec fn cli_config_spec(c: RuntimeConfigModel, cli: CliSettingsModel, env: EnvSettingsModel) -> RuntimeConfigModel {
    RuntimeConfigModel {
        providers: match cli.base_url {
            Some(url) => seq![cli_provider_spec(cli, url)] + kept_providers(c.providers),
            None => c.providers,
        },
        cors: c.cors && !cli.no_cors,
        log_http: cli.log_http || c.log_http,
        access_log_dir: access_log_dir_spec(c.access_log_dir, cli, env),
        prefer_client_key: cli.prefer_client_key || c.prefer_client_key,
        enable_reqlog: cli.enable_reqlog || c.enable_reqlog,
        alias_map: aliases_from_cli(c.alias_map, cli.model_alias),
        ..c
    }
}

/// The provider used when nothing else is configured.
pub open spec fn fallback_provider_spec() -> ResolvedProviderModel {
    ResolvedProviderModel {
        name: "default"@,
        base_url: "https://api.openai.com"@,
        format: UpstreamFormat::OpenAiChat,
        api_key: None,
        vendor: UpstreamVendor::OpenAI,
        drop_images: false,
        extra_headers: seq![],
    }
}

/// The configuration with at least one provider, the first being the default.
pub open spec fn finish_config_spec(c: RuntimeConfigModel) -> RuntimeConfigModel {
    let providers = if c.providers.len() == 0 {
        seq![fallback_provider_spec()]
    } else {
        c.providers
    };
    RuntimeConfigModel { providers, default_provider: providers[0].name, ..c }
}

/// The run-time configuration: the config file (if any), then the
/// environment, then the command line, then the fallback provider.
pub open spec fn runtime_config_spec(
    app: Option<AppConfigModel>,
    env: EnvSettingsModel,
    cli: CliSettingsModel,
) -> RuntimeConfigModel {
    let c = match app {
        Some(a) => file_config_spec(a),
        None => default_runtime_spec(),
    };
    finish_config_spec(cli_config_spec(env_config_spec(c, env), cli, env))
}

// ---------------------------------------------------------------------------
// Resolution: implementation
// ---------------------------------------------------------------------------

/// Models of a vector of providers.
pub open spec fn providers_model(v: Seq<ResolvedProvider>) -> Seq<ResolvedProviderModel> {
    v.map_values(|p: ResolvedProvider| p@)
}

proof fn lemma_providers_push(v: Seq<ResolvedProvider>, x: ResolvedProvider)
    ensures
        providers_model(v.push(x)) == providers_model(v).push(x@),
{
    assert(providers_model(v.push(x)) =~= providers_model(v).push(x@));
}

/// The format a base URL suggests (see [`format_of_url`]).
pub fn format_of_base_url(base_url: &str) -> (r: UpstreamFormat)
    ensures
        r == format_of_url(base_url@),
{
    if contains(base_url, "anthropic") {
        UpstreamFormat::Anthropic
    } else if contains(base_url, "responses") {
        UpstreamFormat::Responses
    } else {
        UpstreamFormat::OpenAiChat
    }
}

fn lower_name_of(s: &str) -> (r: String)
    ensures
        r@ == lower_name(s@),
{
    to_lowercase(s)
}

/// The format of a provider (see [`format_for_spec`]).
pub fn format_for(f: &Option<String>, base_url: &str) -> (r: UpstreamFormat)
    ensures
        r == format_for_spec(opt_seq(*f), base_url@),
{
    match f {
        Some(s) => {
            let l = lower_name_of(s.as_str());
            proof {
                reveal_strlit("");
                assert(""@.len() == 0);
                if s@.len() == 0 {
                    assert(s@ =~= ""@);
                }
            }
            if str_eq(s.as_str(), "") || str_eq(l.as_str(), "auto") {
                format_of_base_url(base_url)
            } else {
                match UpstreamFormat::from_str(s.as_str()) {
                    Some(x) => x,
                    None => UpstreamFormat::OpenAiChat,
                }
            }
        },
        None => format_of_base_url(base_url),
    }
}

fn vendor_hint(v: &Option<String>, base_url: &str) -> (r: UpstreamVendor)
    ensures
        r == vendor_hint_spec(opt_seq(*v), base_url@),
{
    let named = match v {
        Some(n) => {
            let n = n.as_str();
            if str_eq(n, "deepseek") {
                UpstreamVendor::DeepSeek
            } else if str_eq(n, "openai") {
                UpstreamVendor::OpenAI
            } else if str_eq(n, "anthropic") {
                UpstreamVendor::Anthropic
            } else if str_eq(n, "xiaomimimo") {
                UpstreamVendor::XiaomiMimo
            } else {
                UpstreamVendor::Auto
            }
        },
        None => UpstreamVendor::Auto,
    };
    named.resolve(base_url)
}

fn provider_from_config(p: &ProviderConfig) -> (r: ResolvedProvider)
    ensures
        r@ == provider_from_config_spec(p@),
{
    let fmt = Some(p.format.clone());
    ResolvedProvider {
        name: p.name.clone(),
        base_url: p.base_url.clone(),
        format: format_for(&fmt, p.base_url.as_str()),
        api_key: p.apikey.clone(),
        vendor: vendor_hint(&p.vendor, p.base_url.as_str()),
        drop_images: p.drop_images,
        extra_headers: clone_vec_KeyValue(&p.headers),
    }
}

fn load_alias_pairs(map: &mut ModelAliasMap, kvs: &Vec<KeyValue>)
    ensures
        final(map)@ == aliases_from_pairs(old(map)@, kvs@.map_values(|kv: KeyValue| kv@)),
{
    let ghost start = map@;
    let ghost ks = kvs@.map_values(|kv: KeyValue| kv@);
    let mut i: usize = 0;
    while i < kvs.len()
        invariant
            i <= kvs.len(),
            ks == kvs@.map_values(|kv: KeyValue| kv@),
            map@ == aliases_from_pairs(start, ks.take(i as int)),
        decreases kvs.len() - i,
    {
        proof {
            assert(ks.take(i + 1).drop_last() =~= ks.take(i as int));
            assert(ks.take(i + 1).last() == kvs@[i as int]@);
        }
        if let Some((provider, model)) = split_once_char(kvs[i].value.as_str(), '/') {
            map.insert(kvs[i].key.as_str(), ModelAlias { provider, model });
        }
        i += 1;
    }
    assert(ks.take(kvs.len() as int) =~= ks);
}

fn load_cli_aliases(map: &mut ModelAliasMap, raws: &Vec<String>)
    ensures
        final(map)@ == aliases_from_cli(old(map)@, raws@.map_values(|s: String| s@)),
{
    let ghost start = map@;
    let ghost rs = raws@.map_values(|s: String| s@);
    let mut i: usize = 0;
    while i < raws.len()
        invariant
            i <= raws.len(),
            rs == raws@.map_values(|s: String| s@),
            map@ == aliases_from_cli(start, rs.take(i as int)),
        decreases raws.len() - i,
    {
        proof {
            assert(rs.take(i + 1).drop_last() =~= rs.take(i as int));
            assert(rs.take(i + 1).last() == raws@[i as int]@);
        }
        if let Some((alias, target)) = ModelAlias::parse(raws[i].as_str()) {
            map.insert(alias.as_str(), target);
        }
        i += 1;
    }
    assert(rs.take(raws.len() as int) =~= rs);
}

fn file_config(app: &AppConfig) -> (r: RuntimeConfig)
    ensures
        r@ == file_config_spec(app@),
{
    let mut c = RuntimeConfig::default();
    match &app.server {
        Some(s) => {
            c.addr = s.addr.clone();
            c.access_log_dir = s.access_log_dir.clone();
            c.log_http = s.log_http || app.log_http;
            c.cors = !(s.no_cors || app.no_cors);
            c.prefer_client_key = s.prefer_client_key || app.prefer_client_key;
            c.truncate_reasoning = s.truncate_reasoning || app.truncate_reasoning;
            c.enable_reqlog = s.reqlog || app.reqlog;
            c.drop_images = s.drop_images || match app.drop_images {
                Some(d) => d,
                None => false,
            };
        },
        None => {
            c.log_http = app.log_http;
            c.cors = !app.no_cors;
            c.prefer_client_key = app.prefer_client_key;
            c.truncate_reasoning = app.truncate_reasoning;
            c.enable_reqlog = app.reqlog;
            c.drop_images = match app.drop_images {
                Some(d) => d,
                None => false,
            };
        },
    }
    if c.access_log_dir.is_none() {
        c.access_log_dir = app.access_log_dir.clone();
    }
    let ghost listed = app@.providers.map_values(|p: ProviderConfigModel| provider_from_config_spec(p));
    let mut providers: Vec<ResolvedProvider> = Vec::new();
    let mut i: usize = 0;
    while i < app.providers.len()
        invariant
            i <= app.providers.len(),
            listed == app@.providers.map_values(|p: ProviderConfigModel| provider_from_config_spec(p)),
            providers_model(providers@) == listed.take(i as int),
        decreases app.providers.len() - i,
    {
        let p = provider_from_config(&app.providers[i]);
        let ghost prev = providers@;
        providers.push(p);
        proof {
            lemma_providers_push(prev, p);
            assert(listed.take(i + 1) =~= listed.take(i as int).push(listed[i as int]));
        }
        i += 1;
    }
    assert(listed.take(app.providers.len() as int) =~= listed);
    if providers.len() == 0 {
        if let Some(u) = &app.base_url {
            let d = match app.drop_images {
                Some(x) => x,
                None => false,
            };
            let ghost prev = providers@;
            let lp = ResolvedProvider {
                    name: owned("default"),
                    base_url: u.clone(),
                    format: format_for(&app.format, u.as_str()),
                    api_key: app.apikey.clone(),
                    vendor: vendor_hint(&app.vendor, u.as_str()),
                    drop_images: d,
                    extra_headers: clone_vec_KeyValue(&app.headers),
                };
            providers.push(lp);
            proof {
                lemma_providers_push(prev, lp);
                assert(providers_model(providers@) =~= seq![legacy_provider_spec(app@, u@)]);
            }
        }
    }
    c.providers = providers;
    load_alias_pairs(&mut c.alias_map, &app.model_aliases);
    c
}

fn apply_env(c: &mut RuntimeConfig, env: &EnvSettings)
    ensures
        final(c)@ == env_config_spec(old(c)@, env@),
{
    if let Some(url) = &env.upstream_base_url {
        if c.providers.len() == 0 {
            let p = ResolvedProvider {
                name: owned("default"),
                base_url: url.clone(),
                format: format_for(&env.upstream_format, url.as_str()),
                api_key: env.upstream_api_key.clone(),
                vendor: UpstreamVendor::Auto.resolve(url.as_str()),
                drop_images: false,
                extra_headers: Vec::new(),
            };
            let mut ps: Vec<ResolvedProvider> = Vec::new();
            proof {
                assert(p@.extra_headers =~= seq![]);
                lemma_providers_push(ps@, p);
                assert(providers_model(ps@) =~= seq![]);
            }
            ps.push(p);
            c.providers = ps;
            assert(c@.providers =~= seq![env_provider_spec(env@, url@)]);
        }
    }
}

fn kept(ps: &Vec<ResolvedProvider>) -> (r: Vec<ResolvedProvider>)
    ensures
        providers_model(r@) == kept_providers(providers_model(ps@)),
{
    let ghost all = providers_model(ps@);
    let mut out: Vec<ResolvedProvider> = Vec::new();
    let mut i: usize = 0;
    while i < ps.len()
        invariant
            i <= ps.len(),
            all == providers_model(ps@),
            providers_model(out@) == kept_providers(all.take(i as int)),
        decreases ps.len() - i,
    {
        proof {
            assert(all.take(i + 1).drop_last() =~= all.take(i as int));
        }
        let name = ps[i].name.as_str();
        if !(str_eq(name, "cli") || str_eq(name, "default")) {
            out.push(ps[i].clone());
            proof {
                assert(providers_model(out@) =~= kept_providers(all.take(i as int)).push(all[i as int]));
            }
        }
        i += 1;
    }
    assert(all.take(ps.len() as int) =~= all);
    out
}

fn cli_providers(ps: &Vec<ResolvedProvider>, cli: &CliSettings, url: &String) -> (r: Vec<ResolvedProvider>)
    ensures
        providers_model(r@) == seq![cli_provider_spec(cli@, url@)] + kept_providers(providers_model(ps@)),
{
    let p = ResolvedProvider {
        name: owned("cli"),
        base_url: url.clone(),
        format: format_for(&cli.format, url.as_str()),
        api_key: cli.api_key.clone(),
        vendor: vendor_hint(&cli.vendor, url.as_str()),
        drop_images: cli.drop_images,
        extra_headers: Vec::new(),
    };
    assert(p@.extra_headers =~= seq![]);
    let rest = kept(ps);
    let mut out: Vec<ResolvedProvider> = Vec::new();
    proof {
        lemma_providers_push(out@, p);
        assert(providers_model(out@) =~= seq![]);
    }
    out.push(p);
    let mut j: usize = 0;
    while j < rest.len()
        invariant
            j <= rest.len(),
            providers_model(out@) == seq![p@] + providers_model(rest@).take(j as int),
        decreases rest.len() - j,
    {
        let ghost prev = out@;
        let q = rest[j].clone();
        out.push(q);
        proof {
            lemma_providers_push(prev, q);
            assert(providers_model(rest@).take(j + 1) =~= providers_model(rest@).take(j as int).push(
                rest@[j as int]@,
            ));
            assert(providers_model(out@) =~= seq![p@] + providers_model(rest@).take(j + 1));
        }
        j += 1;
    }
    assert(providers_model(rest@).take(rest.len() as int) =~= providers_model(rest@));
    out
}

fn access_log_dir(configured: &Option<String>, cli: &CliSettings, env: &EnvSettings) -> (r: Option<String>)
    ensures
        opt_seq(r) == access_log_dir_spec(opt_seq(*configured), cli@, env@),
{
    match &cli.access_log_dir {
        Some(d) => Some(d.clone()),
        None => match configured {
            Some(d) => Some(d.clone()),
            None => match &env.log_dir {
                Some(d) => Some(d.clone()),
                None => match &env.data_dir {
                    Some(d) => Some(concat(d.as_str(), "/logs")),
                    None => None,
                },
            },
        },
    }
}

fn apply_cli(c: &mut RuntimeConfig, cli: &CliSettings, env: &EnvSettings)
    ensures
        final(c)@ == cli_config_spec(old(c)@, cli@, env@),
{
    if let Some(url) = &cli.base_url {
        c.providers = cli_providers(&c.providers, cli, url);
    }
    if cli.no_cors {
        c.cors = false;
    }
    c.log_http = cli.log_http || c.log_http;
    c.access_log_dir = access_log_dir(&c.access_log_dir, cli, env);
    c.prefer_client_key = cli.prefer_client_key || c.prefer_client_key;
    c.enable_reqlog = cli.enable_reqlog || c.enable_reqlog;
    load_cli_aliases(&mut c.alias_map, &cli.model_alias);
}

fn finish_config(c: &mut RuntimeConfig)
    ensures
        final(c)@ == finish_config_spec(old(c)@),
{
    if c.providers.len() == 0 {
        let p = ResolvedProvider {
            name: owned("default"),
            base_url: owned("https://api.openai.com"),
            format: UpstreamFormat::OpenAiChat,
            api_key: None,
            vendor: UpstreamVendor::OpenAI,
            drop_images: false,
            extra_headers: Vec::new(),
        };
        let mut ps: Vec<ResolvedProvider> = Vec::new();
        proof {
            assert(p@.extra_headers =~= seq![]);
            lemma_providers_push(ps@, p);
            assert(providers_model(ps@) =~= seq![]);
        }
        ps.push(p);
        c.providers = ps;
        assert(c@.providers =~= seq![fallback_provider_spec()]);
    }
    c.default_provider = c.providers[0].name.clone();
}

/// Resolves the run-time configuration from the parsed config file (if
/// any), the environment and the command line, in that order of priority
/// from lowest to highest.
pub fn build_runtime_config(app: Option<&AppConfig>, env: &EnvSettings, cli: &CliSettings) -> (r: RuntimeConfig)
    ensures
        r@ == runtime_config_spec(
            match app {
                Some(a) => Some(a@),
                None => None,
            },
            env@,
            cli@,
        ),
{
    let mut c = match app {
        Some(a) => file_config(a),
        None => RuntimeConfig::default(),
    };
    apply_env(&mut c, env);
    apply_cli(&mut c, cli, env);
    finish_config(&mut c);
    c
}

// ---------------------------------------------------------------------------
// Lookups
// ---------------------------------------------------------------------------

/// Index of the first provider named `name`, searching from `from`.
pub open spec fn provider_index_from(ps: Seq<ResolvedProviderModel>, name: Seq<char>, from: int) -> Option<int>
    decreases ps.len() - from,
{
    if from < 0 || from >= ps.len() {
        None
    } else if ps[from].name == name {
        Some(from)
    } else {
        provider_index_from(ps, name, from + 1)
    }
}

/// The provider named `name`, else the first provider (if any).
pub open spec fn provider_or_first(ps: Seq<ResolvedProviderModel>, name: Seq<char>) -> Option<int> {
    match provider_index_from(ps, name, 0) {
        Some(i) => Some(i),
        None => if ps.len() > 0 {
            Some(0)
        } else {
            None
        },
    }
}

/// Optional string slice as a character sequence.
pub open spec fn opt_str(o: Option<&str>) -> Option<Seq<char>> {
    match o {
        Some(s) => Some(s@),
        None => None,
    }
}

/// The provider a model name selects: `provider/model` names it, an alias
/// points at it; else (or when it is not configured) the first provider.
pub open spec fn resolve_provider_spec(c: RuntimeConfigModel, model: Option<Seq<char>>) -> Option<int> {
    match model {
        None => None,
        Some(m) => match first_index_of(m, '/') {
            Some(j) => provider_or_first(c.providers, m.subrange(0, j)),
            None => match resolve_spec(c.alias_map, m) {
                Some(t) => provider_or_first(c.providers, t.provider),
                None => if c.providers.len() > 0 {
                    Some(0)
                } else {
                    None
                },
            },
        },
    }
}

/// The upstream model name and the provider index for a model name.
pub open spec fn resolve_model_and_provider_spec(c: RuntimeConfigModel, m: Seq<char>) -> (Seq<char>, int) {
    match first_index_of(m, '/') {
        Some(j) => (
            m.subrange(j + 1, m.len() as int),
            match provider_index_from(c.providers, m.subrange(0, j), 0) {
                Some(i) => i,
                None => 0,
            },
        ),
        None => match resolve_spec(c.alias_map, m) {
            Some(t) => (
                t.model,
                match provider_index_from(c.providers, t.provider, 0) {
                    Some(i) => i,
                    None => 0,
                },
            ),
            None => (m, 0),
        },
    }
}

/// The upstream model name for a model name: empty for none, the part after
/// `/` of `provider/model`, the alias target's model, else the name itself.
pub open spec fn resolve_upstream_model_spec(c: RuntimeConfigModel, model: Option<Seq<char>>) -> Seq<char> {
    match model {
        None => seq![],
        Some(m) => if m.len() == 0 {
            seq![]
        } else {
            match first_index_of(m, '/') {
                Some(j) => m.subrange(j + 1, m.len() as int),
                None => match resolve_spec(c.alias_map, m) {
                    Some(t) => t.model,
                    None => m,
                },
            }
        },
    }
}

impl RuntimeConfig {
    fn find_provider(&self, name: &str) -> (r: Option<usize>)
        ensures
            match r {
                Some(i) => i < self@.providers.len() && provider_index_from(self@.providers, name@, 0)
                    == Some(i as int),
                None => provider_index_from(self@.providers, name@, 0) is None,
            },
    {
        let ghost ps = self@.providers;
        let mut i: usize = 0;
        while i < self.providers.len()
            invariant
                i <= self.providers.len(),
                ps == self@.providers,
                ps.len() == self.providers.len(),
                provider_index_from(ps, name@, 0) == provider_index_from(ps, name@, i as int),
            decreases self.providers.len() - i,
        {
            assert(ps[i as int] == self.providers@[i as int]@);
            if str_eq(self.providers[i].name.as_str(), name) {
                return Some(i);
            }
            i += 1;
        }
        None
    }

    fn provider_or_first(&self, name: &str) -> (r: Option<&ResolvedProvider>)
        ensures
            match (r, provider_or_first(self@.providers, name@)) {
                (Some(p), Some(i)) => p@ == self@.providers[i],
                (None, None) => true,
                _ => false,
            },
    {
        match self.find_provider(name) {
            Some(i) => Some(&self.providers[i]),
            None => if self.providers.len() > 0 {
                Some(&self.providers[0])
            } else {
                None
            },
        }
    }

    /// The provider for a model name: `provider/model` names it, an alias
    /// points at it; otherwise (and when the named provider is not
    /// configured) the first provider. `None` when no model is given.
    pub fn resolve_provider(&self, model: Option<&str>) -> (r: Option<&ResolvedProvider>)
        ensures
            match (r, resolve_provider_spec(self@, opt_str(model))) {
                (Some(p), Some(i)) => p@ == self@.providers[i],
                (None, None) => true,
                _ => false,
            },
    {
        let model = match model {
            Some(m) => m,
            None => {
                return None;
            },
        };
        if let Some((provider_name, _upstream)) = split_once_char(model, '/') {
            return self.provider_or_first(provider_name.as_str());
        }
        if let Some(target) = self.alias_map.resolve(model) {
            return self.provider_or_first(target.provider.as_str());
        }
        if self.providers.len() > 0 {
            Some(&self.providers[0])
        } else {
            None
        }
    }

    /// The upstream model name and the provider for a model name, in one
    /// lookup; falls back to the first provider and the name as it is.
    pub fn resolve_model_and_provider(&self, model: &str) -> (r: (String, &ResolvedProvider))
        requires
            self.providers.len() > 0,
        ensures
            ({
                let (m, i) = resolve_model_and_provider_spec(self@, model@);
                &&& r.0@ == m
                &&& 0 <= i < self@.providers.len()
                &&& r.1@ == self@.providers[i]
            }),
    {
        if let Some((provider_name, upstream_model)) = split_once_char(model, '/') {
            let p = match self.find_provider(provider_name.as_str()) {
                Some(i) => &self.providers[i],
                None => &self.providers[0],
            };
            return (upstream_model, p);
        }
        if let Some(target) = self.alias_map.resolve(model) {
            let p = match self.find_provider(target.provider.as_str()) {
                Some(i) => &self.providers[i],
                None => &self.providers[0],
            };
            return (target.model.clone(), p);
        }
        (owned(model), &self.providers[0])
    }

    /// Base URL of the default provider (`https://api.openai.com` when none).
    pub fn base_url(&self) -> (r: &str)
        ensures
            r@ == (if self@.providers.len() > 0 {
                self@.providers[0].base_url
            } else {
                "https://api.openai.com"@
            }),
    {
        if self.providers.len() > 0 {
            self.providers[0].base_url.as_str()
        } else {
            "https://api.openai.com"
        }
    }

    /// Format of the default provider (OpenAI chat when none).
    pub fn upstream_format(&self) -> (r: UpstreamFormat)
        ensures
            r == (if self@.providers.len() > 0 {
                self@.providers[0].format
            } else {
                UpstreamFormat::OpenAiChat
            }),
    {
        if self.providers.len() > 0 {
            self.providers[0].format
        } else {
            UpstreamFormat::OpenAiChat
        }
    }

    /// API key of the default provider.
    pub fn api_key(&self) -> (r: Option<&str>)
        ensures
            opt_str(r) == (if self@.providers.len() > 0 {
                self@.providers[0].api_key
            } else {
                None
            }),
    {
        if self.providers.len() > 0 {
            match &self.providers[0].api_key {
                Some(k) => Some(k.as_str()),
                None => None,
            }
        } else {
            None
        }
    }

    /// Vendor of the default provider (OpenAI when none).
    pub fn vendor(&self) -> (r: UpstreamVendor)
        ensures
            r == (if self@.providers.len() > 0 {
                self@.providers[0].vendor
            } else {
                UpstreamVendor::OpenAI
            }),
    {
        if self.providers.len() > 0 {
            self.providers[0].vendor
        } else {
            UpstreamVendor::OpenAI
        }
    }

    /// Whether images are dropped: globally or by the default provider.
    pub fn drop_images(&self) -> (r: bool)
        ensures
            r == (self@.drop_images || (self@.providers.len() > 0 && self@.providers[0].drop_images)),
    {
        self.drop_images || (self.providers.len() > 0 && self.providers[0].drop_images)
    }

    /// Extra headers of the default provider.
    pub fn extra_headers(&self) -> (r: Option<&Vec<KeyValue>>)
        ensures
            match r {
                Some(h) => self@.providers.len() > 0 && h@.map_values(|kv: KeyValue| kv@)
                    == self@.providers[0].extra_headers,
                None => self@.providers.len() == 0,
            },
    {
        if self.providers.len() > 0 {
            Some(&self.providers[0].extra_headers)
        } else {
            None
        }
    }

    /// The upstream model name for a model name (see
    /// [`resolve_upstream_model_spec`]).
    pub fn resolve_upstream_model(&self, model: Option<&str>) -> (r: String)
        ensures
            r@ == resolve_upstream_model_spec(self@, opt_str(model)),
    {
        let model = match model {
            Some(m) => m,
            None => {
                return String::new();
            },
        };
        if model.unicode_len() == 0 {
            return String::new();
        }
        if let Some((_provider, upstream_model)) = split_once_char(model, '/') {
            return upstream_model;
        }
        if let Some(target) = self.alias_map.resolve(model) {
            return target.model.clone();
        }
        owned(model)
    }

    /// The default model name: always empty (requests name their model).
    pub fn model(&self) -> (r: &str)
        ensures
            r@ == Seq::<char>::empty(),
    {
        proof {
            reveal_strlit("");
        }
        ""
    }

    /// Whether the model list is hidden.
    pub fn hide_model_list(&self) -> (r: bool)
        ensures
            r == self@.hide_model_list,
    {
        self.hide_model_list
    }
}

// ---------------------------------------------------------------------------
// The summary printed at start-up
// ---------------------------------------------------------------------------

/// An API key as it is shown: its first and last four bytes around `****`
/// when it is longer than eight bytes, `***` otherwise, `-` when there is
/// none.
pub open spec fn mask_key_spec(key: Option<Seq<char>>) -> Seq<char> {
    match key {
        Some(k) => {
            let b = encode_utf8(k);
            if b.len() > 8 {
                decode_utf8(b.subrange(0, 4)) + "****"@ + decode_utf8(b.subrange(b.len() - 4, b.len() as int))
            } else {
                "***"@
            }
        },
        None => "-"@,
    }
}

/// Whether a key can be masked: a long key must have character boundaries
/// four bytes from either end.
pub open spec fn maskable(key: Option<Seq<char>>) -> bool {
    match key {
        Some(k) => {
            let b = encode_utf8(k);
            b.len() > 8 ==> is_char_boundary(b, 4) && is_char_boundary(b, b.len() - 4)
        },
        None => true,
    }
}

/// An API key as it is shown (see [`mask_key_spec`]).
pub fn mask_key(key: Option<&str>) -> (r: String)
    requires
        maskable(
            match key {
                Some(k) => Some(k@),
                None => None,
            },
        ),
    ensures
        r@ == mask_key_spec(
            match key {
                Some(k) => Some(k@),
                None => None,
            },
        ),
{
    let k = match key {
        Some(k) => k,
        None => {
            return owned("-");
        },
    };
    let n = k.as_bytes().len();
    if n <= 8 {
        return owned("***");
    }
    let (head, _) = k.split_at(4);
    let (_, tail) = k.split_at(n - 4);
    proof {
        vstd::utf8::encode_utf8_decode_utf8(head@);
        vstd::utf8::encode_utf8_decode_utf8(tail@);
    }
    let mut r = owned(head);
    r.append("****");
    r.append(tail);
    r
}

/// A line of the summary: the label padded to 18 characters, then the
/// value.
pub open spec fn summary_line_spec(label: Seq<char>, value: Seq<char>) -> Seq<char> {
    "  "@ + pad_right_spec(label, 18) + " "@ + value
}

/// A line of the summary (see [`summary_line_spec`]).
pub fn summary_line(label: &str, value: &str) -> (r: String)
    ensures
        r@ == summary_line_spec(label@, value@),
{
    let mut r = owned("  ");
    r.append(pad_right(label, 18).as_str());
    r.append(" ");
    r.append(value);
    r
}

/// How a flag is shown.
pub open spec fn bool_text(b: bool) -> Seq<char> {
    if b {
        "true"@
    } else {
        "false"@
    }
}

fn bool_string(b: bool) -> (r: String)
    ensures
        r@ == bool_text(b),
{
    if b {
        owned("true")
    } else {
        owned("false")
    }
}

/// The summary lines of a provider.
pub open spec fn provider_lines(p: ResolvedProviderModel) -> Seq<Seq<char>> {
    seq![
        "── "@ + p.name + " ──"@,
        summary_line_spec("base_url:"@, p.base_url),
        summary_line_spec("format:"@, format_name_spec(p.format)),
        summary_line_spec("vendor:"@, vendor_name_spec(p.vendor)),
        summary_line_spec("api_key:"@, mask_key_spec(p.api_key)),
        summary_line_spec("drop_images:"@, bool_text(p.drop_images)),
    ]
}

/// The summary lines of all providers, in order.
pub open spec fn providers_lines(ps: Seq<ResolvedProviderModel>) -> Seq<Seq<char>>
    decreases ps.len(),
{
    if ps.len() == 0 {
        seq![]
    } else {
        providers_lines(ps.drop_last()) + provider_lines(ps.last())
    }
}

/// The summary of the resolved configuration, without the aliases: the
/// server section, then each provider with its key masked.
pub open spec fn summary_spec(c: RuntimeConfigModel) -> Seq<Seq<char>> {
    seq![
        "── server ──"@,
        summary_line_spec("addr:"@, c.addr),
        summary_line_spec("cors:"@, bool_text(c.cors)),
        summary_line_spec("reqlog:"@, bool_text(c.enable_reqlog)),
    ] + providers_lines(c.providers)
}

/// The line that shows an alias and its target.
pub open spec fn alias_line_spec(alias: Seq<char>, target: ModelAliasModel) -> Seq<char> {
    "  "@ + pad_right_spec(alias + " →"@, 18) + " "@ + target.provider + "/"@ + target.model
}

/// The line that shows an alias and its target (see [`alias_line_spec`]).
pub fn alias_line(alias: &str, target: &ModelAlias) -> (r: String)
    ensures
        r@ == alias_line_spec(alias@, target@),
{
    let label = concat(alias, " →");
    let mut r = owned("  ");
    r.append(pad_right(label.as_str(), 18).as_str());
    r.append(" ");
    r.append(target.provider.as_str());
    r.append("/");
    r.append(target.model.as_str());
    r
}

impl RuntimeConfig {
    /// The summary printed at start-up, without the aliases (see
    /// [`summary_spec`]); every provider's key must be maskable.
    pub fn summary_lines(&self) -> (r: Vec<String>)
        requires
            forall|i: int| 0 <= i < self@.providers.len() ==> maskable(#[trigger] self@.providers[i].api_key),
        ensures
            string_seqs(r@) == summary_spec(self@),
    {
        let mut out: Vec<String> = Vec::new();
        out.push(owned("── server ──"));
        out.push(summary_line("addr:", self.addr.as_str()));
        out.push(summary_line("cors:", bool_string(self.cors).as_str()));
        out.push(summary_line("reqlog:", bool_string(self.enable_reqlog).as_str()));
        let ghost head = string_seqs(out@);
        let ghost ps = self@.providers;
        assert(head =~= seq![
            "── server ──"@,
            summary_line_spec("addr:"@, self@.addr),
            summary_line_spec("cors:"@, bool_text(self@.cors)),
            summary_line_spec("reqlog:"@, bool_text(self@.enable_reqlog)),
        ]);
        let mut i: usize = 0;
        while i < self.providers.len()
            invariant
                i <= self.providers.len(),
                ps == self@.providers,
                ps.len() == self.providers@.len(),
                forall|j: int| 0 <= j < ps.len() ==> maskable(#[trigger] ps[j].api_key),
                string_seqs(out@) == head + providers_lines(ps.take(i as int)),
            decreases self.providers.len() - i,
        {
            proof {
                assert(ps.take(i + 1).drop_last() =~= ps.take(i as int));
                assert(ps.take(i + 1).last() == self.providers@[i as int]@);
                assert(maskable(ps[i as int].api_key));
            }
            let p = &self.providers[i];
            let ghost before = string_seqs(out@);
            out.push(concat3("── ", p.name.as_str(), " ──"));
            out.push(summary_line("base_url:", p.base_url.as_str()));
            out.push(summary_line("format:", p.format.name()));
            out.push(summary_line("vendor:", p.vendor.name()));
            let key = match &p.api_key {
                Some(k) => Some(k.as_str()),
                None => None,
            };
            out.push(summary_line("api_key:", mask_key(key).as_str()));
            out.push(summary_line("drop_images:", bool_string(p.drop_images).as_str()));
            assert(string_seqs(out@) =~= before + provider_lines(ps[i as int]));
            i += 1;
        }
        assert(ps.take(self.providers.len() as int) =~= ps);
        out
    }
}

} // verus!
