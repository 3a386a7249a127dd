//! What the state store keeps: the request log entries, and the keys under
//! which reasoning is cached per session and response.

use vstd::prelude::*;
use crate::text::{concat3, first_index_of, lemma_first_index_at, split_once_char};
use crate::json::opt_seq;

verus! {

broadcast use vstd::seq_lib::group_seq_properties;

/// One upstream request, as the request log records it.
pub struct ReqlogEntry {
    /// When (RFC 3339).
    pub ts: String,
    pub method: String,
    pub path: String,
    pub status: u16,
    pub latency_ms: u128,
    pub provider: String,
    pub model: String,
    pub req_id: Option<String>,
    pub in_tokens: Option<u32>,
    pub out_tokens: Option<u32>,
    pub cache_hit_tokens: Option<u32>,
    pub cache_miss_tokens: Option<u32>,
    pub err_code: Option<String>,
    pub err_msg: Option<String>,
    pub req_body_preview: Option<String>,
    pub resp_body_preview: Option<String>,
    pub req_headers: Option<String>,
}

/// Model of [`ReqlogEntry`].
pub struct ReqlogEntryModel {
    pub ts: Seq<char>,
    pub method: Seq<char>,
    pub path: Seq<char>,
    pub status: u16,
    pub latency_ms: u128,
    pub provider: Seq<char>,
    pub model: Seq<char>,
    pub req_id: Option<Seq<char>>,
    pub in_tokens: Option<u32>,
    pub out_tokens: Option<u32>,
    pub cache_hit_tokens: Option<u32>,
    pub cache_miss_tokens: Option<u32>,
    pub err_code: Option<Seq<char>>,
    pub err_msg: Option<Seq<char>>,
    pub req_body_preview: Option<Seq<char>>,
    pub resp_body_preview: Option<Seq<char>>,
    pub req_headers: Option<Seq<char>>,
}

impl View for ReqlogEntry {
    type V = ReqlogEntryModel;

    open spec fn view(&self) -> ReqlogEntryModel {
        ReqlogEntryModel {
            ts: self.ts@,
            method: self.method@,
            path: self.path@,
            status: self.status,
            latency_ms: self.latency_ms,
            provider: self.provider@,
            model: self.model@,
            req_id: opt_seq(self.req_id),
            in_tokens: self.in_tokens,
            out_tokens: self.out_tokens,
            cache_hit_tokens: self.cache_hit_tokens,
            cache_miss_tokens: self.cache_miss_tokens,
            err_code: opt_seq(self.err_code),
            err_msg: opt_seq(self.err_msg),
            req_body_preview: opt_seq(self.req_body_preview),
            resp_body_preview: opt_seq(self.resp_body_preview),
            req_headers: opt_seq(self.req_headers),
        }
    }
}

impl Clone for ReqlogEntry {
    #[verifier::spinoff_prover]
    #[verifier::rlimit(60)]
    fn clone(&self) -> (r: Self)
        ensures
            r@ == self@,
    {
        let c_ts = self.ts.clone();
        let c_method = self.method.clone();
        let c_path = self.path.clone();
        let c_status = self.status;
        let c_latency_ms = self.latency_ms;
        let c_provider = self.provider.clone();
        let c_model = self.model.clone();
        let c_req_id = self.req_id.clone();
        let c_in_tokens = self.in_tokens.clone();
        let c_out_tokens = self.out_tokens.clone();
        let c_cache_hit_tokens = self.cache_hit_tokens.clone();
        let c_cache_miss_tokens = self.cache_miss_tokens.clone();
        let c_err_code = self.err_code.clone();
        let c_err_msg = self.err_msg.clone();
        let c_req_body_preview = self.req_body_preview.clone();
        let c_resp_body_preview = self.resp_body_preview.clone();
        let c_req_headers = self.req_headers.clone();
        ReqlogEntry { ts: c_ts, method: c_method, path: c_path, status: c_status, latency_ms: c_latency_ms, provider: c_provider, model: c_model, req_id: c_req_id, in_tokens: c_in_tokens, out_tokens: c_out_tokens, cache_hit_tokens: c_cache_hit_tokens, cache_miss_tokens: c_cache_miss_tokens, err_code: c_err_code, err_msg: c_err_msg, req_body_preview: c_req_body_preview, resp_body_preview: c_resp_body_preview, req_headers: c_req_headers }
    }
}



/// The character between the session and the response in a reasoning key.
pub open spec fn key_separator() -> char {
    '\0'
}

/// The key of the reasoning of a response in a session: the session id, a
/// NUL character and the response id.
pub open spec fn compose_key_spec(session_id: Seq<char>, response_id: Seq<char>) -> Seq<char> {
    session_id + seq![key_separator()] + response_id
}

/// The key of the reasoning of a response in a session (see
/// [`compose_key_spec`]).
pub fn compose_key(session_id: &str, response_id: &str) -> (r: String)
    ensures
        r@ == compose_key_spec(session_id@, response_id@),
{
    let r = concat3(session_id, "\0", response_id);
    proof {
        reveal_strlit("\0");
        assert("\0"@ =~= seq![key_separator()]);
    }
    r
}

/// The session and response ids of a key: what comes before and after its
/// first NUL character; none without one.
pub open spec fn split_key_spec(key: Seq<char>) -> Option<(Seq<char>, Seq<char>)> {
    match first_index_of(key, key_separator()) {
        Some(i) => Some((key.subrange(0, i), key.subrange(i + 1, key.len() as int))),
        None => None,
    }
}

/// The session and response ids of a key (see [`split_key_spec`]), as the
/// import of a legacy store reads them.
pub fn split_key(key: &str) -> (r: Option<(String, String)>)
    ensures
        match r {
            Some((s, p)) => split_key_spec(key@) == Some((s@, p@)),
            None => split_key_spec(key@) is None,
        },
{
    split_once_char(key, '\0')
}

/// A key gives back the session and response it was made of, when the
/// session id holds no NUL character.
pub proof fn law_split_compose_key(session_id: Seq<char>, response_id: Seq<char>)
    requires
        forall|j: int| 0 <= j < session_id.len() ==> session_id[j] != key_separator(),
    ensures
        split_key_spec(compose_key_spec(session_id, response_id)) == Some((session_id, response_id)),
{
    let k = compose_key_spec(session_id, response_id);
    let n = session_id.len() as int;
    lemma_first_index_at(k, key_separator(), n);
    assert(k.subrange(0, n) =~= session_id);
    assert(k.subrange(n + 1, k.len() as int) =~= response_id);
}

/// `anyhow::Error`, the error of the store's operations.
#[verifier::external_type_specification]
#[verifier::external_body]
pub struct ExAnyhowError(anyhow::Error);

/// The persistent store of sessions, cached reasoning and the request log.
/// Its implementations talk to a database; nothing is claimed of what they
/// return.
pub trait StateStore {
    /// Record that a session was seen.
    fn session_record(&self, session_id: &str) -> Result<(), anyhow::Error>;

    /// The sessions seen.
    fn session_list(&self) -> Result<Vec<String>, anyhow::Error>;

    /// Keep the reasoning of a response.
    fn reasoning_save(&self, session_id: &str, response_id: &str, reasoning: &str) -> Result<(), anyhow::Error>;

    /// The reasoning kept for a response, if any.
    fn reasoning_get(&self, session_id: &str, response_id: &str) -> Result<Option<String>, anyhow::Error>;

    /// Forget the reasoning of a response.
    fn reasoning_remove(&self, session_id: &str, response_id: &str) -> Result<(), anyhow::Error>;

    /// Log an upstream request.
    fn reqlog(&self, entry: &ReqlogEntry) -> Result<(), anyhow::Error>;

    /// Import the sessions and reasoning of a legacy store at a path.
    fn import_from_redb(&self, redb_path: &str) -> Result<(), anyhow::Error>;
}

} // verus!
