//! The decisions the HTTP server makes around each request: how it is
//! routed, where the upstream URL points, which API key and headers are
//! sent, how reasoning is kept for the next turn, what a compaction asks and
//! answers, and what error bodies and logs say.

use vstd::prelude::*;
use vstd::string::StringSliceAdditionalSpecFns;
use vstd::utf8::{decode_utf8, encode_utf8, is_char_boundary};
use crate::text::{
    chars_of, concat, concat3, decimal, find_char, first_index_of, has_prefix, has_suffix, join,
    join_seqs, owned, starts_with, string_from,
    string_seqs, strip_suffix_all, trim_end_matches, u64_to_decimal, u128_to_decimal, str_eq,
    remove_all_str,
};
use crate::types::responses::{
    content_parts_to_text, part_texts, parts_model, CompactRequest, CompactRequestModel,
    CompactResponse, CompactResponseModel, ResponsesContentPart, ResponsesContentPartModel,
    ResponsesInputItem, ResponsesInputItemModel, ResponsesOutputCompactItem,
    ResponsesOutputCompactItemModel, ResponsesOutputItem, ResponsesOutputItemModel, ResponsesResponse,
    ResponsesResponseModel,
};
use crate::types::anthropic::{
    AnthropicContentBlock, AnthropicContentBlockModel, AnthropicResponse, AnthropicMessage, AnthropicMessageContent, AnthropicMessageContentModel, AnthropicMessageModel,
    AnthropicRequest, AnthropicRequestModel,
};
use crate::types::chat::{ChatChoiceModel, ChatCompletionsResponse};
use crate::config::{KeyValue, KeyValueModel, UpstreamFormat, UpstreamVendor};
use crate::json::{json_string, opt_seq, spec_json_string};
use crate::ids::new_uuid;
use crate::stream::sse::strip_markers_spec;

verus! {

broadcast use vstd::seq_lib::group_seq_properties;

// ===========================================================================
// Upstream URLs
// ===========================================================================

/// Index of the last occurrence of `c` in `s`.
pub open spec fn last_index_of(s: Seq<char>, c: char) -> Option<int>
    decreases s.len(),
{
    if s.len() == 0 {
        None
    } else if s.last() == c {
        Some(s.len() - 1)
    } else {
        last_index_of(s.drop_last(), c)
    }
}

/// `s` without its leading occurrences of `c`.
pub open spec fn trim_start_char(s: Seq<char>, c: char) -> Seq<char>
    decreases s.len(),
{
    if s.len() > 0 && s[0] == c {
        trim_start_char(s.drop_first(), c)
    } else {
        s
    }
}

/// The part of `s` after its last `/` (all of `s` without one).
pub open spec fn last_segment(s: Seq<char>) -> Seq<char> {
    match last_index_of(s, '/') {
        Some(j) => s.subrange(j + 1, s.len() as int),
        None => s,
    }
}

/// The part of `s` before its first `/` (all of `s` without one).
pub open spec fn first_segment(s: Seq<char>) -> Seq<char> {
    match first_index_of(s, '/') {
        Some(i) => s.subrange(0, i),
        None => s,
    }
}

/// The part of `s` after its first `/` (empty without one).
pub open spec fn after_first_segment(s: Seq<char>) -> Seq<char> {
    match first_index_of(s, '/') {
        Some(i) => s.subrange(i + 1, s.len() as int),
        None => seq![],
    }
}

/// The upstream URL for a base URL and an API path: the base (trailing
/// slashes removed) when it already ends with the path; the base and the
/// path after its first segment when the base's last segment repeats it
/// (`.../v1` and `/v1/chat/completions`); else the base followed by the path.
pub open spec fn upstream_url_spec(base_url: Seq<char>, target_path: Seq<char>) -> Seq<char> {
    let base = strip_suffix_all(base_url, "/"@);
    let t = trim_start_char(target_path, '/');
    if has_suffix(base, target_path) {
        base
    } else if last_segment(base) == first_segment(t) {
        base + "/"@ + after_first_segment(t)
    } else {
        base + target_path
    }
}

fn last_index_exec(v: &Vec<char>, c: char) -> (r: Option<usize>)
    ensures
        match r {
            Some(j) => last_index_of(v@, c) == Some(j as int) && j < v.len(),
            None => last_index_of(v@, c) is None,
        },
{
    let mut k: usize = v.len();
    while k > 0
        invariant
            k <= v.len(),
            last_index_of(v@, c) == last_index_of(v@.take(k as int), c),
        decreases k,
    {
        proof {
            assert(v@.take(k as int).drop_last() =~= v@.take(k - 1));
            assert(v@.take(k as int).last() == v@[k - 1]);
        }
        if v[k - 1] == c {
            return Some(k - 1);
        }
        k -= 1;
    }
    assert(v@.take(0) =~= Seq::<char>::empty());
    None
}

fn trim_start_char_exec(s: &str, c: char) -> (r: String)
    ensures
        r@ == trim_start_char(s@, c),
{
    let v = chars_of(s);
    let mut i: usize = 0;
    while i < v.len() && v[i] == c
        invariant
            i <= v.len(),
            trim_start_char(s@, c) == trim_start_char(v@.subrange(i as int, v@.len() as int), c),
            v@ == s@,
        decreases v.len() - i,
    {
        proof {
            assert(v@.subrange(i as int, v@.len() as int).drop_first() =~= v@.subrange(i + 1, v@.len() as int));
        }
        i += 1;
    }
    string_from(&v, i, v.len())
}

/// Builds the upstream URL for a base URL and an API path (see
/// [`upstream_url_spec`]), so that `/v1` is not doubled.
pub fn build_upstream_url(base_url: &str, target_path: &str) -> (r: String)
    ensures
        r@ == upstream_url_spec(base_url@, target_path@),
{
    proof {
        reveal_strlit("/");
    }
    let base = trim_end_matches(base_url, "/");
    if crate::text::ends_with(base.as_str(), target_path) {
        return base;
    }
    let bv = chars_of(base.as_str());
    let last = match last_index_exec(&bv, '/') {
        Some(j) => string_from(&bv, j + 1, bv.len()),
        None => base.clone(),
    };
    assert(bv@.subrange(0, bv@.len() as int) =~= bv@);
    let t = trim_start_char_exec(target_path, '/');
    let tv = chars_of(t.as_str());
    proof {
        crate::text::lemma_first_index_facts(tv@, '/');
    }
    let first = match find_char(&tv, '/') {
        Some(i) => string_from(&tv, 0, i),
        None => t.clone(),
    };
    proof {
        crate::text::lemma_first_occurrence_from(tv@, seq!['/'], 0);
        if let Some(i) = first_index_of(tv@, '/') {
            assert(tv@.subrange(i, i + 1)[0] == tv@[i]);
        }
    }
    if crate::text::str_eq(last.as_str(), first.as_str()) {
        let rest = match find_char(&tv, '/') {
            Some(i) => string_from(&tv, i + 1, tv.len()),
            None => String::new(),
        };
        concat3(base.as_str(), "/", rest.as_str())
    } else {
        concat(base.as_str(), target_path)
    }
}

proof fn lemma_last_index_facts(s: Seq<char>, c: char)
    ensures
        last_index_of(s, c) matches Some(j) ==> 0 <= j < s.len() && s[j] == c,
        (exists|i: int| 0 <= i < s.len() && s[i] == c) ==> last_index_of(s, c) is Some,
    decreases s.len(),
{
    if s.len() > 0 {
        lemma_last_index_facts(s.drop_last(), c);
        if s.last() != c {
            if exists|i: int| 0 <= i < s.len() && s[i] == c {
                let i = choose|i: int| 0 <= i < s.len() && s[i] == c;
                assert(s.drop_last()[i] == c);
            }
        }
    }
}

/// A text that ends with a character other than `/` keeps its trailing
/// characters when trailing slashes are removed.
proof fn lemma_no_trailing_slash(s: Seq<char>)
    requires
        s.len() > 0,
        s.last() != '/',
    ensures
        strip_suffix_all(s, "/"@) == s,
{
    reveal_strlit("/");
    if has_suffix(s, "/"@) {
        assert(s.subrange(s.len() - 1, s.len() as int)[0] == s.last());
    }
}

/// When the base's last segment repeats the path's first one, the joined
/// URL ends with the whole path.
#[verifier::spinoff_prover]
proof fn lemma_joined_ends_with_path(base: Seq<char>, p: Seq<char>, t: Seq<char>)
    requires
        p.len() >= 2,
        t == p.drop_first(),
        p[0] == '/',
        exists|i: int| 1 <= i < p.len() && p[i] == '/',
        exists|i: int| 0 <= i < base.len() && base[i] == '/',
        last_segment(base) == first_segment(t),
    ensures
        has_suffix(base + "/"@ + after_first_segment(t), p),
{
    reveal_strlit("/");
    lemma_last_index_facts(base, '/');
    crate::text::lemma_first_index_facts(t, '/');
    let k = choose|i: int| 1 <= i < p.len() && p[i] == '/';
    assert(t[k - 1] == '/');
    let j = last_index_of(base, '/').unwrap();
    let i = first_index_of(t, '/').unwrap();
    let u = base + "/"@ + after_first_segment(t);
    assert(u =~= base + seq!['/'] + t.subrange(i + 1, t.len() as int));
    assert(base.subrange(j + 1, base.len() as int) == t.subrange(0, i));
    assert(base =~= base.subrange(0, j) + seq!['/'] + t.subrange(0, i));
    assert(p =~= seq!['/'] + t.subrange(0, i) + seq!['/'] + t.subrange(i + 1, t.len() as int));
    assert(u =~= base.subrange(0, j) + p);
    assert(u.subrange(u.len() - p.len(), u.len() as int) =~= p);
}

#[verifier::spinoff_prover]
proof fn lemma_url_ends_with_path(base_url: Seq<char>, p: Seq<char>)
    requires
        p.len() >= 2,
        p[0] == '/',
        p[1] != '/',
        exists|i: int| 1 <= i < p.len() && p[i] == '/',
        exists|i: int| 0 <= i < strip_suffix_all(base_url, "/"@).len() && strip_suffix_all(base_url, "/"@)[i] == '/',
    ensures
        has_suffix(upstream_url_spec(base_url, p), p),
{
    let base = strip_suffix_all(base_url, "/"@);
    let t = trim_start_char(p, '/');
    assert(p.drop_first()[0] == p[1]);
    assert(trim_start_char(p.drop_first(), '/') == p.drop_first());
    assert(t == trim_start_char(p.drop_first(), '/'));
    if has_suffix(base, p) {
    } else if last_segment(base) == first_segment(t) {
        lemma_joined_ends_with_path(base, p, t);
    } else {
        let u = base + p;
        assert(u.subrange(u.len() - p.len(), u.len() as int) =~= p);
    }
}

/// Building the upstream URL twice changes nothing, for an API path of at
/// least two segments (`/v1/messages`) without trailing slash and a base URL
/// that has a `/` once trailing slashes are removed: the URL ends with the
/// path, and building it again from the URL gives the URL.
#[verifier::spinoff_prover]
pub proof fn law_upstream_url_idempotent(base_url: Seq<char>, target_path: Seq<char>)
    requires
        target_path.len() >= 2,
        target_path[0] == '/',
        target_path[1] != '/',
        target_path.last() != '/',
        exists|i: int| 1 <= i < target_path.len() && target_path[i] == '/',
        exists|i: int| 0 <= i < strip_suffix_all(base_url, "/"@).len() && strip_suffix_all(base_url, "/"@)[i] == '/',
    ensures
        has_suffix(upstream_url_spec(base_url, target_path), target_path),
        upstream_url_spec(upstream_url_spec(base_url, target_path), target_path) == upstream_url_spec(
            base_url,
            target_path,
        ),
{
    let p = target_path;
    lemma_url_ends_with_path(base_url, p);
    let u = upstream_url_spec(base_url, p);
    assert(u.last() == u.subrange(u.len() - p.len(), u.len() as int)[p.len() - 1]);
    lemma_no_trailing_slash(u);
    assert(upstream_url_spec(u, p) == u);
}

// ===========================================================================
// API keys
// ===========================================================================

/// The token of an `authorization` header value: the part after
/// `Bearer `, or the whole value.
pub open spec fn bearer_spec(value: Seq<char>) -> Seq<char> {
    if has_prefix(value, "Bearer "@) {
        value.subrange(7, value.len() as int)
    } else {
        value
    }
}

/// The client's key from its `authorization` header value (see [`bearer_spec`]).
pub fn extract_bearer(header: Option<&str>) -> (r: Option<String>)
    ensures
        match header {
            Some(v) => r matches Some(k) && k@ == bearer_spec(v@),
            None => r is None,
        },
{
    proof {
        reveal_strlit("Bearer ");
    }
    match header {
        Some(v) => {
            if starts_with(v, "Bearer ") {
                let cs = chars_of(v);
                Some(string_from(&cs, 7, cs.len()))
            } else {
                Some(owned(v))
            }
        },
        None => None,
    }
}

/// The key sent upstream: the client's when preferred (else the
/// configured one), otherwise the configured one (else the client's).
pub open spec fn api_key_spec(prefer_client: bool, client: Option<Seq<char>>, configured: Option<Seq<char>>) -> Option<Seq<char>> {
    if prefer_client {
        if client is Some {
            client
        } else {
            configured
        }
    } else if configured is Some {
        configured
    } else {
        client
    }
}

/// Chooses the key sent upstream (see [`api_key_spec`]).
pub fn choose_api_key(prefer_client: bool, client: Option<String>, configured: Option<String>) -> (r: Option<String>)
    ensures
        crate::json::opt_seq(r) == api_key_spec(prefer_client, crate::json::opt_seq(client), crate::json::opt_seq(configured)),
{
    if prefer_client {
        if client.is_some() {
            client
        } else {
            configured
        }
    } else if configured.is_some() {
        configured
    } else {
        client
    }
}

// ===========================================================================
// Byte lengths
// ===========================================================================

/// The largest character boundary of `bytes` at or below `max`.
pub open spec fn floor_boundary(bytes: Seq<u8>, max: int) -> int
    decreases max,
{
    if max <= 0 {
        0
    } else if max >= bytes.len() {
        bytes.len() as int
    } else if is_char_boundary(bytes, max) {
        max
    } else {
        floor_boundary(bytes, max - 1)
    }
}

/// How many bytes of reasoning the cache hands back when truncation is on.
pub open spec fn reasoning_limit() -> int {
    32768
}

/// Reasoning as it is put back on the next request: cut to the largest
/// character boundary within 32 KiB when truncation is on and it is longer.
pub open spec fn cached_reasoning_spec(r: Seq<char>, truncate: bool) -> Seq<char> {
    let b = encode_utf8(r);
    if truncate && b.len() > reasoning_limit() {
        decode_utf8(b.subrange(0, floor_boundary(b, reasoning_limit())))
    } else {
        r
    }
}

proof fn lemma_floor_boundary(bytes: Seq<u8>, max: int)
    requires
        0 <= max <= bytes.len(),
    ensures
        0 <= floor_boundary(bytes, max) <= max,
        vstd::utf8::valid_utf8(bytes) ==> is_char_boundary(bytes, floor_boundary(bytes, max)),
    decreases max,
{
    if vstd::utf8::valid_utf8(bytes) {
        vstd::utf8::is_char_boundary_start_end_of_seq(bytes);
    }
    if max > 0 && max < bytes.len() && !is_char_boundary(bytes, max) {
        lemma_floor_boundary(bytes, max - 1);
    }
}

/// Cuts reasoning for the cache (see [`cached_reasoning_spec`]).
pub fn truncate_reasoning(r: String, truncate: bool) -> (out: String)
    ensures
        out@ == cached_reasoning_spec(r@, truncate),
{
    let s = r.as_str();
    let n = s.as_bytes().len();
    proof {
        vstd::utf8::encode_utf8_valid_utf8(s@);
    }
    if !(truncate && n > 32768) {
        return r;
    }
    let mut k: usize = 32768;
    while k > 0 && !s.is_char_boundary(k)
        invariant
            k <= 32768 < n,
            n == s.spec_bytes().len(),
            vstd::utf8::valid_utf8(s.spec_bytes()),
            floor_boundary(s.spec_bytes(), 32768) == floor_boundary(s.spec_bytes(), k as int),
        decreases k,
    {
        k -= 1;
    }
    proof {
        lemma_floor_boundary(s.spec_bytes(), k as int);
        vstd::utf8::is_char_boundary_start_end_of_seq(s.spec_bytes());
    }
    let (head, _tail) = s.split_at(k);
    proof {
        vstd::utf8::encode_utf8_decode_utf8(head@);
    }
    owned(head)
}

/// What a logged body becomes: itself when it fits `max_len` bytes, else
/// its first `max_len` bytes and a note of how many were cut.
pub open spec fn log_body_spec(s: Seq<char>, max_len: nat) -> Seq<char> {
    let b = encode_utf8(s);
    if b.len() <= max_len {
        s
    } else {
        decode_utf8(b.subrange(0, max_len as int)) + "... [truncated "@ + decimal((b.len() - max_len) as nat)
            + " bytes]"@
    }
}

/// Cuts a body for the error log (see [`log_body_spec`]); the cut must fall
/// on a character boundary.
pub fn truncate_for_log(s: &str, max_len: usize) -> (r: String)
    requires
        s.spec_bytes().len() <= max_len || is_char_boundary(s.spec_bytes(), max_len as int),
    ensures
        r@ == log_body_spec(s@, max_len as nat),
{
    let n = s.as_bytes().len();
    if n <= max_len {
        return owned(s);
    }
    let (head, _tail) = s.split_at(max_len);
    proof {
        vstd::utf8::encode_utf8_decode_utf8(head@);
    }
    let mut out = owned(head);
    out.append("... [truncated ");
    out.append(u64_to_decimal((n - max_len) as u64).as_str());
    out.append(" bytes]");
    out
}

// ===========================================================================
// Compaction
// ===========================================================================

/// The line an input item contributes to a compaction prompt.
pub open spec fn compact_line(item: ResponsesInputItemModel) -> Option<Seq<char>> {
    match item {
        ResponsesInputItemModel::Message { role, content, .. } => {
            let text = join_seqs(
                part_texts(
                    match content {
                        Some(c) => c,
                        None => seq![],
                    },
                ),
                "\n"@,
            );
            if text.len() > 0 {
                Some("["@ + role + "]: "@ + text)
            } else {
                None
            }
        },
        ResponsesInputItemModel::FunctionCall { name, arguments, .. } => Some(
            "[assistant function_call]: "@ + name + " ("@ + arguments + ")"@,
        ),
        ResponsesInputItemModel::FunctionCallOutput { output, .. } => Some("[tool output]: "@ + output),
    }
}

/// The lines of the input items, in order.
pub open spec fn compact_lines(items: Seq<ResponsesInputItemModel>) -> Seq<Seq<char>>
    decreases items.len(),
{
    if items.len() == 0 {
        seq![]
    } else {
        let rest = compact_lines(items.drop_last());
        match compact_line(items.last()) {
            Some(l) => rest.push(l),
            None => rest,
        }
    }
}

/// The instruction used when a compaction request brings none.
pub open spec fn default_compact_instructions() -> Seq<char> {
    "Summarize the conversation above, preserving key decisions, code changes, and context."@
}

/// The prompt that asks the upstream to summarise a conversation.
pub open spec fn compact_prompt_spec(req: CompactRequestModel) -> Seq<char> {
    "Please summarize the following conversation. "@ + match req.instructions {
        Some(i) => i,
        None => default_compact_instructions(),
    } + "\n\nConversation:\n"@ + join_seqs(compact_lines(req.input), "\n"@)
}

/// Builds the summarisation prompt for a compaction request (see
/// [`compact_prompt_spec`]).
pub fn build_compact_prompt(req: &CompactRequest) -> (r: String)
    ensures
        r@ == compact_prompt_spec(req@),
{
    let ghost items = req@.input;
    let mut lines: Vec<String> = Vec::new();
    let mut i: usize = 0;
    while i < req.input.len()
        invariant
            i <= req.input.len(),
            items == req@.input,
            string_seqs(lines@) == compact_lines(items.take(i as int)),
        decreases req.input.len() - i,
    {
        proof {
            assert(items.take(i + 1).drop_last() =~= items.take(i as int));
            assert(items.take(i + 1).last() == req.input@[i as int]@);
        }
        let ghost prev = lines@;
        match &req.input[i] {
            ResponsesInputItem::Message { role, content, .. } => {
                let text = match content {
                    Some(c) => content_parts_to_text(c.as_slice()),
                    None => {
                        let empty: Vec<ResponsesContentPart> = Vec::new();
                        assert(parts_model(empty@) =~= seq![]);
                        content_parts_to_text(empty.as_slice())
                    },
                };
                if text.unicode_len() > 0 {
                    let mut l = concat3("[", role.as_str(), "]: ");
                    l.append(text.as_str());
                    lines.push(l);
                }
            },
            ResponsesInputItem::FunctionCall { name, arguments, .. } => {
                let mut l = concat("[assistant function_call]: ", name.as_str());
                l.append(" (");
                l.append(arguments.as_str());
                l.append(")");
                lines.push(l);
            },
            ResponsesInputItem::FunctionCallOutput { output, .. } => {
                lines.push(concat("[tool output]: ", output.as_str()));
            },
        }
        assert(string_seqs(lines@) =~= compact_lines(items.take(i + 1)));
        i += 1;
    }
    assert(items.take(req.input.len() as int) =~= items);
    let mut out = owned("Please summarize the following conversation. ");
    match &req.instructions {
        Some(inst) => out.append(inst.0.as_str()),
        None => out.append(
            "Summarize the conversation above, preserving key decisions, code changes, and context.",
        ),
    }
    out.append("\n\nConversation:\n");
    out.append(join(&lines, "\n").as_str());
    out
}

/// The text of the response to a compaction that could not be carried out.
pub open spec fn noop_compact_text() -> Seq<char> {
    "Conversation context preserved (no-op compact)."@
}

/// The text of a compaction: the summary, or a note that the context is
/// kept when the summary is empty.
pub open spec fn summary_text(summary: Seq<char>) -> Seq<char> {
    if summary.len() == 0 {
        "Conversation context preserved."@
    } else {
        summary
    }
}

/// A compaction response with one assistant message holding `text`.
pub open spec fn compact_response_spec(id: Seq<char>, msg_id: Seq<char>, text: Seq<char>) -> CompactResponseModel {
    CompactResponseModel {
        id: "compact_"@ + id,
        object: "response.compact"@,
        output: seq![
            ResponsesOutputCompactItemModel::Message {
                id: "msg_"@ + msg_id,
                role: "assistant"@,
                content: seq![ResponsesContentPartModel::OutputText { text }],
                status: "completed"@,
            },
        ],
        status: "completed"@,
    }
}

/// The compaction response that keeps the context as it is.
pub open spec fn noop_compact_spec(id: Seq<char>, msg_id: Seq<char>) -> CompactResponseModel {
    compact_response_spec(id, msg_id, noop_compact_text())
}

/// A compaction response with the given identifiers and text (see
/// [`compact_response_spec`]).
pub fn compact_response_with(id: &str, msg_id: &str, text: &str) -> (r: CompactResponse)
    ensures
        r@ == compact_response_spec(id@, msg_id@, text@),
{
    let mut content: Vec<ResponsesContentPart> = Vec::new();
    content.push(ResponsesContentPart::OutputText { text: owned(text) });
    let item = ResponsesOutputCompactItem::Message {
        id: concat("msg_", msg_id),
        role: owned("assistant"),
        content,
        status: owned("completed"),
    };
    let mut output: Vec<ResponsesOutputCompactItem> = Vec::new();
    output.push(item);
    assert(parts_model(content@) =~= seq![ResponsesContentPartModel::OutputText { text: text@ }]);
    assert(output@.map_values(|o: ResponsesOutputCompactItem| o@) =~= seq![item@]);
    CompactResponse {
        id: concat("compact_", id),
        object: owned("response.compact"),
        output,
        status: owned("completed"),
    }
}

/// The compaction response that keeps the context as it is, with the
/// given identifiers (see [`noop_compact_spec`]).
pub fn make_noop_compact_with(id: &str, msg_id: &str) -> (r: CompactResponse)
    ensures
        r@ == noop_compact_spec(id@, msg_id@),
{
    compact_response_with(id, msg_id, "Conversation context preserved (no-op compact).")
}

/// The compaction response that keeps the context as it is, under fresh
/// identifiers.
pub fn make_noop_compact() -> (r: CompactResponse)
    ensures
        exists|id: Seq<char>, msg_id: Seq<char>|
            id.len() == 36 && msg_id.len() == 36 && r@ == noop_compact_spec(id, msg_id),
{
    let id = new_uuid();
    let msg_id = new_uuid();
    make_noop_compact_with(id.as_str(), msg_id.as_str())
}

/// The compaction response for a summary, under fresh identifiers (see
/// [`summary_text`]).
pub fn make_compact_response(summary: &str) -> (r: CompactResponse)
    ensures
        exists|id: Seq<char>, msg_id: Seq<char>|
            id.len() == 36 && msg_id.len() == 36 && r@ == compact_response_spec(id, msg_id, summary_text(summary@)),
{
    let id = new_uuid();
    let msg_id = new_uuid();
    let text = if summary.unicode_len() == 0 {
        owned("Conversation context preserved.")
    } else {
        owned(summary)
    };
    assert(text@ == summary_text(summary@));
    let r = compact_response_with(id.as_str(), msg_id.as_str(), text.as_str());
    assert(r@ == compact_response_spec(id@, msg_id@, summary_text(summary@)));
    r
}

/// The model a compaction asks for: the request's, else the configured
/// one, else `fallback`.
pub open spec fn compact_model_spec(requested: Option<Seq<char>>, configured: Option<Seq<char>>, fallback: Seq<char>) -> Seq<char> {
    match requested {
        Some(m) => m,
        None => match configured {
            Some(m) => m,
            None => fallback,
        },
    }
}

/// The model a compaction asks for (see [`compact_model_spec`]).
pub fn compact_model(requested: Option<String>, configured: Option<String>, fallback: &str) -> (r: String)
    ensures
        r@ == compact_model_spec(opt_seq(requested), opt_seq(configured), fallback@),
{
    match requested {
        Some(m) => m,
        None => match configured {
            Some(m) => m,
            None => owned(fallback),
        },
    }
}

/// The Chat Completions body of a compaction (JSON, members in
/// `serde_json`'s sorted order): one user message with the prompt, at most
/// 4096 tokens, temperature 0.3.
pub open spec fn compact_chat_body_spec(model: Seq<char>, prompt: Seq<char>) -> Seq<char> {
    "{\"max_tokens\":4096,\"messages\":[{\"content\":"@ + spec_json_string(prompt) + ",\"role\":\"user\"}],\"model\":"@
        + spec_json_string(model) + ",\"temperature\":0.3}"@
}

/// The Chat Completions body of a compaction (see
/// [`compact_chat_body_spec`]).
pub fn compact_chat_body(model: &str, prompt: &str) -> (r: String)
    ensures
        r@ == compact_chat_body_spec(model@, prompt@),
{
    let mut out = concat("{\"max_tokens\":4096,\"messages\":[{\"content\":", json_string(prompt).as_str());
    out.append(",\"role\":\"user\"}],\"model\":");
    out.append(json_string(model).as_str());
    out.append(",\"temperature\":0.3}");
    out
}

/// The Anthropic request of a compaction: one user message with the
/// prompt, at most 4096 tokens, not streamed.
pub open spec fn compact_anthropic_spec(model: Seq<char>, prompt: Seq<char>) -> AnthropicRequestModel {
    AnthropicRequestModel {
        model,
        messages: seq![
            AnthropicMessageModel { role: "user"@, content: AnthropicMessageContentModel::String(prompt) },
        ],
        system: None,
        max_tokens: 4096,
        metadata: None,
        stop_sequences: None,
        stream: Some(false),
        temperature: None,
        top_p: None,
        top_k: None,
        tools: None,
        tool_choice: None,
        thinking: None,
    }
}

/// The Anthropic request of a compaction (see [`compact_anthropic_spec`]).
pub fn compact_anthropic_request(model: String, prompt: &str) -> (r: AnthropicRequest)
    ensures
        r@ == compact_anthropic_spec(model@, prompt@),
{
    let mut messages: Vec<AnthropicMessage> = Vec::new();
    let m = AnthropicMessage { role: owned("user"), content: AnthropicMessageContent::String(owned(prompt)) };
    messages.push(m);
    assert(messages@.map_values(|x: AnthropicMessage| x@) =~= seq![m@]);
    AnthropicRequest {
        model,
        messages,
        system: None,
        max_tokens: 4096,
        metadata: None,
        stop_sequences: None,
        stream: Some(false),
        temperature: None,
        top_p: None,
        top_k: None,
        tools: None,
        tool_choice: None,
        thinking: None,
    }
}

/// Whether compaction goes through the Anthropic protocol (otherwise it
/// goes through Chat Completions).
pub fn compact_uses_anthropic(format: UpstreamFormat) -> (r: bool)
    ensures
        r == (format == UpstreamFormat::Anthropic),
{
    match format {
        UpstreamFormat::Anthropic => true,
        _ => false,
    }
}

// ===========================================================================
// Routing
// ===========================================================================

/// How a Chat Completions request is served.
#[derive(Clone, Copy, PartialEq, Eq, Structural, Debug)]
pub enum ChatRoute {
    /// Sent as it is to the upstream's Chat Completions endpoint.
    Passthrough,
    /// Converted to a Responses request.
    ViaResponses,
    /// Converted to an Anthropic request.
    ViaAnthropic,
}

/// How a Responses request is served.
#[derive(Clone, Copy, PartialEq, Eq, Structural, Debug)]
pub enum ResponsesRoute {
    /// Sent as it is to the upstream's Responses endpoint.
    Passthrough,
    /// Converted to a Chat Completions request.
    ViaChat,
    /// Converted to an Anthropic request.
    ViaAnthropic,
}

/// The route of a Chat Completions request: by the upstream's format.
pub fn chat_route(format: UpstreamFormat) -> (r: ChatRoute)
    ensures
        r == (match format {
            UpstreamFormat::OpenAiChat => ChatRoute::Passthrough,
            UpstreamFormat::Responses => ChatRoute::ViaResponses,
            UpstreamFormat::Anthropic => ChatRoute::ViaAnthropic,
        }),
{
    match format {
        UpstreamFormat::OpenAiChat => ChatRoute::Passthrough,
        UpstreamFormat::Responses => ChatRoute::ViaResponses,
        UpstreamFormat::Anthropic => ChatRoute::ViaAnthropic,
    }
}

/// The route of a Responses request: by the upstream's format.
pub fn responses_route(format: UpstreamFormat) -> (r: ResponsesRoute)
    ensures
        r == (match format {
            UpstreamFormat::Responses => ResponsesRoute::Passthrough,
            UpstreamFormat::OpenAiChat => ResponsesRoute::ViaChat,
            UpstreamFormat::Anthropic => ResponsesRoute::ViaAnthropic,
        }),
{
    match format {
        UpstreamFormat::Responses => ResponsesRoute::Passthrough,
        UpstreamFormat::OpenAiChat => ResponsesRoute::ViaChat,
        UpstreamFormat::Anthropic => ResponsesRoute::ViaAnthropic,
    }
}

// ===========================================================================
// Headers
// ===========================================================================

/// The `authorization` header that carries an API key as a bearer token.
pub open spec fn bearer_header_spec(key: Seq<char>) -> KeyValueModel {
    KeyValueModel { key: "authorization"@, value: "Bearer "@ + key }
}

/// The `authorization` header for an API key (see [`bearer_header_spec`]).
pub fn bearer_header(key: &str) -> (r: KeyValue)
    ensures
        r@ == bearer_header_spec(key@),
{
    KeyValue { key: owned("authorization"), value: concat("Bearer ", key) }
}

/// The header that carries an API key to an Anthropic endpoint: a bearer
/// token for Xiaomi MiMo, `x-api-key` for everyone else.
pub open spec fn anthropic_auth_spec(vendor: UpstreamVendor, key: Seq<char>) -> KeyValueModel {
    match vendor {
        UpstreamVendor::XiaomiMimo => bearer_header_spec(key),
        _ => KeyValueModel { key: "x-api-key"@, value: key },
    }
}

/// The header that carries an API key to an Anthropic endpoint (see
/// [`anthropic_auth_spec`]).
pub fn anthropic_auth_header(vendor: UpstreamVendor, key: &str) -> (r: KeyValue)
    ensures
        r@ == anthropic_auth_spec(vendor, key@),
{
    match vendor {
        UpstreamVendor::XiaomiMimo => bearer_header(key),
        _ => KeyValue { key: owned("x-api-key"), value: owned(key) },
    }
}

/// Whether a response header only concerns one connection and is not
/// forwarded.
pub open spec fn is_hop_header(name: Seq<char>) -> bool {
    name == "transfer-encoding"@ || name == "connection"@
}

/// Headers of an upstream response as they are forwarded: all but the
/// connection-level ones, in order.
pub open spec fn forwarded_spec(headers: Seq<KeyValueModel>) -> Seq<KeyValueModel>
    decreases headers.len(),
{
    if headers.len() == 0 {
        seq![]
    } else {
        let rest = forwarded_spec(headers.drop_last());
        if is_hop_header(headers.last().key) {
            rest
        } else {
            rest.push(headers.last())
        }
    }
}

/// Headers of an upstream response as they are forwarded (see
/// [`forwarded_spec`]).
pub fn forwarded_headers(headers: &Vec<KeyValue>) -> (r: Vec<KeyValue>)
    ensures
        r@.map_values(|h: KeyValue| h@) == forwarded_spec(headers@.map_values(|h: KeyValue| h@)),
{
    let ghost hs = headers@.map_values(|h: KeyValue| h@);
    let mut out: Vec<KeyValue> = Vec::new();
    let mut i: usize = 0;
    while i < headers.len()
        invariant
            i <= headers.len(),
            hs == headers@.map_values(|h: KeyValue| h@),
            out@.map_values(|h: KeyValue| h@) == forwarded_spec(hs.take(i as int)),
        decreases headers.len() - i,
    {
        proof {
            assert(hs.take(i + 1).drop_last() =~= hs.take(i as int));
            assert(hs.take(i + 1).last() == headers@[i as int]@);
        }
        let name = headers[i].key.as_str();
        if !(str_eq(name, "transfer-encoding") || str_eq(name, "connection")) {
            out.push(headers[i].clone());
        }
        assert(out@.map_values(|h: KeyValue| h@) =~= forwarded_spec(hs.take(i + 1)));
        i += 1;
    }
    assert(hs.take(headers.len() as int) =~= hs);
    out
}

/// Whether a header carries credentials.
pub open spec fn is_sensitive_header(name: Seq<char>) -> bool {
    name == "authorization"@ || name == "x-api-key"@ || name == "api-key"@ || name == "cookie"@ || name
        == "set-cookie"@
}

/// A header as it is logged: credentials are replaced by `***REDACTED***`.
pub open spec fn redacted_spec(h: KeyValueModel) -> KeyValueModel {
    if is_sensitive_header(h.key) {
        KeyValueModel { key: h.key, value: "***REDACTED***"@ }
    } else {
        h
    }
}

/// Headers as they are logged (see [`redacted_spec`]).
pub fn redact_headers(headers: &Vec<KeyValue>) -> (r: Vec<KeyValue>)
    ensures
        r@.map_values(|h: KeyValue| h@) == headers@.map_values(|h: KeyValue| redacted_spec(h@)),
{
    let mut out: Vec<KeyValue> = Vec::new();
    let mut i: usize = 0;
    while i < headers.len()
        invariant
            i <= headers.len(),
            out@.len() == i,
            forall|k: int| 0 <= k < i ==> #[trigger] out@[k]@ == redacted_spec(headers@[k]@),
        decreases headers.len() - i,
    {
        let name = headers[i].key.as_str();
        let sensitive = str_eq(name, "authorization") || str_eq(name, "x-api-key") || str_eq(name, "api-key")
            || str_eq(name, "cookie") || str_eq(name, "set-cookie");
        if sensitive {
            out.push(KeyValue { key: headers[i].key.clone(), value: owned("***REDACTED***") });
        } else {
            out.push(headers[i].clone());
        }
        i += 1;
    }
    assert(out@.map_values(|h: KeyValue| h@) =~= headers@.map_values(|h: KeyValue| redacted_spec(h@)));
    out
}

/// The model reported for an upstream response: the upstream's `x-model`
/// header when it has one, else the model asked for.
pub fn upstream_model(header: Option<&str>, requested: &str) -> (r: String)
    ensures
        r@ == (match header {
            Some(h) => h@,
            None => requested@,
        }),
{
    match header {
        Some(h) => owned(h),
        None => owned(requested),
    }
}

/// The URL a request is passed through to: the base URL without trailing
/// slashes, then the request's path.
pub fn passthrough_url(base_url: &str, path: &str) -> (r: String)
    ensures
        r@ == strip_suffix_all(base_url@, "/"@) + path@,
{
    let mut u = trim_end_matches(base_url, "/");
    u.append(path);
    u
}

// ===========================================================================
// Error bodies and logs
// ===========================================================================

/// The JSON body of an error answer: the message under `error.message`.
pub open spec fn error_body_spec(message: Seq<char>) -> Seq<char> {
    "{\"error\":{\"message\":"@ + spec_json_string(message) + "}}"@
}

/// The JSON body of an error answer (see [`error_body_spec`]).
pub fn error_body(message: &str) -> (r: String)
    ensures
        r@ == error_body_spec(message@),
{
    let mut out = concat("{\"error\":{\"message\":", json_string(message).as_str());
    out.append("}}");
    out
}

/// The answer to a Responses request whose body is blank (empty or only
/// white space): the empty JSON object; `None` for any other body, which is
/// parsed and served.
pub open spec fn blank_body_answer_spec(body: Seq<char>) -> Option<Seq<char>> {
    if crate::text::trim(body).len() == 0 {
        Some("{}"@)
    } else {
        None
    }
}

/// The answer to a blank Responses request (see [`blank_body_answer_spec`]).
pub fn blank_body_answer(body: &str) -> (r: Option<String>)
    ensures
        opt_seq(r) == blank_body_answer_spec(body@),
{
    let t = crate::text::trim_str(body);
    proof {
        reveal_strlit("");
        if t@.len() == 0 {
            assert(t@ =~= ""@);
        }
    }
    if str_eq(t.as_str(), "") {
        Some(owned("{}"))
    } else {
        None
    }
}

/// Whether the `[DONE]` marker of a Chat Completions stream has been sent:
/// it goes out at most once, however often the upstream stream ends.
pub struct DoneMarker {
    sent: bool,
}

impl View for DoneMarker {
    type V = bool;

    closed spec fn view(&self) -> bool {
        self.sent
    }
}

impl DoneMarker {
    /// A stream that has not sent the marker yet.
    pub fn new() -> (r: Self)
        ensures
            !r@,
    {
        DoneMarker { sent: false }
    }

    /// Whether the marker is to be sent now: only the first time; afterwards
    /// it counts as sent.
    pub fn take(&mut self) -> (r: bool)
        ensures
            r == !old(self)@,
            final(self)@,
    {
        let first = !self.sent;
        self.sent = true;
        first
    }
}

/// The message for an upstream answer that was not a success: its status
/// and its body.
pub fn upstream_status_message(status: u16, body: &str) -> (r: String)
    ensures
        r@ == "Upstream error "@ + decimal(status as nat) + ": "@ + body@,
{
    let mut out = concat("Upstream error ", u64_to_decimal(status as u64).as_str());
    out.append(": ");
    out.append(body);
    out
}

/// A line of the access log (JSON; the method and URI are written as they
/// are).
pub open spec fn access_log_spec(time: Seq<char>, method: Seq<char>, uri: Seq<char>, status: u16, elapsed_ms: u128) -> Seq<char> {
    "{\"time\":\""@ + time + "\",\"method\":\""@ + method + "\",\"uri\":\""@ + uri + "\",\"status\":"@
        + decimal(status as nat) + ",\"latency_ms\":"@ + decimal(elapsed_ms as nat) + "}"@
}

/// A line of the access log (see [`access_log_spec`]).
pub fn access_log_line(time: &str, method: &str, uri: &str, status: u16, elapsed_ms: u128) -> (r: String)
    ensures
        r@ == access_log_spec(time@, method@, uri@, status, elapsed_ms),
{
    let mut out = concat3("{\"time\":\"", time, "\",\"method\":\"");
    out.append(method);
    out.append("\",\"uri\":\"");
    out.append(uri);
    out.append("\",\"status\":");
    out.append(u64_to_decimal(status as u64).as_str());
    out.append(",\"latency_ms\":");
    out.append(u128_to_decimal(elapsed_ms).as_str());
    out.append("}");
    out
}

/// The file name of an error dump: the time stamp and the status.
pub fn error_dump_file_name(stamp: &str, status: u16) -> (r: String)
    ensures
        r@ == "proxy-error-"@ + stamp@ + "-"@ + decimal(status as nat) + ".json"@,
{
    let mut out = concat3("proxy-error-", stamp, "-");
    out.append(u64_to_decimal(status as u64).as_str());
    out.append(".json");
    out
}

// ===========================================================================
// Reasoning across turns
// ===========================================================================

/// The session under which reasoning is cached: the request's, or
/// `unknown`.
pub fn reasoning_session(session_id: Option<&str>) -> (r: String)
    ensures
        r@ == (match session_id {
            Some(s) => s@,
            None => "unknown"@,
        }),
{
    match session_id {
        Some(s) => owned(s),
        None => owned("unknown"),
    }
}

/// The reasoning of a choice worth keeping: its message's non-empty
/// reasoning.
pub open spec fn choice_reasoning(c: ChatChoiceModel) -> Option<Seq<char>> {
    match c.message {
        Some(m) => match m.reasoning_content {
            Some(r) => if r.len() > 0 {
                Some(r)
            } else {
                None
            },
            None => None,
        },
        None => None,
    }
}

/// The reasonings of the choices worth keeping, in order.
pub open spec fn reasonings_spec(cs: Seq<ChatChoiceModel>) -> Seq<Seq<char>>
    decreases cs.len(),
{
    if cs.len() == 0 {
        seq![]
    } else {
        let rest = reasonings_spec(cs.drop_last());
        match choice_reasoning(cs.last()) {
            Some(r) => rest.push(r),
            None => rest,
        }
    }
}

/// The reasonings of a Chat response that are saved for the next turn, in
/// order (see [`choice_reasoning`]).
pub fn reasoning_to_save(chat: &ChatCompletionsResponse) -> (r: Vec<String>)
    ensures
        string_seqs(r@) == reasonings_spec(chat@.choices),
{
    let ghost cs = chat@.choices;
    let mut out: Vec<String> = Vec::new();
    let mut i: usize = 0;
    while i < chat.choices.len()
        invariant
            i <= chat.choices.len(),
            cs == chat@.choices,
            cs.len() == chat.choices@.len(),
            string_seqs(out@) == reasonings_spec(cs.take(i as int)),
        decreases chat.choices.len() - i,
    {
        proof {
            assert(cs.take(i + 1).drop_last() =~= cs.take(i as int));
            assert(cs.take(i + 1).last() == chat.choices@[i as int]@);
        }
        if let Some(m) = &chat.choices[i].message {
            if let Some(r) = &m.reasoning_content {
                if r.unicode_len() > 0 {
                    out.push(r.clone());
                }
            }
        }
        assert(string_seqs(out@) =~= reasonings_spec(cs.take(i + 1)));
        i += 1;
    }
    assert(cs.take(chat.choices.len() as int) =~= cs);
    out
}

/// An output item with MiMo's reasoning markers removed from the texts of
/// its message content.
pub open spec fn strip_item_markers(item: ResponsesOutputItemModel) -> ResponsesOutputItemModel {
    match item {
        ResponsesOutputItemModel::Message { id, role, content, status } => ResponsesOutputItemModel::Message {
            id,
            role,
            content: content.map_values(|p: ResponsesContentPartModel| strip_part_markers(p)),
            status,
        },
        _ => item,
    }
}

/// A content part with MiMo's reasoning markers removed from its output
/// text.
pub open spec fn strip_part_markers(p: ResponsesContentPartModel) -> ResponsesContentPartModel {
    match p {
        ResponsesContentPartModel::OutputText { text } => ResponsesContentPartModel::OutputText {
            text: strip_markers_spec(text),
        },
        _ => p,
    }
}

fn strip_markers(t: &str) -> (r: String)
    ensures
        r@ == strip_markers_spec(t@),
{
    proof {
        reveal_strlit("[[REASONING_SUMMARY]]");
        reveal_strlit("[[REASONING_DIVIDER]]");
    }
    let a = remove_all_str(t, "[[REASONING_SUMMARY]]");
    remove_all_str(a.as_str(), "[[REASONING_DIVIDER]]")
}

fn strip_parts(parts: &Vec<ResponsesContentPart>) -> (r: Vec<ResponsesContentPart>)
    ensures
        parts_model(r@) == parts_model(parts@).map_values(|p: ResponsesContentPartModel| strip_part_markers(p)),
{
    let mut out: Vec<ResponsesContentPart> = Vec::new();
    let mut i: usize = 0;
    while i < parts.len()
        invariant
            i <= parts.len(),
            out@.len() == i,
            forall|k: int| 0 <= k < i ==> #[trigger] out@[k]@ == strip_part_markers(parts@[k]@),
        decreases parts.len() - i,
    {
        let p = match &parts[i] {
            ResponsesContentPart::OutputText { text } => ResponsesContentPart::OutputText {
                text: strip_markers(text.as_str()),
            },
            other => other.clone(),
        };
        out.push(p);
        i += 1;
    }
    assert(parts_model(out@) =~= parts_model(parts@).map_values(|p: ResponsesContentPartModel| strip_part_markers(p)));
    out
}

/// Remove MiMo's reasoning markers from the output texts of a response's
/// messages (see [`strip_item_markers`]); nothing else changes.
pub fn strip_output_markers(resp: &mut ResponsesResponse)
    ensures
        final(resp)@ == (ResponsesResponseModel {
            output: old(resp)@.output.map_values(|i: ResponsesOutputItemModel| strip_item_markers(i)),
            ..old(resp)@
        }),
{
    let mut out: Vec<ResponsesOutputItem> = Vec::new();
    let mut i: usize = 0;
    while i < resp.output.len()
        invariant
            i <= resp.output.len(),
            resp@ == old(resp)@,
            out@.len() == i,
            forall|k: int| 0 <= k < i ==> #[trigger] out@[k]@ == strip_item_markers(resp.output@[k]@),
        decreases resp.output.len() - i,
    {
        let item = match &resp.output[i] {
            ResponsesOutputItem::Message { id, role, content, status } => ResponsesOutputItem::Message {
                id: id.clone(),
                role: role.clone(),
                content: strip_parts(content),
                status: status.clone(),
            },
            other => other.clone(),
        };
        out.push(item);
        i += 1;
    }
    assert(out@.map_values(|x: ResponsesOutputItem| x@) =~= old(resp)@.output.map_values(
        |i: ResponsesOutputItemModel| strip_item_markers(i),
    ));
    resp.output = out;
}

/// The message for an upstream answer that was not a success, as the
/// pass-through routes word it: its status and its body.
pub fn upstream_failure_message(status: u16, body: &str) -> (r: String)
    ensures
        r@ == "Upstream "@ + decimal(status as nat) + ": "@ + body@,
{
    let mut out = concat("Upstream ", u64_to_decimal(status as u64).as_str());
    out.append(": ");
    out.append(body);
    out
}

/// The thinking of an Anthropic response, in order.
pub open spec fn thinking_texts(blocks: Seq<AnthropicContentBlockModel>) -> Seq<Seq<char>>
    decreases blocks.len(),
{
    if blocks.len() == 0 {
        seq![]
    } else {
        let rest = thinking_texts(blocks.drop_last());
        match blocks.last() {
            AnthropicContentBlockModel::Thinking { thinking, .. } => rest.push(thinking),
            _ => rest,
        }
    }
}

/// The reasoning of an Anthropic response that is saved for the next
/// turn: its thinking blocks, one per line.
pub fn anthropic_reasoning_text(resp: &AnthropicResponse) -> (r: String)
    ensures
        r@ == join_seqs(thinking_texts(resp@.content), "\n"@),
{
    let ghost bs = resp@.content;
    let mut texts: Vec<String> = Vec::new();
    let mut i: usize = 0;
    while i < resp.content.len()
        invariant
            i <= resp.content.len(),
            bs == resp@.content,
            bs.len() == resp.content@.len(),
            string_seqs(texts@) == thinking_texts(bs.take(i as int)),
        decreases resp.content.len() - i,
    {
        proof {
            assert(bs.take(i + 1).drop_last() =~= bs.take(i as int));
            assert(bs.take(i + 1).last() == resp.content@[i as int]@);
        }
        if let AnthropicContentBlock::Thinking { thinking, .. } = &resp.content[i] {
            texts.push(thinking.clone());
        }
        assert(string_seqs(texts@) =~= thinking_texts(bs.take(i + 1)));
        i += 1;
    }
    assert(bs.take(resp.content.len() as int) =~= bs);
    join(&texts, "\n")
}

} // verus!
