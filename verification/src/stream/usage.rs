//! The token usage that a Chat Completions stream reports, as the Responses
//! stream passes it on: prompt tokens become input tokens, completion
//! tokens output tokens, and the completed response carries them.

use vstd::prelude::*;
use crate::stream::sse::{
    chat_chunk_step, chat_finalize, chat_start, choice_step, choices_step, close_message, close_tool_calls,
    content_delta, delta_step, finish_step, reasoning_delta, refusal_delta, tool_call_delta, tool_call_deltas,
    xml_call_events, ChatChunkModel, ChatStreamState, ChunkChoiceModel, ChunkDeltaModel, ChunkToolCallModel,
    ChunkUsageModel, PendingToolCallModel,
};
use crate::translate::openai::chat::xml_tool_calls_spec;
use crate::types::responses::{ResponsesStreamEventModel, ResponsesUsageModel};

verus! {

/// A count the chunk reports, 0 when it reports none.
pub open spec fn reported(o: Option<u64>) -> u64 {
    match o {
        Some(x) => x,
        None => 0,
    }
}

/// Whether `r` is the usage a chunk reports: its prompt tokens as input
/// tokens, its completion tokens as output tokens and its total as total,
/// each cut to 32 bits.
pub open spec fn usage_reported_as(u: ChunkUsageModel, r: ResponsesUsageModel) -> bool {
    &&& r.input_tokens == reported(u.prompt_tokens) as u32
    &&& r.output_tokens == reported(u.completion_tokens) as u32
    &&& r.total_tokens == reported(u.total_tokens) as u32
}

proof fn lemma_tool_calls_usage(s: ChatStreamState, tcs: Seq<ChunkToolCallModel>, fresh: Seq<Seq<char>>, k: int)
    ensures
        tool_call_deltas(s, tcs, fresh, k).0.usage == s.usage,
        tool_call_deltas(s, tcs, fresh, k).0.finished == s.finished,
    decreases tcs.len(),
{
    if tcs.len() > 0 {
        lemma_tool_calls_usage(s, tcs.drop_last(), fresh, k);
        let (s1, e1, k1) = tool_call_deltas(s, tcs.drop_last(), fresh, k);
        assert(tool_call_delta(s1, tcs.last(), fresh, k1).0.usage == s1.usage);
        assert(tool_call_delta(s1, tcs.last(), fresh, k1).0.finished == s1.finished);
    }
}

proof fn lemma_close_tools_usage(s: ChatStreamState, ps: Seq<(u32, PendingToolCallModel)>, fresh: Seq<Seq<char>>, k: int)
    ensures
        close_tool_calls(s, ps, fresh, k).0.usage == s.usage,
    decreases ps.len(),
{
    if ps.len() > 0 {
        lemma_close_tools_usage(s, ps.drop_last(), fresh, k);
    }
}

proof fn lemma_xml_usage(s: ChatStreamState, parts: Seq<(Seq<char>, Seq<char>)>, fresh: Seq<Seq<char>>, k: int)
    ensures
        xml_call_events(s, parts, fresh, k).0.usage == s.usage,
    decreases parts.len(),
{
    if parts.len() > 0 {
        lemma_xml_usage(s, parts.drop_last(), fresh, k);
    }
}

proof fn lemma_delta_usage(s: ChatStreamState, d: ChunkDeltaModel, fresh: Seq<Seq<char>>, k: int)
    ensures
        delta_step(s, d, fresh, k).0.usage == s.usage,
        delta_step(s, d, fresh, k).0.finished == s.finished,
{
    reveal(delta_step);
    let (s1, e1) = content_delta(s, d.content);
    let (s2, e2) = refusal_delta(s1, d.refusal);
    let (s3, e3) = reasoning_delta(s2, d.reasoning_content);
    if let Some(tcs) = d.tool_calls {
        lemma_tool_calls_usage(s3, tcs, fresh, k);
    }
}

proof fn lemma_finish_usage(s: ChatStreamState, fr: Seq<char>, fresh: Seq<Seq<char>>, k: int, now: i64)
    ensures
        finish_step(s, fr, fresh, k, now).0.usage == s.usage,
        finish_step(s, fr, fresh, k, now).1.len() > 0,
        (finish_step(s, fr, fresh, k, now).1.last() matches ResponsesStreamEventModel::ResponseCompleted { response, .. }
            && response.usage == s.usage),
{
    reveal(finish_step);
    let s0 = ChatStreamState { text: seq![], ..s };
    let (s3, e3) = close_message(s0, s.text);
    lemma_close_tools_usage(s3, s3.tool_calls, fresh, k);
}

proof fn lemma_choice_usage(s: ChatStreamState, ch: ChunkChoiceModel, fresh: Seq<Seq<char>>, k: int, now: i64)
    ensures
        choice_step(s, ch, fresh, k, now).0.usage == s.usage,
        ch.finish_reason is Some && (ch.finish_reason != Some("stop"@) || !s.finished) ==> {
            let e = choice_step(s, ch, fresh, k, now).1;
            &&& e.len() > 0
            &&& e.last() matches ResponsesStreamEventModel::ResponseCompleted { response, .. }
                && response.usage == s.usage
        },
{
    let s1 = match ch.finish_reason {
        Some(fr) => ChatStreamState { finish_reason: Some(fr), ..s },
        None => s,
    };
    let s2 = if !s1.msg_item_added {
        crate::stream::sse::bump(ChatStreamState { msg_item_added: true, ..s1 })
    } else {
        s1
    };
    let s3 = if !s2.content_part_added {
        crate::stream::sse::bump(ChatStreamState { content_part_added: true, ..s2 })
    } else {
        s2
    };
    let (s4, e4, k4) = match ch.delta {
        Some(d) => delta_step(s3, d, fresh, k),
        None => (s3, seq![], k),
    };
    if let Some(d) = ch.delta {
        lemma_delta_usage(s3, d, fresh, k);
    }
    if let Some(fr) = ch.finish_reason {
        lemma_finish_usage(s4, fr, fresh, k4, now);
        if fr != "stop"@ || !s.finished {
            assert(s4.finished == s.finished);
            let (s5, e5, k5) = finish_step(s4, fr, fresh, k4, now);
            let e = choice_step(s, ch, fresh, k, now).1;
            assert(e.last() == e5.last());
        }
    }
}

proof fn lemma_choices_usage(s: ChatStreamState, cs: Seq<ChunkChoiceModel>, fresh: Seq<Seq<char>>, k: int, now: i64)
    ensures
        choices_step(s, cs, fresh, k, now).0.usage == s.usage,
    decreases cs.len(),
{
    if cs.len() > 0 {
        lemma_choices_usage(s, cs.drop_last(), fresh, k, now);
        let (s1, e1, k1) = choices_step(s, cs.drop_last(), fresh, k, now);
        lemma_choice_usage(s1, cs.last(), fresh, k1, now);
    }
}

/// A chunk that reports usage leaves the stream with that usage: its prompt
/// tokens as input tokens and its completion tokens as output tokens; a
/// chunk that reports none leaves the usage seen before.
pub proof fn law_chunk_usage_recorded(s: ChatStreamState, c: ChatChunkModel, fresh: Seq<Seq<char>>, now: i64)
    ensures
        match c.usage {
            Some(u) => (chat_chunk_step(s, c, fresh, now).0.usage matches Some(r) && usage_reported_as(u, r)),
            None => chat_chunk_step(s, c, fresh, now).0.usage == s.usage,
        },
{
    let (s1, e1) = chat_start(s, now);
    let s2 = match c.usage {
        Some(u) => ChatStreamState { usage: Some(crate::stream::sse::chunk_usage_spec(u)), ..s1 },
        None => s1,
    };
    if let Some(cs) = c.choices {
        lemma_choices_usage(s2, cs, fresh, 0, now);
    }
}

/// A chunk that reports usage and finishes its one choice completes the
/// response with that usage: input tokens are the prompt tokens and output
/// tokens the completion tokens.
pub proof fn law_finish_reports_chunk_usage(
    s: ChatStreamState,
    c: ChatChunkModel,
    ch: ChunkChoiceModel,
    u: ChunkUsageModel,
    fresh: Seq<Seq<char>>,
    now: i64,
)
    requires
        c.usage == Some(u),
        c.choices == Some(seq![ch]),
        ch.finish_reason is Some,
        !s.finished,
    ensures
        ({
            let e = chat_chunk_step(s, c, fresh, now).1;
            &&& e.len() > 0
            &&& e.last() matches ResponsesStreamEventModel::ResponseCompleted { response, .. }
                && response.usage matches Some(r) && usage_reported_as(u, r)
        }),
{
    let (s1, e1) = chat_start(s, now);
    let s2 = ChatStreamState { usage: Some(crate::stream::sse::chunk_usage_spec(u)), ..s1 };
    let cs = seq![ch];
    assert(cs.drop_last() =~= Seq::<ChunkChoiceModel>::empty());
    assert(cs.last() == ch);
    let (a, b, kk) = choices_step(s2, cs.drop_last(), fresh, 0, now);
    assert(a == s2 && b =~= Seq::<ResponsesStreamEventModel>::empty() && kk == 0);
    lemma_choice_usage(s2, ch, fresh, 0, now);
    let ec = choice_step(s2, ch, fresh, 0, now).1;
    let e = chat_chunk_step(s, c, fresh, now).1;
    assert(e == e1 + (b + ec));
    assert(e.last() == ec.last());
}

/// Closing a stream completes the response with the usage seen so far.
pub proof fn law_finalize_reports_usage(s: ChatStreamState, fresh: Seq<Seq<char>>, now: i64)
    ensures
        ({
            let e = chat_finalize(s, fresh, now).1;
            &&& e.len() > 0
            &&& e.last() matches ResponsesStreamEventModel::ResponseCompleted { response, .. } && response.usage == s.usage
        }),
{
    if s.msg_item_added {
        let s0 = ChatStreamState { text: seq![], ..s };
        let s2 = crate::stream::sse::bump(crate::stream::sse::bump(s0));
        let (clean, parts) = xml_tool_calls_spec(s.text);
        let (s5, e5) = close_message(s2, clean);
        lemma_xml_usage(s5, parts, fresh, 0);
        let (s6, e6, k6) = xml_call_events(s5, parts, fresh, 0);
        lemma_close_tools_usage(s6, s6.tool_calls, fresh, k6);
    }
}

} // verus!
