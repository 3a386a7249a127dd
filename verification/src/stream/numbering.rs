//! The numbering of the Responses events that the Chat Completions stream
//! translator emits: across every chunk of a stream and its closing, the
//! events carry the sequence numbers 0, 1, 2, ... (counted in 32 bits), and
//! the response is created exactly once, first.

use vstd::prelude::*;
use vstd::arithmetic::div_mod::lemma_add_mod_noop_right;
use crate::stream::sse::{
    bump, chat_chunk_step, chat_finalize, chat_initial, chat_start, choice_step, choices_step,
    close_message, close_tool_calls, content_delta, delta_step, finish_step, next_u32, reasoning_delta,
    refusal_delta, tool_call_delta, tool_call_deltas, xml_call_events, ChatChunkModel, ChatStreamState,
    ChunkChoiceModel, ChunkDeltaModel, ChunkToolCallModel, PendingToolCallModel,
};
use crate::translate::openai::chat::xml_tool_calls_spec;
use crate::types::responses::ResponsesStreamEventModel;

verus! {

/// `x` counted in 32 bits.
pub open spec fn wrap32(x: int) -> int {
    x % 0x1_0000_0000
}

/// The sequence number of an event.
pub open spec fn event_seq(e: ResponsesStreamEventModel) -> u32 {
    match e {
        ResponsesStreamEventModel::ResponseCreated { sequence_number, .. } => sequence_number,
        ResponsesStreamEventModel::ResponseInProgress { sequence_number, .. } => sequence_number,
        ResponsesStreamEventModel::OutputItemAdded { sequence_number, .. } => sequence_number,
        ResponsesStreamEventModel::ContentPartAdded { sequence_number, .. } => sequence_number,
        ResponsesStreamEventModel::OutputTextDelta { sequence_number, .. } => sequence_number,
        ResponsesStreamEventModel::RefusalDelta { sequence_number, .. } => sequence_number,
        ResponsesStreamEventModel::FunctionCallArgsDelta { sequence_number, .. } => sequence_number,
        ResponsesStreamEventModel::FunctionCallArgsDone { sequence_number, .. } => sequence_number,
        ResponsesStreamEventModel::ReasoningTextDelta { sequence_number, .. } => sequence_number,
        ResponsesStreamEventModel::OutputItemDone { sequence_number, .. } => sequence_number,
        ResponsesStreamEventModel::ContentPartDone { sequence_number, .. } => sequence_number,
        ResponsesStreamEventModel::OutputTextDone { sequence_number, .. } => sequence_number,
        ResponsesStreamEventModel::ResponseCompleted { sequence_number, .. } => sequence_number,
        ResponsesStreamEventModel::Error { sequence_number, .. } => sequence_number,
    }
}

/// Whether the events are numbered `start`, `start + 1`, ... (in 32 bits).
pub open spec fn numbered(es: Seq<ResponsesStreamEventModel>, start: int) -> bool {
    forall|i: int| 0 <= i < es.len() ==> event_seq(#[trigger] es[i]) as int == wrap32(start + i)
}

/// Whether none of the events creates the response.
pub open spec fn none_created(es: Seq<ResponsesStreamEventModel>) -> bool {
    forall|i: int| 0 <= i < es.len() ==> !(#[trigger] es[i] is ResponseCreated)
}

/// A run of events that starts at counter `a`, leaves the counter at `b`
/// after them, and creates no response.
pub open spec fn counted(a: u32, b: u32, es: Seq<ResponsesStreamEventModel>) -> bool {
    &&& numbered(es, a as int)
    &&& b as int == wrap32(a + es.len())
    &&& none_created(es)
}

proof fn lemma_next(x: u32)
    ensures
        next_u32(x) as int == wrap32(x + 1),
{
}

proof fn lemma_none(a: u32)
    ensures
        counted(a, a, seq![]),
{
}

proof fn lemma_one(a: u32, e: ResponsesStreamEventModel)
    requires
        event_seq(e) == a,
        !(e is ResponseCreated),
    ensures
        counted(a, next_u32(a), seq![e]),
{
    lemma_next(a);
}

proof fn lemma_compose(a: u32, b: u32, c: u32, e1: Seq<ResponsesStreamEventModel>, e2: Seq<ResponsesStreamEventModel>)
    requires
        numbered(e1, a as int),
        b as int == wrap32(a + e1.len()),
        numbered(e2, b as int),
        c as int == wrap32(b + e2.len()),
    ensures
        numbered(e1 + e2, a as int),
        c as int == wrap32(a + (e1 + e2).len()),
{
    let m = 0x1_0000_0000int;
    let e = e1 + e2;
    assert forall|i: int| 0 <= i < e.len() implies event_seq(#[trigger] e[i]) as int == wrap32(a + i) by {
        if i >= e1.len() {
            assert(e[i] == e2[i - e1.len()]);
            lemma_add_mod_noop_right(i - e1.len(), a + e1.len(), m);
        }
    }
    lemma_add_mod_noop_right(e2.len() as int, a + e1.len(), m);
}

proof fn lemma_counted_compose(a: u32, b: u32, c: u32, e1: Seq<ResponsesStreamEventModel>, e2: Seq<ResponsesStreamEventModel>)
    requires
        counted(a, b, e1),
        counted(b, c, e2),
    ensures
        counted(a, c, e1 + e2),
{
    lemma_compose(a, b, c, e1, e2);
    let e = e1 + e2;
    assert forall|i: int| 0 <= i < e.len() implies !(#[trigger] e[i] is ResponseCreated) by {
        if i >= e1.len() {
            assert(e[i] == e2[i - e1.len()]);
        }
    }
}

proof fn lemma_two(a: u32, x: ResponsesStreamEventModel, y: ResponsesStreamEventModel)
    requires
        event_seq(x) == a,
        event_seq(y) == next_u32(a),
        !(x is ResponseCreated),
        !(y is ResponseCreated),
    ensures
        counted(a, next_u32(next_u32(a)), seq![x, y]),
{
    lemma_one(a, x);
    lemma_one(next_u32(a), y);
    lemma_counted_compose(a, next_u32(a), next_u32(next_u32(a)), seq![x], seq![y]);
    assert(seq![x] + seq![y] =~= seq![x, y]);
}

proof fn lemma_content(s: ChatStreamState, c: Option<Seq<char>>)
    ensures
        counted(s.seq, content_delta(s, c).0.seq, content_delta(s, c).1),
{
    let (t, e) = content_delta(s, c);
    if e.len() == 1 {
        lemma_one(s.seq, e[0]);
        assert(e =~= seq![e[0]]);
    } else {
        lemma_none(s.seq);
        assert(e =~= seq![]);
    }
}

proof fn lemma_refusal(s: ChatStreamState, c: Option<Seq<char>>)
    ensures
        counted(s.seq, refusal_delta(s, c).0.seq, refusal_delta(s, c).1),
{
    let (t, e) = refusal_delta(s, c);
    if e.len() == 1 {
        lemma_one(s.seq, e[0]);
        assert(e =~= seq![e[0]]);
    } else {
        lemma_none(s.seq);
        assert(e =~= seq![]);
    }
}

proof fn lemma_reasoning(s: ChatStreamState, c: Option<Seq<char>>)
    ensures
        counted(s.seq, reasoning_delta(s, c).0.seq, reasoning_delta(s, c).1),
{
    let (t, e) = reasoning_delta(s, c);
    if e.len() == 1 {
        lemma_one(s.seq, e[0]);
        assert(e =~= seq![e[0]]);
    } else {
        lemma_none(s.seq);
        assert(e =~= seq![]);
    }
}

proof fn lemma_tool_call(s: ChatStreamState, tc: ChunkToolCallModel, fresh: Seq<Seq<char>>, k: int)
    ensures
        counted(s.seq, tool_call_delta(s, tc, fresh, k).0.seq, tool_call_delta(s, tc, fresh, k).1),
{
    let (t, e, k2) = tool_call_delta(s, tc, fresh, k);
    let index = crate::stream::sse::or_zero(tc.index) as u32;
    let opened = crate::stream::sse::pending_pos(s.tool_calls, index) is None;
    let s1_seq = if opened { next_u32(s.seq) } else { s.seq };
    let n1: int = if opened { 1 } else { 0 };
    if opened {
        lemma_one(s.seq, e[0]);
    } else {
        lemma_none(s.seq);
    }
    let e1 = e.take(n1);
    if opened {
        assert(e1 =~= seq![e[0]]);
    } else {
        assert(e1 =~= seq![]);
    }
    if tc.arguments is Some {
        let e2 = e.skip(n1);
        assert(e2 =~= seq![e[n1]]);
        lemma_one(s1_seq, e[n1]);
        lemma_counted_compose(s.seq, s1_seq, t.seq, e1, e2);
        assert(e1 + e2 =~= e);
    } else {
        assert(e1 =~= e);
    }
}

proof fn lemma_tool_calls(s: ChatStreamState, tcs: Seq<ChunkToolCallModel>, fresh: Seq<Seq<char>>, k: int)
    ensures
        counted(s.seq, tool_call_deltas(s, tcs, fresh, k).0.seq, tool_call_deltas(s, tcs, fresh, k).1),
    decreases tcs.len(),
{
    if tcs.len() == 0 {
        lemma_none(s.seq);
    } else {
        lemma_tool_calls(s, tcs.drop_last(), fresh, k);
        let (s1, e1, k1) = tool_call_deltas(s, tcs.drop_last(), fresh, k);
        lemma_tool_call(s1, tcs.last(), fresh, k1);
        let (s2, e2, k2) = tool_call_delta(s1, tcs.last(), fresh, k1);
        lemma_counted_compose(s.seq, s1.seq, s2.seq, e1, e2);
    }
}

proof fn lemma_delta(s: ChatStreamState, d: ChunkDeltaModel, fresh: Seq<Seq<char>>, k: int)
    ensures
        counted(s.seq, delta_step(s, d, fresh, k).0.seq, delta_step(s, d, fresh, k).1),
{
    reveal(delta_step);
    let (s1, e1) = content_delta(s, d.content);
    let (s2, e2) = refusal_delta(s1, d.refusal);
    let (s3, e3) = reasoning_delta(s2, d.reasoning_content);
    lemma_content(s, d.content);
    lemma_refusal(s1, d.refusal);
    lemma_reasoning(s2, d.reasoning_content);
    lemma_counted_compose(s.seq, s1.seq, s2.seq, e1, e2);
    lemma_counted_compose(s.seq, s2.seq, s3.seq, e1 + e2, e3);
    if let Some(tcs) = d.tool_calls {
        lemma_tool_calls(s3, tcs, fresh, k);
        let (s4, e4, k4) = tool_call_deltas(s3, tcs, fresh, k);
        lemma_counted_compose(s.seq, s3.seq, s4.seq, e1 + e2 + e3, e4);
    }
}

proof fn lemma_close_tools(s: ChatStreamState, ps: Seq<(u32, PendingToolCallModel)>, fresh: Seq<Seq<char>>, k: int)
    ensures
        counted(s.seq, close_tool_calls(s, ps, fresh, k).0.seq, close_tool_calls(s, ps, fresh, k).1),
    decreases ps.len(),
{
    if ps.len() == 0 {
        lemma_none(s.seq);
    } else {
        lemma_close_tools(s, ps.drop_last(), fresh, k);
        let (s1, e1, k1) = close_tool_calls(s, ps.drop_last(), fresh, k);
        let (t, e, k2) = close_tool_calls(s, ps, fresh, k);
        let e2 = e.skip(e1.len() as int);
        assert(e2 =~= seq![e2[0], e2[1]]);
        lemma_two(s1.seq, e2[0], e2[1]);
        lemma_counted_compose(s.seq, s1.seq, t.seq, e1, e2);
        assert(e1 + e2 =~= e);
    }
}

proof fn lemma_close_message(s: ChatStreamState, text: Seq<char>)
    ensures
        counted(s.seq, close_message(s, text).0.seq, close_message(s, text).1),
{
    let (t, e) = close_message(s, text);
    lemma_two(s.seq, e[0], e[1]);
    lemma_one(next_u32(next_u32(s.seq)), e[2]);
    lemma_counted_compose(s.seq, next_u32(next_u32(s.seq)), t.seq, seq![e[0], e[1]], seq![e[2]]);
    assert(seq![e[0], e[1]] + seq![e[2]] =~= e);
}

proof fn lemma_finish(s: ChatStreamState, fr: Seq<char>, fresh: Seq<Seq<char>>, k: int, now: i64)
    ensures
        counted(s.seq, finish_step(s, fr, fresh, k, now).0.seq, finish_step(s, fr, fresh, k, now).1),
{
    reveal(finish_step);
    let s0 = ChatStreamState { text: seq![], ..s };
    let (s3, e3) = close_message(s0, s.text);
    let (s4, e4, k4) = close_tool_calls(s3, s3.tool_calls, fresh, k);
    lemma_close_message(s0, s.text);
    lemma_close_tools(s3, s3.tool_calls, fresh, k);
    lemma_counted_compose(s.seq, s3.seq, s4.seq, e3, e4);
    let (t, e, kk) = finish_step(s, fr, fresh, k, now);
    let last = e[e.len() - 1];
    assert(e == e3 + e4 + seq![last]);
    lemma_one(s4.seq, last);
    lemma_counted_compose(s.seq, s4.seq, t.seq, e3 + e4, seq![last]);
}

proof fn lemma_choice(s: ChatStreamState, ch: ChunkChoiceModel, fresh: Seq<Seq<char>>, k: int, now: i64)
    ensures
        counted(s.seq, choice_step(s, ch, fresh, k, now).0.seq, choice_step(s, ch, fresh, k, now).1),
{
    let s1 = match ch.finish_reason {
        Some(fr) => ChatStreamState { finish_reason: Some(fr), ..s },
        None => s,
    };
    let (s2, e2) = if !s1.msg_item_added {
        (
            bump(ChatStreamState { msg_item_added: true, ..s1 }),
            seq![
                ResponsesStreamEventModel::OutputItemAdded {
                    output_index: s1.output_index,
                    item: crate::stream::sse::message_item(s1.item_id, seq![], "in_progress"@),
                    sequence_number: s1.seq,
                },
            ],
        )
    } else {
        (s1, seq![])
    };
    let (s3, e3) = if !s2.content_part_added {
        (
            bump(ChatStreamState { content_part_added: true, ..s2 }),
            seq![
                ResponsesStreamEventModel::ContentPartAdded {
                    output_index: s2.output_index,
                    content_index: 0,
                    part: crate::types::responses::ResponsesContentPartModel::OutputText { text: seq![] },
                    sequence_number: s2.seq,
                },
            ],
        )
    } else {
        (s2, seq![])
    };
    if !s1.msg_item_added {
        lemma_one(s1.seq, e2[0]);
    } else {
        lemma_none(s1.seq);
    }
    if !s2.content_part_added {
        lemma_one(s2.seq, e3[0]);
    } else {
        lemma_none(s2.seq);
    }
    lemma_counted_compose(s.seq, s2.seq, s3.seq, e2, e3);
    let (s4, e4, k4) = match ch.delta {
        Some(d) => delta_step(s3, d, fresh, k),
        None => (s3, seq![], k),
    };
    if let Some(d) = ch.delta {
        lemma_delta(s3, d, fresh, k);
    } else {
        lemma_none(s3.seq);
    }
    lemma_counted_compose(s.seq, s3.seq, s4.seq, e2 + e3, e4);
    if let Some(fr) = ch.finish_reason {
        if fr != "stop"@ || !s4.finished {
            lemma_finish(s4, fr, fresh, k4, now);
            let (s5, e5, k5) = finish_step(s4, fr, fresh, k4, now);
            lemma_counted_compose(s.seq, s4.seq, s5.seq, e2 + e3 + e4, e5);
        }
    }
}

proof fn lemma_choices(s: ChatStreamState, cs: Seq<ChunkChoiceModel>, fresh: Seq<Seq<char>>, k: int, now: i64)
    ensures
        counted(s.seq, choices_step(s, cs, fresh, k, now).0.seq, choices_step(s, cs, fresh, k, now).1),
    decreases cs.len(),
{
    if cs.len() == 0 {
        lemma_none(s.seq);
    } else {
        lemma_choices(s, cs.drop_last(), fresh, k, now);
        let (s1, e1, k1) = choices_step(s, cs.drop_last(), fresh, k, now);
        lemma_choice(s1, cs.last(), fresh, k1, now);
        let (s2, e2, k2) = choice_step(s1, cs.last(), fresh, k1, now);
        lemma_counted_compose(s.seq, s1.seq, s2.seq, e1, e2);
    }
}

proof fn lemma_xml_calls(s: ChatStreamState, parts: Seq<(Seq<char>, Seq<char>)>, fresh: Seq<Seq<char>>, k: int)
    ensures
        counted(s.seq, xml_call_events(s, parts, fresh, k).0.seq, xml_call_events(s, parts, fresh, k).1),
    decreases parts.len(),
{
    if parts.len() == 0 {
        lemma_none(s.seq);
    } else {
        lemma_xml_calls(s, parts.drop_last(), fresh, k);
        let (s1, e1, k1) = xml_call_events(s, parts.drop_last(), fresh, k);
        let (t, e, k2) = xml_call_events(s, parts, fresh, k);
        let e2 = e.skip(e1.len() as int);
        assert(e2 =~= seq![e2[0], e2[1]]);
        lemma_two(s1.seq, e2[0], e2[1]);
        lemma_counted_compose(s.seq, s1.seq, t.seq, e1, e2);
        assert(e1 + e2 =~= e);
    }
}

/// Closing a stream numbers its events on from the counter, and creates
/// no response.
pub proof fn lemma_finalize_counted(s: ChatStreamState, fresh: Seq<Seq<char>>, now: i64)
    ensures
        counted(s.seq, chat_finalize(s, fresh, now).0.seq, chat_finalize(s, fresh, now).1),
{
    let (t, e) = chat_finalize(s, fresh, now);
    let (s7, e7) = if s.msg_item_added {
        let full = s.text;
        let s0 = ChatStreamState { text: seq![], ..s };
        let s1 = bump(s0);
        let s2 = bump(s1);
        let e2 = seq![
            ResponsesStreamEventModel::OutputTextDone {
                output_index: s.output_index,
                content_index: 0,
                text: full,
                sequence_number: s0.seq,
            },
            ResponsesStreamEventModel::ContentPartDone {
                output_index: s.output_index,
                content_index: 0,
                part: crate::types::responses::ResponsesContentPartModel::OutputText { text: full },
                sequence_number: s1.seq,
            },
        ];
        let (clean, parts) = xml_tool_calls_spec(full);
        let (s5, e5) = close_message(s2, clean);
        let (s6, e6, k6) = xml_call_events(s5, parts, fresh, 0);
        let (s7, e7, k7) = close_tool_calls(s6, s6.tool_calls, fresh, k6);
        lemma_two(s.seq, e2[0], e2[1]);
        lemma_close_message(s2, clean);
        lemma_xml_calls(s5, parts, fresh, 0);
        lemma_close_tools(s6, s6.tool_calls, fresh, k6);
        lemma_counted_compose(s.seq, s2.seq, s5.seq, e2, e5);
        lemma_counted_compose(s.seq, s5.seq, s6.seq, e2 + e5, e6);
        lemma_counted_compose(s.seq, s6.seq, s7.seq, e2 + e5 + e6, e7);
        (s7, e2 + e5 + e6 + e7)
    } else {
        lemma_none(s.seq);
        (s, seq![])
    };
    let last = e[e.len() - 1];
    assert(e == e7 + seq![last]);
    lemma_one(s7.seq, last);
    lemma_counted_compose(s.seq, s7.seq, t.seq, e7, seq![last]);
}

/// One chunk numbers its events on from the counter; it creates the
/// response, as its first event followed by the in-progress event, exactly
/// when the response had not been started, and leaves it started.
pub proof fn lemma_chunk_counted(s: ChatStreamState, c: ChatChunkModel, fresh: Seq<Seq<char>>, now: i64)
    ensures
        ({
            let (t, e) = chat_chunk_step(s, c, fresh, now);
            &&& numbered(e, s.seq as int)
            &&& t.seq as int == wrap32(s.seq + e.len())
            &&& t.started
            &&& s.started ==> none_created(e)
            &&& !s.started ==> e.len() >= 2 && e[0] is ResponseCreated && e[1] is ResponseInProgress
                && forall|i: int| 1 <= i < e.len() ==> !(#[trigger] e[i] is ResponseCreated)
        }),
{
    let (s1, e1) = chat_start(s, now);
    let s2 = match c.usage {
        Some(u) => ChatStreamState { usage: Some(crate::stream::sse::chunk_usage_spec(u)), ..s1 },
        None => s1,
    };
    let (t, e) = chat_chunk_step(s, c, fresh, now);
    let (s3, e3) = match c.choices {
        Some(cs) => {
            lemma_choices(s2, cs, fresh, 0, now);
            crate::stream::sse::lemma_choices_step_flags(s2, cs, fresh, 0, now);
            let (s3, e3, k3) = choices_step(s2, cs, fresh, 0, now);
            (s3, e3)
        },
        None => {
            lemma_none(s2.seq);
            (s2, seq![])
        },
    };
    assert(e == e1 + e3);
    if s.started {
        assert(e1 =~= seq![]);
        lemma_none(s.seq);
        lemma_counted_compose(s.seq, s.seq, t.seq, e1, e3);
    } else {
        lemma_next(s.seq);
        lemma_next(next_u32(s.seq));
        assert(numbered(e1, s.seq as int));
        lemma_compose(s.seq, s1.seq, t.seq, e1, e3);
        assert forall|i: int| 1 <= i < e.len() implies !(#[trigger] e[i] is ResponseCreated) by {
            if i >= 2 {
                assert(e[i] == e3[i - 2]);
            }
        }
    }
}

/// The state and all events after a series of chunks, each translated with
/// its own fresh identifiers and time.
pub open spec fn chat_run(s: ChatStreamState, steps: Seq<(ChatChunkModel, Seq<Seq<char>>, i64)>) -> (
    ChatStreamState,
    Seq<ResponsesStreamEventModel>,
)
    decreases steps.len(),
{
    if steps.len() == 0 {
        (s, seq![])
    } else {
        let (s1, e1) = chat_run(s, steps.drop_last());
        let (c, fresh, now) = steps.last();
        let (s2, e2) = chat_chunk_step(s1, c, fresh, now);
        (s2, e1 + e2)
    }
}

proof fn lemma_run(s0: ChatStreamState, steps: Seq<(ChatChunkModel, Seq<Seq<char>>, i64)>)
    requires
        !s0.started,
        s0.seq == 0,
    ensures
        ({
            let (s, e) = chat_run(s0, steps);
            &&& numbered(e, 0)
            &&& s.seq as int == wrap32(e.len() as int)
            &&& steps.len() > 0 ==> s.started && e.len() >= 2 && e[0] is ResponseCreated && e[1] is ResponseInProgress
                && forall|i: int| 1 <= i < e.len() ==> !(#[trigger] e[i] is ResponseCreated)
            &&& steps.len() == 0 ==> s == s0 && e.len() == 0
        }),
    decreases steps.len(),
{
    if steps.len() > 0 {
        lemma_run(s0, steps.drop_last());
        let (s1, e1) = chat_run(s0, steps.drop_last());
        let (c, fresh, now) = steps.last();
        lemma_chunk_counted(s1, c, fresh, now);
        let (s2, e2) = chat_chunk_step(s1, c, fresh, now);
        let (s, e) = chat_run(s0, steps);
        assert(e == e1 + e2);
        lemma_compose(0, s1.seq, s2.seq, e1, e2);
        if steps.len() > 1 {
            assert forall|i: int| 1 <= i < e.len() implies !(#[trigger] e[i] is ResponseCreated) by {
                if i >= e1.len() {
                    assert(e[i] == e2[i - e1.len()]);
                }
            }
        } else {
            assert(e1 =~= seq![]);
            assert(e =~= e2);
        }
    }
}

/// Over a whole stream, from a new translator through any chunks (each with
/// its own fresh identifiers and time) and then its closing, the events
/// carry the sequence numbers 0, 1, 2, ... in order (counted in 32 bits),
/// and the response is created exactly once: as the first event, followed
/// by the in-progress event.
pub proof fn law_chat_events_numbered(
    model: Seq<char>,
    response_id: Seq<char>,
    item_id: Seq<char>,
    created: i64,
    steps: Seq<(ChatChunkModel, Seq<Seq<char>>, i64)>,
    fresh: Seq<Seq<char>>,
    now: i64,
)
    requires
        steps.len() > 0,
    ensures
        ({
            let (s, e) = chat_run(chat_initial(model, response_id, item_id, created), steps);
            let all = e + chat_finalize(s, fresh, now).1;
            &&& forall|i: int| 0 <= i < all.len() ==> event_seq(#[trigger] all[i]) as int == wrap32(i)
            &&& all[0] is ResponseCreated
            &&& all[1] is ResponseInProgress
            &&& forall|i: int| 1 <= i < all.len() ==> !(#[trigger] all[i] is ResponseCreated)
        }),
{
    let s0 = chat_initial(model, response_id, item_id, created);
    lemma_run(s0, steps);
    let (s, e) = chat_run(s0, steps);
    lemma_finalize_counted(s, fresh, now);
    let (t, f) = chat_finalize(s, fresh, now);
    lemma_compose(0, s.seq, t.seq, e, f);
    let all = e + f;
    assert forall|i: int| 1 <= i < all.len() implies !(#[trigger] all[i] is ResponseCreated) by {
        if i >= e.len() {
            assert(all[i] == f[i - e.len()]);
        } else {
            assert(all[i] == e[i]);
        }
    }
    assert(all[0] == e[0]);
    assert(all[1] == e[1]);
}

} // verus!
