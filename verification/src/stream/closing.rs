//! What closing a Chat Completions stream that never finished emits: the
//! text collected over the whole stream, the message closed with that text
//! less any tool calls written into it as XML, those tool calls as items,
//! and the completed response.

use vstd::prelude::*;
use crate::stream::numbering::chat_run;
use crate::stream::sse::{
    bump, chat_chunk_step, chunk_choices, chat_finalize, chat_initial, chat_response, chat_start, choice_step,
    choices_step, close_message, close_tool_calls, content_delta, delta_step, fresh_at, message_item,
    next_u32, reasoning_delta, refusal_delta, strip_markers_spec, tool_call_delta, tool_call_deltas,
    xml_call_events, ChatChunkModel, ChatStreamState, ChunkChoiceModel, ChunkDeltaModel, ChunkToolCallModel,
};
use crate::translate::openai::chat::xml_tool_calls_spec;
use crate::types::responses::{ResponsesContentPartModel, ResponsesOutputItemModel, ResponsesStreamEventModel};

verus! {

// ---------------------------------------------------------------------------
// The text collected over a stream
// ---------------------------------------------------------------------------

/// The text a delta adds to the message (its content, with the reasoning
/// markers removed when the translator strips them).
pub open spec fn delta_text(d: Option<ChunkDeltaModel>, strip: bool) -> Seq<char> {
    match d {
        Some(dd) => match dd.content {
            Some(t) => if t.len() > 0 {
                if strip {
                    strip_markers_spec(t)
                } else {
                    t
                }
            } else {
                seq![]
            },
            None => seq![],
        },
        None => seq![],
    }
}

/// The text the choices add, in order.
pub open spec fn choices_text(cs: Seq<ChunkChoiceModel>, strip: bool) -> Seq<char>
    decreases cs.len(),
{
    if cs.len() == 0 {
        seq![]
    } else {
        choices_text(cs.drop_last(), strip) + delta_text(cs.last().delta, strip)
    }
}

/// The text a series of chunks adds, in order.
pub open spec fn run_text(steps: Seq<(ChatChunkModel, Seq<Seq<char>>, i64)>, strip: bool) -> Seq<char>
    decreases steps.len(),
{
    if steps.len() == 0 {
        seq![]
    } else {
        run_text(steps.drop_last(), strip) + match steps.last().0.choices {
            Some(cs) => choices_text(cs, strip),
            None => seq![],
        }
    }
}

/// Whether no choice of any chunk has a finish reason.
pub open spec fn run_unfinished(steps: Seq<(ChatChunkModel, Seq<Seq<char>>, i64)>) -> bool {
    forall|i: int, j: int|
        0 <= i < steps.len() && 0 <= j < chunk_choices(steps[i].0).len()
            ==> (#[trigger] chunk_choices(steps[i].0)[j]).finish_reason is None
}

/// Whether some chunk has a choice.
pub open spec fn run_has_choice(steps: Seq<(ChatChunkModel, Seq<Seq<char>>, i64)>) -> bool {
    exists|i: int| 0 <= i < steps.len() && chunk_choices(#[trigger] steps[i].0).len() > 0
}

/// The parts of a state that the chunks of an unfinished stream never change.
pub open spec fn same_frame(s: ChatStreamState, t: ChatStreamState) -> bool {
    &&& t.strip_markers == s.strip_markers
    &&& t.output_index == s.output_index
    &&& t.item_id == s.item_id
    &&& s.msg_item_added ==> t.msg_item_added
}

proof fn lemma_content(s: ChatStreamState, c: Option<Seq<char>>)
    ensures
        same_frame(s, content_delta(s, c).0),
        content_delta(s, c).0.text == s.text + delta_text(
            Some(ChunkDeltaModel { content: c, refusal: None, reasoning_content: None, tool_calls: None }),
            s.strip_markers,
        ),
{
    let t = content_delta(s, c).0;
    if let Some(x) = c {
        if x.len() > 0 {
            let clean = if s.strip_markers { strip_markers_spec(x) } else { x };
            if clean.len() == 0 {
                assert(s.text + clean =~= s.text);
            }
        } else {
            assert(s.text + Seq::<char>::empty() =~= s.text);
        }
    } else {
        assert(s.text + Seq::<char>::empty() =~= s.text);
    }
}

proof fn lemma_tool_call(s: ChatStreamState, tc: ChunkToolCallModel, fresh: Seq<Seq<char>>, k: int)
    ensures
        same_frame(s, tool_call_delta(s, tc, fresh, k).0),
        tool_call_delta(s, tc, fresh, k).0.text == s.text,
{
}

proof fn lemma_tool_calls(s: ChatStreamState, tcs: Seq<ChunkToolCallModel>, fresh: Seq<Seq<char>>, k: int)
    ensures
        same_frame(s, tool_call_deltas(s, tcs, fresh, k).0),
        tool_call_deltas(s, tcs, fresh, k).0.text == s.text,
    decreases tcs.len(),
{
    if tcs.len() > 0 {
        lemma_tool_calls(s, tcs.drop_last(), fresh, k);
        let (s1, e1, k1) = tool_call_deltas(s, tcs.drop_last(), fresh, k);
        lemma_tool_call(s1, tcs.last(), fresh, k1);
    }
}

proof fn lemma_delta(s: ChatStreamState, d: ChunkDeltaModel, fresh: Seq<Seq<char>>, k: int)
    ensures
        same_frame(s, delta_step(s, d, fresh, k).0),
        delta_step(s, d, fresh, k).0.text == s.text + delta_text(Some(d), s.strip_markers),
{
    reveal(delta_step);
    lemma_content(s, d.content);
    let (s1, e1) = content_delta(s, d.content);
    let (s2, e2) = refusal_delta(s1, d.refusal);
    let (s3, e3) = reasoning_delta(s2, d.reasoning_content);
    if let Some(tcs) = d.tool_calls {
        lemma_tool_calls(s3, tcs, fresh, k);
    }
}

proof fn lemma_choice(s: ChatStreamState, ch: ChunkChoiceModel, fresh: Seq<Seq<char>>, k: int, now: i64)
    requires
        ch.finish_reason is None,
    ensures
        same_frame(s, choice_step(s, ch, fresh, k, now).0),
        choice_step(s, ch, fresh, k, now).0.msg_item_added,
        choice_step(s, ch, fresh, k, now).0.text == s.text + delta_text(ch.delta, s.strip_markers),
{
    let s2 = if !s.msg_item_added {
        bump(ChatStreamState { msg_item_added: true, ..s })
    } else {
        s
    };
    let s3 = if !s2.content_part_added {
        bump(ChatStreamState { content_part_added: true, ..s2 })
    } else {
        s2
    };
    match ch.delta {
        Some(d) => {
            lemma_delta(s3, d, fresh, k);
        },
        None => {
            assert(s.text + Seq::<char>::empty() =~= s.text);
        },
    }
}

proof fn lemma_choices(s: ChatStreamState, cs: Seq<ChunkChoiceModel>, fresh: Seq<Seq<char>>, k: int, now: i64)
    requires
        forall|j: int| 0 <= j < cs.len() ==> (#[trigger] cs[j]).finish_reason is None,
    ensures
        same_frame(s, choices_step(s, cs, fresh, k, now).0),
        cs.len() > 0 ==> choices_step(s, cs, fresh, k, now).0.msg_item_added,
        choices_step(s, cs, fresh, k, now).0.text == s.text + choices_text(cs, s.strip_markers),
    decreases cs.len(),
{
    if cs.len() == 0 {
        assert(s.text + Seq::<char>::empty() =~= s.text);
    } else {
        lemma_choices(s, cs.drop_last(), fresh, k, now);
        let (s1, e1, k1) = choices_step(s, cs.drop_last(), fresh, k, now);
        assert(cs.last() == cs[cs.len() - 1]);
        lemma_choice(s1, cs.last(), fresh, k1, now);
        assert(s.text + choices_text(cs, s.strip_markers) =~= s.text + choices_text(cs.drop_last(), s.strip_markers)
            + delta_text(cs.last().delta, s.strip_markers));
    }
}

proof fn lemma_chunk(s: ChatStreamState, c: ChatChunkModel, fresh: Seq<Seq<char>>, now: i64)
    requires
        forall|j: int| 0 <= j < chunk_choices(c).len() ==> (#[trigger] chunk_choices(c)[j]).finish_reason is None,
    ensures
        same_frame(s, chat_chunk_step(s, c, fresh, now).0),
        chunk_choices(c).len() > 0 ==> chat_chunk_step(s, c, fresh, now).0.msg_item_added,
        chat_chunk_step(s, c, fresh, now).0.text == s.text + match c.choices {
            Some(cs) => choices_text(cs, s.strip_markers),
            None => seq![],
        },
{
    let (s1, e1) = chat_start(s, now);
    let s2 = match c.usage {
        Some(u) => ChatStreamState { usage: Some(crate::stream::sse::chunk_usage_spec(u)), ..s1 },
        None => s1,
    };
    match c.choices {
        Some(cs) => {
            assert forall|j: int| 0 <= j < cs.len() implies (#[trigger] cs[j]).finish_reason is None by {
                assert(chunk_choices(c)[j] == cs[j]);
            }
            lemma_choices(s2, cs, fresh, 0, now);
        },
        None => {
            assert(s.text + Seq::<char>::empty() =~= s.text);
        },
    }
}

proof fn lemma_run_text(s0: ChatStreamState, steps: Seq<(ChatChunkModel, Seq<Seq<char>>, i64)>)
    requires
        run_unfinished(steps),
    ensures
        same_frame(s0, chat_run(s0, steps).0),
        chat_run(s0, steps).0.text == s0.text + run_text(steps, s0.strip_markers),
        run_has_choice(steps) ==> chat_run(s0, steps).0.msg_item_added,
    decreases steps.len(),
{
    if steps.len() == 0 {
        assert(s0.text + Seq::<char>::empty() =~= s0.text);
    } else {
        let prev = steps.drop_last();
        assert forall|i: int, j: int|
            0 <= i < prev.len() && 0 <= j < chunk_choices(prev[i].0).len()
            implies (#[trigger] chunk_choices(prev[i].0)[j]).finish_reason is None by {
            assert(prev[i] == steps[i]);
        }
        lemma_run_text(s0, prev);
        let (s1, e1) = chat_run(s0, prev);
        let (c, fresh, now) = steps.last();
        assert(steps.last() == steps[steps.len() - 1]);
        assert forall|j: int| 0 <= j < chunk_choices(c).len() implies (#[trigger] chunk_choices(c)[j]).finish_reason
            is None by {
            assert(chunk_choices(steps[steps.len() - 1].0)[j] == chunk_choices(c)[j]);
        }
        lemma_chunk(s1, c, fresh, now);
        let tail = match c.choices {
            Some(cs) => choices_text(cs, s0.strip_markers),
            None => seq![],
        };
        assert(s0.text + run_text(steps, s0.strip_markers) =~= s0.text + run_text(prev, s0.strip_markers) + tail);
        if run_has_choice(steps) && !run_has_choice(prev) {
            let i = choose|i: int| 0 <= i < steps.len() && chunk_choices(#[trigger] steps[i].0).len() > 0;
            if i < prev.len() {
                assert(prev[i] == steps[i]);
            }
        }
    }
}

// ---------------------------------------------------------------------------
// The closing events
// ---------------------------------------------------------------------------

/// The item of a tool call recovered from the text.
pub open spec fn recovered_call(part: (Seq<char>, Seq<char>), id: Seq<char>) -> ResponsesOutputItemModel {
    ResponsesOutputItemModel::FunctionCall {
        id,
        call_id: id,
        name: part.0,
        arguments: part.1,
        status: Some("completed"@),
    }
}

/// Whether the events at `at` and `at + 1` add and complete the item of a
/// recovered tool call.
pub open spec fn recovered_pair(
    e: Seq<ResponsesStreamEventModel>,
    at: int,
    part: (Seq<char>, Seq<char>),
    id: Seq<char>,
) -> bool {
    &&& e[at] matches ResponsesStreamEventModel::OutputItemAdded { item, .. } && item == recovered_call(part, id)
    &&& e[at + 1] matches ResponsesStreamEventModel::OutputItemDone { item, .. } && item == recovered_call(part, id)
}

proof fn lemma_xml_events(s: ChatStreamState, parts: Seq<(Seq<char>, Seq<char>)>, fresh: Seq<Seq<char>>)
    requires
        fresh.len() >= parts.len(),
    ensures
        xml_call_events(s, parts, fresh, 0).1.len() == 2 * parts.len(),
        xml_call_events(s, parts, fresh, 0).2 == parts.len(),
        forall|k: int|
            #![trigger parts[k]]
            0 <= k < parts.len() ==> recovered_pair(xml_call_events(s, parts, fresh, 0).1, 2 * k, parts[k], "call_"@ + fresh[k]),
    decreases parts.len(),
{
    if parts.len() > 0 {
        let prev = parts.drop_last();
        lemma_xml_events(s, prev, fresh);
        let (s1, e1, k1) = xml_call_events(s, prev, fresh, 0);
        let e = xml_call_events(s, parts, fresh, 0).1;
        assert(fresh_at(fresh, k1) == fresh[k1]);
        assert forall|k: int|
            #![trigger parts[k]]
            0 <= k < parts.len() implies recovered_pair(e, 2 * k, parts[k], "call_"@ + fresh[k]) by {
            if k < prev.len() {
                assert(e[2 * k] == e1[2 * k]);
                assert(e[2 * k + 1] == e1[2 * k + 1]);
                assert(prev[k] == parts[k]);
                assert(recovered_pair(e1, 2 * k, prev[k], "call_"@ + fresh[k]));
            } else {
                assert(parts.last() == parts[k]);
            }
        }
    }
}

/// Closing a stream whose message item is open emits, in order: the text
/// done and content part done with all the text collected; the text done,
/// content part done and message item done with the text less its XML tool
/// calls; an added and a done function-call item for each of those calls,
/// under `call_` and a fresh identifier; the closing of the open tool calls;
/// and last the completed response.
#[verifier::spinoff_prover]
#[verifier::rlimit(60)]
pub proof fn law_chat_finalize_events(s: ChatStreamState, fresh: Seq<Seq<char>>, now: i64)
    requires
        s.msg_item_added,
        fresh.len() >= xml_tool_calls_spec(s.text).1.len(),
    ensures
        ({
            let e = chat_finalize(s, fresh, now).1;
            let (clean, parts) = xml_tool_calls_spec(s.text);
            &&& e.len() >= 6 + 2 * parts.len()
            &&& e[0] matches ResponsesStreamEventModel::OutputTextDone { output_index, text, .. } && output_index
                == s.output_index && text == s.text
            &&& e[2] matches ResponsesStreamEventModel::OutputTextDone { text, .. } && text == clean
            &&& e[4] matches ResponsesStreamEventModel::OutputItemDone { output_index, item, .. } && output_index
                == s.output_index && item == message_item(
                s.item_id,
                seq![ResponsesContentPartModel::OutputText { text: clean }],
                "completed"@,
            )
            &&& forall|k: int|
                #![trigger parts[k]]
                0 <= k < parts.len() ==> recovered_pair(e, 5 + 2 * k, parts[k], "call_"@ + fresh[k])
            &&& e.last() matches ResponsesStreamEventModel::ResponseCompleted { response, .. } && response.status
                == Some("completed"@)
        }),
{
    let full = s.text;
    let s0 = ChatStreamState { text: seq![], ..s };
    let s1 = bump(s0);
    let s2 = bump(s1);
    let (clean, parts) = xml_tool_calls_spec(full);
    let (s5, e5) = close_message(s2, clean);
    lemma_xml_events(s5, parts, fresh);
    let (s6, e6, k6) = xml_call_events(s5, parts, fresh, 0);
    let (s7, e7, k7) = close_tool_calls(s6, s6.tool_calls, fresh, k6);
    let e = chat_finalize(s, fresh, now).1;
    let head = seq![
        ResponsesStreamEventModel::OutputTextDone {
            output_index: s.output_index,
            content_index: 0,
            text: full,
            sequence_number: s0.seq,
        },
        ResponsesStreamEventModel::ContentPartDone {
            output_index: s.output_index,
            content_index: 0,
            part: ResponsesContentPartModel::OutputText { text: full },
            sequence_number: s1.seq,
        },
    ];
    let resp = chat_response(s7, "completed"@, now);
    let last = ResponsesStreamEventModel::ResponseCompleted { response: resp, sequence_number: s7.seq };
    assert(e == head + e5 + e6 + e7 + seq![last]);
    assert(e[0] == head[0]);
    assert(e[2] == e5[0]);
    assert(e[4] == e5[2]);
    assert forall|k: int|
        #![trigger parts[k]]
        0 <= k < parts.len() implies recovered_pair(e, 5 + 2 * k, parts[k], "call_"@ + fresh[k]) by {
        assert(e[5 + 2 * k] == e6[2 * k]);
        assert(e[6 + 2 * k] == e6[2 * k + 1]);
        assert(recovered_pair(e6, 2 * k, parts[k], "call_"@ + fresh[k]));
    }
    reveal_strlit("completed");
}

/// Over a whole stream that never finished, from a new translator through
/// chunks of which at least one has a choice and none a finish reason,
/// closing emits first the text of all the chunks' contents (reasoning
/// markers removed where they are stripped) put together, then, in the
/// message item at output index 0, that text less its XML tool calls; each
/// of those calls becomes a function-call item; the completed response
/// comes last.
pub proof fn law_chat_stream_closing(
    model: Seq<char>,
    response_id: Seq<char>,
    item_id: Seq<char>,
    created: i64,
    steps: Seq<(ChatChunkModel, Seq<Seq<char>>, i64)>,
    fresh: Seq<Seq<char>>,
    now: i64,
)
    requires
        run_has_choice(steps),
        run_unfinished(steps),
        fresh.len() >= xml_tool_calls_spec(run_text(steps, false)).1.len(),
    ensures
        ({
            let s = chat_run(chat_initial(model, response_id, item_id, created), steps).0;
            let e = chat_finalize(s, fresh, now).1;
            let t = run_text(steps, false);
            let (clean, parts) = xml_tool_calls_spec(t);
            &&& s.text == t
            &&& e[0] matches ResponsesStreamEventModel::OutputTextDone { output_index, text, .. } && output_index == 0
                && text == t
            &&& e[2] matches ResponsesStreamEventModel::OutputTextDone { text, .. } && text == clean
            &&& e[4] matches ResponsesStreamEventModel::OutputItemDone { output_index, item, .. } && output_index == 0
                && item == message_item(item_id, seq![ResponsesContentPartModel::OutputText { text: clean }], "completed"@)
            &&& forall|k: int|
                #![trigger parts[k]]
                0 <= k < parts.len() ==> recovered_pair(e, 5 + 2 * k, parts[k], "call_"@ + fresh[k])
            &&& e.last() matches ResponsesStreamEventModel::ResponseCompleted { response, .. } && response.status
                == Some("completed"@)
        }),
{
    let s0 = chat_initial(model, response_id, item_id, created);
    lemma_run_text(s0, steps);
    assert(s0.text + run_text(steps, false) =~= run_text(steps, false));
    let s = chat_run(s0, steps).0;
    law_chat_finalize_events(s, fresh, now);
}

} // verus!
