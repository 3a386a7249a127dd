//! Cutting an upstream SSE byte stream, as text, into events.
//!
//! Text arrives in arbitrary pieces. It is buffered until a blank line
//! (`"\n\n"`) closes a frame; each line of a frame that is `[DONE]` or
//! carries `data:` becomes an [`SseLine`]. What comes out does not depend on
//! where the pieces were cut (see [`law_framing_independent_of_cuts`]).

use vstd::prelude::*;
use crate::text::{
    chars_of, first_index_of, first_occurrence, first_occurrence_from, has_prefix,
    lemma_first_index_facts, lemma_first_occurrence_from, occurs_at, starts_with, str_eq,
    string_from, string_seqs, take_string, trim, trim_str,
};

verus! {

broadcast use vstd::seq_lib::group_seq_properties;

// ===========================================================================
// Frames
// ===========================================================================

/// The separator between frames: a blank line.
pub open spec fn frame_separator() -> Seq<char> {
    seq!['\n', '\n']
}

/// The complete frames of a text, in order, and the rest that no blank line
/// closes yet.
pub open spec fn split_frames(s: Seq<char>) -> (Seq<Seq<char>>, Seq<char>)
    decreases s.len(),
{
    match first_occurrence(s, frame_separator()) {
        Some(i) => if 0 <= i && i + 2 <= s.len() {
            let rest = split_frames(s.subrange(i + 2, s.len() as int));
            (seq![s.subrange(0, i)] + rest.0, rest.1)
        } else {
            (seq![], s)
        },
        None => (seq![], s),
    }
}

/// Lemma: an occurrence with none before it is the first one.
proof fn lemma_occurrence_is_first(s: Seq<char>, p: Seq<char>, i: int, from: int)
    requires
        0 <= from <= i,
        occurs_at(s, p, i),
        forall|j: int| from <= j < i ==> !occurs_at(s, p, j),
    ensures
        first_occurrence_from(s, p, from) == Some(i),
    decreases i - from,
{
    if from < i {
        lemma_occurrence_is_first(s, p, i, from + 1);
    }
}

/// Lemma: text appended after a text leaves its complete frames alone; the
/// frames of the whole are those frames followed by the frames of what was
/// left over and the appended text.
pub proof fn lemma_split_frames_append(s: Seq<char>, u: Seq<char>)
    ensures
        split_frames(s + u) == (
            split_frames(s).0 + split_frames(split_frames(s).1 + u).0,
            split_frames(split_frames(s).1 + u).1,
        ),
    decreases s.len(),
{
    let sep = frame_separator();
    lemma_first_occurrence_from(s, sep, 0);
    match first_occurrence(s, sep) {
        Some(i) => {
            let su = s + u;
            assert(occurs_at(su, sep, i)) by {
                assert(su.subrange(i, i + 2) =~= s.subrange(i, i + 2));
            }
            assert forall|j: int| 0 <= j < i implies !occurs_at(su, sep, j) by {
                if occurs_at(su, sep, j) {
                    assert(su.subrange(j, j + 2) =~= s.subrange(j, j + 2));
                    assert(occurs_at(s, sep, j));
                }
            }
            lemma_occurrence_is_first(su, sep, i, 0);
            let b = s.subrange(i + 2, s.len() as int);
            assert(su.subrange(i + 2, su.len() as int) =~= b + u);
            assert(su.subrange(0, i) =~= s.subrange(0, i));
            lemma_split_frames_append(b, u);
            assert(split_frames(su).0 =~= split_frames(s).0 + split_frames(split_frames(s).1 + u).0);
        },
        None => {},
    }
}

/// Buffered text of an SSE stream.
pub struct SseFrameBuffer {
    buffer: String,
}

impl View for SseFrameBuffer {
    type V = Seq<char>;

    /// The text received that no blank line has closed yet.
    closed spec fn view(&self) -> Seq<char> {
        self.buffer@
    }
}

impl SseFrameBuffer {
    /// An empty buffer.
    pub fn new() -> (r: Self)
        ensures
            r@ == Seq::<char>::empty(),
    {
        SseFrameBuffer { buffer: String::new() }
    }

    /// Receive a piece of text: the frames it completes, in order; the rest
    /// stays buffered.
    pub fn push(&mut self, text: &str) -> (frames: Vec<String>)
        ensures
            string_seqs(frames@) == split_frames(old(self)@ + text@).0,
            final(self)@ == split_frames(old(self)@ + text@).1,
    {
        let mut rest = take_string(&mut self.buffer);
        rest.append(text);
        let ghost whole = rest@;
        let mut frames: Vec<String> = Vec::new();
        let mut sep: Vec<char> = Vec::new();
        sep.push('\n');
        sep.push('\n');
        assert(sep@ =~= frame_separator());
        loop
            invariant
                sep@ == frame_separator(),
                string_seqs(frames@) + split_frames(rest@).0 == split_frames(whole).0,
                split_frames(rest@).1 == split_frames(whole).1,
            ensures
                string_seqs(frames@) == split_frames(whole).0,
                rest@ == split_frames(whole).1,
            decreases rest@.len(),
        {
            let v = chars_of(rest.as_str());
            proof {
                lemma_first_occurrence_from(v@, sep@, 0);
            }
            match crate::text::find_from(&v, &sep, 0) {
                Some(i) => {
                    assert(occurs_at(v@, sep@, i as int));
                    assert(i + 2 <= v.len());
                    let frame = string_from(&v, 0, i);
                    let next = string_from(&v, i + 2, v.len());
                    let ghost before = string_seqs(frames@);
                    frames.push(frame);
                    proof {
                        assert(string_seqs(frames@) =~= before.push(frame@));
                        assert(split_frames(rest@).0 =~= seq![frame@] + split_frames(next@).0);
                        assert(string_seqs(frames@) + split_frames(next@).0 =~= before + split_frames(rest@).0);
                    }
                    rest = next;
                },
                None => {
                    assert(split_frames(rest@).0 =~= Seq::<Seq<char>>::empty());
                    assert(split_frames(rest@).1 == rest@);
                    assert(string_seqs(frames@) =~= split_frames(whole).0);
                    break;
                },
            }
        }
        self.buffer = rest;
        frames
    }
}

/// Framing does not depend on where the stream was cut: receiving `a` and
/// then `b` gives, in total, the frames and the rest that receiving `a`
/// and `b` as one piece gives.
pub proof fn law_framing_independent_of_cuts(buffer: Seq<char>, a: Seq<char>, b: Seq<char>)
    ensures
        split_frames(buffer + a).0 + split_frames(split_frames(buffer + a).1 + b).0 == split_frames(
            buffer + (a + b),
        ).0,
        split_frames(split_frames(buffer + a).1 + b).1 == split_frames(buffer + (a + b)).1,
{
    lemma_split_frames_append(buffer + a, b);
    assert(buffer + a + b =~= buffer + (a + b));
}

// ===========================================================================
// Lines of a frame
// ===========================================================================

/// What a line of a frame carries.
pub enum SseLine {
    /// The `[DONE]` marker.
    Done,
    /// The data of a `data:` line.
    Data(String),
}

/// The model of an [`SseLine`].
pub enum SseLineModel {
    Done,
    Data(Seq<char>),
}

impl View for SseLine {
    type V = SseLineModel;

    open spec fn view(&self) -> SseLineModel {
        match self {
            SseLine::Done => SseLineModel::Done,
            SseLine::Data(d) => SseLineModel::Data(d@),
        }
    }
}

/// The lines of a text: the pieces between line breaks.
pub open spec fn split_lines(s: Seq<char>) -> Seq<Seq<char>>
    decreases s.len(),
{
    match first_index_of(s, '\n') {
        Some(i) => if 0 <= i < s.len() {
            seq![s.subrange(0, i)] + split_lines(s.subrange(i + 1, s.len() as int))
        } else {
            seq![s]
        },
        None => seq![s],
    }
}

/// What a line carries, once trimmed: `[DONE]` is the end marker; after
/// `data:` comes data (trimmed); blank and other lines carry nothing.
pub open spec fn classify_line(line: Seq<char>) -> Option<SseLineModel> {
    let t = trim(line);
    if t.len() == 0 {
        None
    } else if t == "[DONE]"@ {
        Some(SseLineModel::Done)
    } else if has_prefix(t, "data:"@) {
        Some(SseLineModel::Data(trim(t.subrange(5, t.len() as int))))
    } else {
        None
    }
}

/// What the lines carry, in order.
pub open spec fn classify_lines(lines: Seq<Seq<char>>) -> Seq<SseLineModel>
    decreases lines.len(),
{
    if lines.len() == 0 {
        seq![]
    } else {
        (match classify_line(lines[0]) {
            Some(l) => seq![l],
            None => seq![],
        }) + classify_lines(lines.drop_first())
    }
}

/// What the lines of a frame carry.
pub open spec fn frame_lines_spec(frame: Seq<char>) -> Seq<SseLineModel> {
    classify_lines(split_lines(frame))
}

/// What one line carries (see [`classify_line`]).
fn classify(line: &str) -> (r: Option<SseLine>)
    ensures
        match r {
            Some(l) => classify_line(line@) == Some(l@),
            None => classify_line(line@) is None,
        },
{
    let t = trim_str(line);
    proof {
        reveal_strlit("data:");
    }
    if t.unicode_len() == 0 {
        None
    } else if str_eq(t.as_str(), "[DONE]") {
        Some(SseLine::Done)
    } else if starts_with(t.as_str(), "data:") {
        let v = chars_of(t.as_str());
        let data = string_from(&v, 5, v.len());
        Some(SseLine::Data(trim_str(data.as_str())))
    } else {
        None
    }
}

/// Models of lines.
pub open spec fn lines_model(v: Seq<SseLine>) -> Seq<SseLineModel> {
    v.map_values(|l: SseLine| l@)
}

/// What the lines of a frame carry, in order (see [`frame_lines_spec`]).
pub fn frame_lines(frame: &str) -> (r: Vec<SseLine>)
    ensures
        lines_model(r@) == frame_lines_spec(frame@),
{
    let mut out: Vec<SseLine> = Vec::new();
    let mut rest = crate::text::owned(frame);
    loop
        invariant_except_break
            lines_model(out@) + classify_lines(split_lines(rest@)) == frame_lines_spec(frame@),
        ensures
            lines_model(out@) == frame_lines_spec(frame@),
        decreases rest@.len(),
    {
        let v = chars_of(rest.as_str());
        proof {
            lemma_first_index_facts(v@, '\n');
        }
        match crate::text::find_char(&v, '\n') {
            Some(i) => {
                let line = string_from(&v, 0, i);
                let next = string_from(&v, i + 1, v.len());
                let ghost before = lines_model(out@);
                let ghost ls = split_lines(rest@);
                proof {
                    assert(ls =~= seq![line@] + split_lines(next@));
                    assert(ls[0] == line@);
                    assert(ls.drop_first() =~= split_lines(next@));
                }
                match classify(line.as_str()) {
                    Some(l) => {
                        out.push(l);
                        assert(lines_model(out@) =~= before + seq![l@]);
                    },
                    None => {},
                }
                assert(lines_model(out@) + classify_lines(split_lines(next@)) =~= before + classify_lines(ls));
                rest = next;
            },
            None => {
                let ghost before = lines_model(out@);
                let ghost ls = split_lines(rest@);
                assert(ls =~= seq![rest@]);
                assert(ls.drop_first() =~= Seq::<Seq<char>>::empty());
                assert(classify_lines(ls.drop_first()) =~= Seq::<SseLineModel>::empty());
                assert(ls[0] == rest@);
                match classify(rest.as_str()) {
                    Some(l) => {
                        out.push(l);
                        assert(lines_model(out@) =~= before + seq![l@]);
                    },
                    None => {},
                }
                assert(lines_model(out@) =~= before + classify_lines(ls));
                break;
            },
        }
    }
    out
}

/// The lines of a frame that are not blank, trimmed, in order.
pub open spec fn trimmed_lines_of(lines: Seq<Seq<char>>) -> Seq<Seq<char>>
    decreases lines.len(),
{
    if lines.len() == 0 {
        seq![]
    } else {
        (if trim(lines[0]).len() == 0 {
            seq![]
        } else {
            seq![trim(lines[0])]
        }) + trimmed_lines_of(lines.drop_first())
    }
}

/// The lines of a frame that are not blank, trimmed, in order: what a
/// pass-through stream forwards as data.
pub fn trimmed_lines(frame: &str) -> (r: Vec<String>)
    ensures
        string_seqs(r@) == trimmed_lines_of(split_lines(frame@)),
{
    let mut out: Vec<String> = Vec::new();
    let mut rest = crate::text::owned(frame);
    loop
        invariant_except_break
            string_seqs(out@) + trimmed_lines_of(split_lines(rest@)) == trimmed_lines_of(split_lines(frame@)),
        ensures
            string_seqs(out@) == trimmed_lines_of(split_lines(frame@)),
        decreases rest@.len(),
    {
        let v = chars_of(rest.as_str());
        proof {
            lemma_first_index_facts(v@, '\n');
        }
        match crate::text::find_char(&v, '\n') {
            Some(i) => {
                let line = string_from(&v, 0, i);
                let next = string_from(&v, i + 1, v.len());
                let ghost before = string_seqs(out@);
                let ghost ls = split_lines(rest@);
                proof {
                    assert(ls =~= seq![line@] + split_lines(next@));
                    assert(ls[0] == line@);
                    assert(ls.drop_first() =~= split_lines(next@));
                }
                let t = trim_str(line.as_str());
                if t.unicode_len() > 0 {
                    out.push(t);
                }
                assert(string_seqs(out@) + trimmed_lines_of(split_lines(next@)) =~= before + trimmed_lines_of(ls));
                rest = next;
            },
            None => {
                let ghost before = string_seqs(out@);
                let ghost ls = split_lines(rest@);
                assert(ls =~= seq![rest@]);
                assert(ls.drop_first() =~= Seq::<Seq<char>>::empty());
                assert(trimmed_lines_of(ls.drop_first()) =~= Seq::<Seq<char>>::empty());
                assert(ls[0] == rest@);
                let t = trim_str(rest.as_str());
                if t.unicode_len() > 0 {
                    out.push(t);
                }
                assert(string_seqs(out@) =~= before + trimmed_lines_of(ls));
                break;
            },
        }
    }
    out
}

} // verus!
