//! The `stats` command's SQL over the request log.

use vstd::prelude::*;
use crate::text::{chars_of, owned, push_char};

verus! {

broadcast use vstd::seq_lib::group_seq_properties;

/// A text as an SQL string literal's contents: each single quote doubled.
pub open spec fn sql_escape(s: Seq<char>) -> Seq<char>
    decreases s.len(),
{
    if s.len() == 0 {
        seq![]
    } else {
        sql_escape(s.drop_last()) + if s.last() == '\'' {
            seq!['\'', '\'']
        } else {
            seq![s.last()]
        }
    }
}

/// The `WHERE` clause that keeps one model's rows; empty without a model.
pub open spec fn model_filter_spec(model: Option<Seq<char>>) -> Seq<char> {
    match model {
        Some(m) => "WHERE model = '"@ + sql_escape(m) + "'"@,
        None => seq![],
    }
}

/// The `WHERE` clause of the statistics query (see [`model_filter_spec`]).
pub fn model_filter_clause(model: Option<&str>) -> (r: String)
    ensures
        r@ == model_filter_spec(
            match model {
                Some(m) => Some(m@),
                None => None,
            },
        ),
{
    let m = match model {
        Some(m) => m,
        None => {
            return String::new();
        },
    };
    let v = chars_of(m);
    let mut out = owned("WHERE model = '");
    let ghost head = out@;
    let mut i: usize = 0;
    while i < v.len()
        invariant
            i <= v.len(),
            v@ == m@,
            out@ == head + sql_escape(v@.take(i as int)),
        decreases v.len() - i,
    {
        proof {
            assert(v@.take(i + 1).drop_last() =~= v@.take(i as int));
            assert(v@.take(i + 1).last() == v@[i as int]);
        }
        if v[i] == '\'' {
            push_char(&mut out, '\'');
            push_char(&mut out, '\'');
        } else {
            push_char(&mut out, v[i]);
        }
        assert(out@ =~= head + sql_escape(v@.take(i + 1)));
        i += 1;
    }
    assert(v@.take(v.len() as int) =~= v@);
    out.append("'");
    out
}

} // verus!
