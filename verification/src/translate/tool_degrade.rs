//! Tools that Codex declares with a type of their own (`apply_patch`,
//! `shell`, ...) are sent to providers as plain function tools.

use vstd::prelude::*;
use crate::text::{owned, str_eq};
use crate::types::responses::{tool_function, ResponsesTool, ResponsesToolModel};

verus! {

broadcast use vstd::seq_lib::group_seq_properties;

/// Whether a tool name is one of Codex's special tools.
pub open spec fn is_special_tool(name: Seq<char>) -> bool {
    name == "apply_patch"@ || name == "shell"@ || name == "local_shell"@ || name == "mcp"@ || name
        == "web_search"@ || name == "computer"@
}

/// The function name of a tool (empty when it defines no function).
pub open spec fn tool_name(t: ResponsesToolModel) -> Seq<char> {
    match tool_function(t) {
        Some(f) => f.name,
        None => seq![],
    }
}

/// A tool as it is sent: a special tool becomes a `function` tool; any
/// other tool is unchanged.
pub open spec fn degraded_tool(t: ResponsesToolModel) -> ResponsesToolModel {
    if is_special_tool(tool_name(t)) {
        ResponsesToolModel { tool_type: "function"@, ..t }
    } else {
        t
    }
}

/// The number of special tools.
pub open spec fn special_count(ts: Seq<ResponsesToolModel>) -> nat
    decreases ts.len(),
{
    if ts.len() == 0 {
        0
    } else {
        special_count(ts.drop_last()) + if is_special_tool(tool_name(ts.last())) {
            1nat
        } else {
            0nat
        }
    }
}

/// Whether a name is one of Codex's special tools (see [`is_special_tool`]).
fn special_name(name: &str) -> (r: bool)
    ensures
        r == is_special_tool(name@),
{
    str_eq(name, "apply_patch") || str_eq(name, "shell") || str_eq(name, "local_shell") || str_eq(name, "mcp")
        || str_eq(name, "web_search") || str_eq(name, "computer")
}

/// Turn Codex's special tools into function tools (see [`degraded_tool`]);
/// returns how many were changed.
pub fn degrade_tools(tools: &mut Vec<ResponsesTool>) -> (r: usize)
    ensures
        final(tools)@.map_values(|t: ResponsesTool| t@) == old(tools)@.map_values(
            |t: ResponsesTool| degraded_tool(t@),
        ),
        r == special_count(old(tools)@.map_values(|t: ResponsesTool| t@)),
{
    let ghost orig = old(tools)@.map_values(|t: ResponsesTool| t@);
    let mut count: usize = 0;
    let mut i: usize = 0;
    while i < tools.len()
        invariant
            i <= tools.len() == orig.len(),
            orig == old(tools)@.map_values(|t: ResponsesTool| t@),
            forall|k: int| 0 <= k < i ==> #[trigger] tools@[k]@ == degraded_tool(orig[k]),
            forall|k: int| i <= k < tools.len() ==> #[trigger] tools@[k]@ == orig[k],
            count == special_count(orig.take(i as int)),
            count <= i,
        decreases tools.len() - i,
    {
        proof {
            assert(orig.take(i + 1).drop_last() =~= orig.take(i as int));
            assert(orig.take(i + 1).last() == orig[i as int]);
        }
        let name = match tools[i].get_function() {
            Some(f) => f.name,
            None => String::new(),
        };
        if special_name(name.as_str()) {
            let mut t = tools[i].clone();
            t.tool_type = owned("function");
            tools.set(i, t);
            count += 1;
        }
        i += 1;
    }
    assert(orig.take(tools.len() as int) =~= orig);
    assert(tools@.map_values(|t: ResponsesTool| t@) =~= old(tools)@.map_values(|t: ResponsesTool| degraded_tool(t@)));
    count
}

} // verus!
