//! Plugin tool results and the routing of tool calls to plugins.
use vstd::prelude::*;

use crate::events::{text_block, text_block_exec};
use crate::json::{json_seq, Json};
use crate::text::owned;
use crate::text::string_views;

verus! {

/// Result of a plugin tool call.
#[derive(Debug, PartialEq)]
pub struct PluginToolResult {
    pub content: Vec<Json>,
    pub is_error: bool,
}

impl PluginToolResult {
    /// A successful result carrying `s` as text.
    pub fn text(s: String) -> (r: Self)
        ensures
            json_seq(r.content@) == seq![text_block(s@)],
            !r.is_error,
    {
        let content = vec![text_block_exec(s.as_str())];
        assert(json_seq(content@) =~= seq![text_block(s@)]);
        Self { content, is_error: false }
    }

    /// A failed result carrying `s` as text.
    pub fn error(s: String) -> (r: Self)
        ensures
            json_seq(r.content@) == seq![text_block(s@)],
            r.is_error,
    {
        let content = vec![text_block_exec(s.as_str())];
        assert(json_seq(content@) =~= seq![text_block(s@)]);
        Self { content, is_error: true }
    }
}

/// Whether a plugin whose tools have these names handles `tool`.
pub fn offers_tool(tool_names: &Vec<String>, tool: &str) -> (r: bool)
    ensures
        r == string_views(tool_names@).contains(tool@),
{
    let t = owned(tool);
    for i in 0..tool_names.len()
        invariant
            t@ == tool@,
            forall|m: int| 0 <= m < i ==> tool_names@[m]@ != tool@,
    {
        if tool_names[i] == t {
            assert(string_views(tool_names@)[i as int] == tool@);
            return true;
        }
    }
    proof {
        if string_views(tool_names@).contains(tool@) {
            let m = choose|m: int|
                0 <= m < string_views(tool_names@).len() && string_views(tool_names@)[m] == tool@;
            assert(tool_names@[m]@ == tool@);
        }
    }
    false
}

/// The result given when a plugin panics while handling a tool.
pub open spec fn panic_message(plugin: Seq<char>, tool: Seq<char>) -> Seq<char> {
    "Plugin '"@ + plugin + "' panicked while handling '"@ + tool + "'"@
}

pub fn plugin_panicked(plugin: &str, tool: &str) -> (r: PluginToolResult)
    ensures
        json_seq(r.content@) == seq![text_block(panic_message(plugin@, tool@))],
        r.is_error,
{
    let mut msg = owned("Plugin '");
    msg.append(plugin);
    msg.append("' panicked while handling '");
    msg.append(tool);
    msg.append("'");
    PluginToolResult::error(msg)
}

} // verus!
