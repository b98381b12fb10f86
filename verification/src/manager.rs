//! Decisions of the game manager on what the SAI bridges send: which events
//! update the tool registry, which answer a deferred tool call, and which go on
//! to the agent.
use vstd::prelude::*;

use crate::events::{text_block, text_block_exec, GameEvent};
use crate::json::{entries_view, json_seq, lemma_array_view, lemma_object_view, Json, JsonV};
use crate::text::string_views;
use crate::text::owned;
use crate::tool_registry::{
    register_all, tool_views, unregister_all, RequestId, ToolRegistry,
};

verus! {

/// What the game manager does with an event from a SAI bridge.
#[derive(Debug, PartialEq)]
pub enum SaiEventAction {
    /// Nothing goes to the agent.
    Ignore,
    /// The agent is told that the tool list changed.
    ToolsChanged,
    /// The deferred MCPL request is answered with `result`.
    Respond { request_id: RequestId, result: Json },
    /// The event goes to the agent on its game channel.
    Forward(GameEvent),
}

/// The MCP result of a tool call: `{"content": content, "isError": is_error}`.
pub open spec fn tool_result_json(content: Seq<JsonV>, is_error: bool) -> JsonV {
    JsonV::Object(seq![("content"@, JsonV::Array(content)), ("isError"@, JsonV::Bool(is_error))])
}

pub fn tool_result_response(content: Vec<Json>, is_error: bool) -> (r: Json)
    ensures
        r@ == tool_result_json(json_seq(content@), is_error),
{
    let ghost cv = json_seq(content@);
    proof {
        lemma_array_view(content);
    }
    let arr = Json::Array(content);
    let es = vec![(owned("content"), arr), (owned("isError"), Json::Bool(is_error))];
    proof {
        lemma_object_view(es);
        assert(entries_view(es@) =~= seq![("content"@, JsonV::Array(cv)), ("isError"@, JsonV::Bool(is_error))]);
    }
    Json::Object(es)
}

/// The answer to a tool call that got no result in time.
pub open spec fn timeout_json() -> JsonV {
    tool_result_json(seq![text_block("Tool call timed out (5s)"@)], true)
}

pub fn timeout_response() -> (r: Json)
    ensures
        r@ == timeout_json(),
{
    let content = vec![text_block_exec("Tool call timed out (5s)")];
    assert(json_seq(content@) =~= seq![text_block("Tool call timed out (5s)"@)]);
    tool_result_response(content, true)
}

/// Handle an event from the SAI bridge of channel `channel_id`. Update ticks are
/// dropped; tool registrations and unregistrations update the registry (the agent
/// is told when the tool list changed); a tool result answers its pending call;
/// every other event is forwarded to the agent.
pub fn handle_sai_event(registry: &mut ToolRegistry, channel_id: &str, event: GameEvent) -> (r:
    SaiEventAction)
    requires
        old(registry).wf(),
    ensures
        final(registry).wf(),
        event is Update ==> r is Ignore && final(registry)@ == old(registry)@,
        event matches GameEvent::ToolsRegistered { tools, .. } ==> r is ToolsChanged && final(registry)@.tools == register_all(old(registry)@.tools, channel_id@, tool_views(tools@)) && final(registry)@.pending == old(registry)@.pending,
        event matches GameEvent::ToolsUnregistered { tool_names } ==> {
            let (m, removed) = unregister_all(old(registry)@.tools, string_views(tool_names@));
            &&& final(registry)@.tools == m
            &&& final(registry)@.pending == old(registry)@.pending
            &&& (removed.len() > 0 ==> r is ToolsChanged)
            &&& (removed.len() == 0 ==> r is Ignore)
        },
        event matches GameEvent::ToolResult { call_id, content, is_error } ==> {
            &&& final(registry)@.tools == old(registry)@.tools
            &&& old(registry)@.pending.contains_key(call_id@) ==> (r matches SaiEventAction::Respond {
                request_id,
                result,
            } && request_id == old(registry)@.pending[call_id@].mcpl_request_id && result@
                == tool_result_json(json_seq(content@), is_error) && final(registry)@.pending
                == old(registry)@.pending.remove(call_id@))
            &&& !old(registry)@.pending.contains_key(call_id@) ==> r is Ignore && final(registry)@.pending == old(registry)@.pending
        },
        !(event is Update) && !(event is ToolsRegistered) && !(event is ToolsUnregistered) && !(
        event is ToolResult) ==> r == SaiEventAction::Forward(event) && final(registry)@ == old(registry)@,
{
    match event {
        GameEvent::Update { .. } => SaiEventAction::Ignore,
        GameEvent::ToolsRegistered { tools, .. } => {
            registry.register(channel_id, tools);
            SaiEventAction::ToolsChanged
        },
        GameEvent::ToolsUnregistered { tool_names } => {
            let removed = registry.unregister(tool_names.as_slice());
            if removed.len() > 0 {
                SaiEventAction::ToolsChanged
            } else {
                SaiEventAction::Ignore
            }
        },
        GameEvent::ToolResult { call_id, content, is_error } => {
            match registry.complete_call(call_id.as_str()) {
                Some(request_id) => SaiEventAction::Respond {
                    request_id,
                    result: tool_result_response(content, is_error),
                },
                None => SaiEventAction::Ignore,
            }
        },
        other => SaiEventAction::Forward(other),
    }
}

/// Forget the tools of a closed channel; returns whether the agent must be told
/// that the tool list changed (some tools were removed).
pub fn close_channel_tools(registry: &mut ToolRegistry, channel_id: &str) -> (notify: bool)
    requires
        old(registry).wf(),
    ensures
        final(registry).wf(),
        notify <==> exists|k: Seq<char>|
            old(registry)@.tools.contains_key(k) && (#[trigger] old(registry)@.tools[k]).0
                == channel_id@,
        forall|k: Seq<char>|
            #[trigger] final(registry)@.tools.contains_key(k) <==> old(registry)@.tools.contains_key(k)
                && old(registry)@.tools[k].0 != channel_id@,
        final(registry)@.pending == old(registry)@.pending,
{
    let removed = registry.remove_channel(channel_id);
    proof {
        let r = string_views(removed@);
        if removed@.len() > 0 {
            assert(r.contains(r[0]));
            assert(old(registry)@.tools.contains_key(r[0]) && old(registry)@.tools[r[0]].0
                == channel_id@);
        }
        if exists|k: Seq<char>|
            old(registry)@.tools.contains_key(k) && (#[trigger] old(registry)@.tools[k]).0
                == channel_id@ {
            let k = choose|k: Seq<char>|
                old(registry)@.tools.contains_key(k) && (#[trigger] old(registry)@.tools[k]).0
                    == channel_id@;
            assert(r.contains(k));
        }
    }
    removed.len() > 0
}

} // verus!
