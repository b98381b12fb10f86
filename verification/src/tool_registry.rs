//! Dynamic tool registry for widget/plugin-provided tools.
//!
//! Tracks tool definitions registered by game-side components (Lua widgets
//! or Rust plugins) and maps them back to their source channel for routing,
//! together with the tool calls that still wait for a result.
use vstd::prelude::*;

use crate::assoc::{lemma_push_to_set, assoc_map, has_key, keys_unique, lemma_finite, lemma_index, lemma_push, lemma_remove, lemma_update};
use crate::json::{Json, JsonV};
use crate::text::{owned, string_views};

verus! {

/// A tool definition registered by a widget or plugin.
#[derive(Debug, PartialEq)]
pub struct ToolDefinition {
    pub name: String,
    pub description: String,
    pub input_schema: Json,
}

pub struct ToolDefinitionV {
    pub name: Seq<char>,
    pub description: Seq<char>,
    pub input_schema: JsonV,
}

impl View for ToolDefinition {
    type V = ToolDefinitionV;

    open spec fn view(&self) -> ToolDefinitionV {
        ToolDefinitionV {
            name: self.name@,
            description: self.description@,
            input_schema: self.input_schema@,
        }
    }
}

/// The views of a sequence of tool definitions.
pub open spec fn tool_views(tools: Seq<ToolDefinition>) -> Seq<ToolDefinitionV> {
    Seq::new(tools.len(), |i: int| tools[i]@)
}

/// The identifier of a JSON-RPC request: a number or a string.
#[derive(Debug, PartialEq)]
pub enum RequestId {
    Number(i64),
    Text(String),
}

/// A tool call that waits for its result from the game side.
pub struct PendingCall {
    /// The MCPL request to answer when the result arrives.
    pub mcpl_request_id: RequestId,
    /// When the call was made: nanoseconds on the registry's monotonic clock.
    pub created_at: u128,
}

/// `std::time::Instant`, declared so that the registry can hold its clock's
/// origin. Nothing inside a value of it is visible or stated.
#[verifier::external_type_specification]
#[verifier::external_body]
pub struct ExInstant(std::time::Instant);

/// `std::time::Instant::now`: a reading of the monotonic clock.
/// Nothing is stated of it: it depends on the time.
#[verifier::external_body]
fn clock_start() -> std::time::Instant {
    std::time::Instant::now()
}

/// `Instant::elapsed` on `origin`, as whole nanoseconds (`Duration::as_nanos`).
/// Nothing is stated of it: it depends on the time.
#[verifier::external_body]
fn nanos_since(origin: &std::time::Instant) -> u128 {
    origin.elapsed().as_nanos()
}

/// Registry of dynamically registered tools from widgets/plugins.
pub struct ToolRegistry {
    /// (channel_id, definition), keyed by the definition's name
    tools: Vec<(String, ToolDefinition)>,
    /// (call_id, pending call)
    pending_calls: Vec<(String, PendingCall)>,
    /// origin of the clock that `PendingCall::created_at` is read on
    clock: std::time::Instant,
    /// the latest reading of that clock taken by the registry (the clock is
    /// monotonic: no later reading is earlier)
    last_reading: u128,
}

/// What a registry holds: tool name → (channel id, definition),
/// and call id → pending call.
pub struct RegistryView {
    pub tools: Map<Seq<char>, (Seq<char>, ToolDefinitionV)>,
    pub pending: Map<Seq<char>, PendingCall>,
}

pub open spec fn tool_pairs(tools: Seq<(String, ToolDefinition)>) -> Seq<
    (Seq<char>, (Seq<char>, ToolDefinitionV)),
> {
    Seq::new(tools.len(), |i: int| (tools[i].1.name@, (tools[i].0@, tools[i].1@)))
}

pub open spec fn pending_pairs(calls: Seq<(String, PendingCall)>) -> Seq<(Seq<char>, PendingCall)> {
    Seq::new(calls.len(), |i: int| (calls[i].0@, calls[i].1))
}

/// The tool map after registering `defs` in order on channel `ch`
/// (a later definition of a name replaces an earlier one).
pub open spec fn register_all(
    m: Map<Seq<char>, (Seq<char>, ToolDefinitionV)>,
    ch: Seq<char>,
    defs: Seq<ToolDefinitionV>,
) -> Map<Seq<char>, (Seq<char>, ToolDefinitionV)>
    decreases defs.len(),
{
    if defs.len() == 0 {
        m
    } else {
        register_all(m, ch, defs.drop_last()).insert(defs.last().name, (ch, defs.last()))
    }
}

/// Unregistering `names` in order from `m`: the map that is left, and the names
/// that were removed (each the first time it was found).
pub open spec fn unregister_all(
    m: Map<Seq<char>, (Seq<char>, ToolDefinitionV)>,
    names: Seq<Seq<char>>,
) -> (Map<Seq<char>, (Seq<char>, ToolDefinitionV)>, Seq<Seq<char>>)
    decreases names.len(),
{
    if names.len() == 0 {
        (m, Seq::empty())
    } else {
        let (m1, r1) = unregister_all(m, names.drop_last());
        let n = names.last();
        if m1.contains_key(n) {
            (m1.remove(n), r1.push(n))
        } else {
            (m1, r1)
        }
    }
}

/// The names of `names` that `m` holds, each at its first occurrence, in the
/// order of `names`.
pub open spec fn first_registered(
    m: Map<Seq<char>, (Seq<char>, ToolDefinitionV)>,
    names: Seq<Seq<char>>,
) -> Seq<Seq<char>>
    decreases names.len(),
{
    if names.len() == 0 {
        Seq::empty()
    } else {
        let earlier = first_registered(m, names.drop_last());
        let n = names.last();
        if m.contains_key(n) && !names.drop_last().contains(n) {
            earlier.push(n)
        } else {
            earlier
        }
    }
}

/// Unregistering removes every named tool, and reports each name that was
/// registered once, at its first occurrence in the request, in request order.
pub proof fn law_unregister_first_occurrences(
    m: Map<Seq<char>, (Seq<char>, ToolDefinitionV)>,
    names: Seq<Seq<char>>,
)
    ensures
        unregister_all(m, names).0 == m.remove_keys(names.to_set()),
        unregister_all(m, names).1 == first_registered(m, names),
    decreases names.len(),
{
    if names.len() == 0 {
        assert(names.to_set() =~= Set::<Seq<char>>::empty());
        assert(m.remove_keys(names.to_set()) =~= m);
    } else {
        let p = names.drop_last();
        let n = names.last();
        law_unregister_first_occurrences(m, p);
        assert(names =~= p.push(n));
        assert(names.to_set() =~= p.to_set().insert(n)) by {
            assert forall|x: Seq<char>| names.to_set().contains(x) <==> p.to_set().insert(n).contains(x) by {
                if names.contains(x) {
                    let i = choose|i: int| 0 <= i < names.len() && names[i] == x;
                    if i < p.len() {
                        assert(p[i] == x);
                    }
                }
                if p.contains(x) {
                    let i = choose|i: int| 0 <= i < p.len() && p[i] == x;
                    assert(names[i] == x);
                }
                assert(names[names.len() - 1] == n);
            }
        }
        let m1 = m.remove_keys(p.to_set());
        assert(m1.contains_key(n) <==> m.contains_key(n) && !p.contains(n));
        if m1.contains_key(n) {
            assert(m1.remove(n) =~= m.remove_keys(names.to_set()));
        } else {
            assert(m1 =~= m.remove_keys(names.to_set()));
        }
    }
}

/// The JSON that lists a tool to an MCP client.
pub open spec fn tool_listing(def: ToolDefinitionV) -> JsonV {
    JsonV::Object(
        seq![
            ("description"@, JsonV::Text(def.description)),
            ("inputSchema"@, def.input_schema),
            ("name"@, JsonV::Text(def.name)),
        ],
    )
}

/// Whether a call made at `call.created_at` has waited longer than `timeout` at `now`.
pub open spec fn call_timed_out(call: PendingCall, now: u128, timeout: u128) -> bool {
    (if now >= call.created_at {
        now - call.created_at
    } else {
        0
    }) > timeout
}

/// The call ids of a list of (call id, request id) pairs.
pub open spec fn call_keys(r: Seq<(String, RequestId)>) -> Seq<Seq<char>> {
    Seq::new(r.len(), |i: int| r[i].0@)
}

/// The pairs of `r` are exactly the calls of `pending` that timed out, each once,
/// and `rest` is what is left of `pending` without them.
pub open spec fn timed_out_split(
    pending: Map<Seq<char>, PendingCall>,
    now: u128,
    timeout: u128,
    r: Seq<(String, RequestId)>,
    rest: Map<Seq<char>, PendingCall>,
) -> bool {
    &&& call_keys(r).no_duplicates()
    &&& forall|k: Seq<char>|
        call_keys(r).contains(k) <==> pending.contains_key(k) && call_timed_out(
            #[trigger] pending[k],
            now,
            timeout,
        )
    &&& forall|i: int|
        0 <= i < r.len() ==> (#[trigger] r[i]).1 == pending[r[i].0@].mcpl_request_id
    &&& rest == pending.remove_keys(call_keys(r).to_set())
}

/// Registering routes each tool to its channel: after `register` on channel `ch`,
/// every registered name resolves to `ch` with the last definition given for it,
/// and every other name keeps what it had.
pub proof fn law_register_routes_to_channel(
    m: Map<Seq<char>, (Seq<char>, ToolDefinitionV)>,
    ch: Seq<char>,
    defs: Seq<ToolDefinitionV>,
    k: Seq<char>,
)
    ensures
        forall|i: int|
            0 <= i < defs.len() && (#[trigger] defs[i]).name == k && (forall|j: int|
                i < j < defs.len() ==> (#[trigger] defs[j]).name != k) ==> register_all(
                m,
                ch,
                defs,
            ).contains_key(k) && register_all(m, ch, defs)[k] == (ch, defs[i]),
        (forall|i: int| 0 <= i < defs.len() ==> (#[trigger] defs[i]).name != k) ==> register_all(
            m,
            ch,
            defs,
        ).contains_key(k) == m.contains_key(k) && (m.contains_key(k) ==> register_all(
            m,
            ch,
            defs,
        )[k] == m[k]),
    decreases defs.len(),
{
    if defs.len() > 0 {
        let d = defs.drop_last();
        law_register_routes_to_channel(m, ch, d, k);
        assert forall|i: int|
            0 <= i < defs.len() && (#[trigger] defs[i]).name == k && (forall|j: int|
                i < j < defs.len() ==> (#[trigger] defs[j]).name != k) implies register_all(
            m,
            ch,
            defs,
        ).contains_key(k) && register_all(m, ch, defs)[k] == (ch, defs[i]) by {
            if i < defs.len() - 1 {
                assert(d[i] == defs[i]);
                assert forall|j: int| i < j < d.len() implies (#[trigger] d[j]).name != k by {
                    assert(d[j] == defs[j]);
                }
                assert(defs[defs.len() - 1].name != k);
            }
        }
        if forall|i: int| 0 <= i < defs.len() ==> (#[trigger] defs[i]).name != k {
            assert forall|i: int| 0 <= i < d.len() implies (#[trigger] d[i]).name != k by {
                assert(d[i] == defs[i]);
            }
            assert(defs[defs.len() - 1].name != k);
        }
    }
}

/// Unregistering removes every named tool: none of `names` is registered afterwards,
/// every other tool stays as it was, and the names reported are exactly the named
/// tools that were registered, each once.
pub proof fn law_unregister_removes_named_tools(
    m: Map<Seq<char>, (Seq<char>, ToolDefinitionV)>,
    names: Seq<Seq<char>>,
)
    ensures
        forall|k: Seq<char>| names.contains(k) ==> !(#[trigger] unregister_all(m, names).0.contains_key(k)),
        forall|k: Seq<char>|
            !names.contains(k) ==> (#[trigger] unregister_all(m, names).0.contains_key(k)
                == m.contains_key(k)) && (m.contains_key(k) ==> unregister_all(m, names).0[k]
                == m[k]),
        unregister_all(m, names).1.no_duplicates(),
        forall|k: Seq<char>|
            #[trigger] unregister_all(m, names).1.contains(k) <==> names.contains(k)
                && m.contains_key(k),
    decreases names.len(),
{
    if names.len() > 0 {
        let d = names.drop_last();
        let n = names.last();
        law_unregister_removes_named_tools(m, d);
        let (m1, r1) = unregister_all(m, d);
        assert forall|k: Seq<char>| names.contains(k) <==> d.contains(k) || k == n by {
            if names.contains(k) {
                let i = choose|i: int| 0 <= i < names.len() && names[i] == k;
                if i < d.len() {
                    assert(d[i] == k);
                }
            }
            if d.contains(k) {
                let i = choose|i: int| 0 <= i < d.len() && d[i] == k;
                assert(names[i] == k);
            }
            if k == n {
                assert(names[names.len() - 1] == k);
            }
        }
        if m1.contains_key(n) {
            assert forall|k: Seq<char>| r1.push(n).contains(k) <==> r1.contains(k) || k == n by {
                if r1.push(n).contains(k) {
                    let i = choose|i: int| 0 <= i < r1.push(n).len() && r1.push(n)[i] == k;
                    if i < r1.len() {
                        assert(r1[i] == k);
                    }
                }
                if r1.contains(k) {
                    let i = choose|i: int| 0 <= i < r1.len() && r1[i] == k;
                    assert(r1.push(n)[i] == k);
                }
                if k == n {
                    assert(r1.push(n)[r1.len() as int] == k);
                }
            }
            assert(!r1.contains(n));
            assert(!d.contains(n));
            assert(m.contains_key(n));
            assert forall|i: int, j: int|
                0 <= i < r1.push(n).len() && 0 <= j < r1.push(n).len() && i != j implies r1.push(
                n,
            )[i] != r1.push(n)[j] by {
                if i < r1.len() && j < r1.len() {
                } else if i < r1.len() {
                    assert(r1.contains(r1[i]));
                } else if j < r1.len() {
                    assert(r1.contains(r1[j]));
                }
            }
        } else {
            if !d.contains(n) {
                assert(!m.contains_key(n));
            }
        }
        let r = unregister_all(m, names).1;
        let m2 = unregister_all(m, names).0;
        assert forall|k: Seq<char>| !names.contains(k) implies (m2.contains_key(k)
            == m.contains_key(k)) && (m.contains_key(k) ==> m2[k] == m[k]) by {
            assert(names.contains(k) <==> d.contains(k) || k == n);
            assert(!d.contains(k) && k != n);
            assert(m1.contains_key(k) == m.contains_key(k));
        }
        assert forall|k: Seq<char>| names.contains(k) implies !m2.contains_key(k) by {
            assert(names.contains(k) <==> d.contains(k) || k == n);
            if d.contains(k) {
                assert(!m1.contains_key(k));
            }
        }
        assert forall|k: Seq<char>| r.contains(k) <==> names.contains(k) && m.contains_key(k) by {
            assert(r1.contains(k) <==> d.contains(k) && m.contains_key(k));
            assert(names.contains(k) <==> d.contains(k) || k == n);
            if m1.contains_key(n) {
                assert(r == r1.push(n));
                assert(r1.push(n).contains(k) <==> r1.contains(k) || k == n);
                assert(!d.contains(n) && m.contains_key(n));
            } else {
                assert(r == r1);
                if k == n && !d.contains(n) {
                    assert(m1.contains_key(n) == m.contains_key(n));
                }
            }
        }
    }
}

/// A tracked call is answered once: right after `track_call_at`, the call is pending
/// with the request id it was tracked with, and once it is completed it is pending no more.
pub proof fn law_track_then_complete(
    pending: Map<Seq<char>, PendingCall>,
    call_id: Seq<char>,
    id: RequestId,
    now: u128,
)
    ensures
        pending.insert(call_id, PendingCall { mcpl_request_id: id, created_at: now }).contains_key(
            call_id,
        ),
        pending.insert(call_id, PendingCall { mcpl_request_id: id, created_at: now })[call_id].mcpl_request_id
            == id,
        !pending.insert(call_id, PendingCall { mcpl_request_id: id, created_at: now }).remove(
            call_id,
        ).contains_key(call_id),
{
}

/// Calls are timed on the registry's own clock. `track_call` stamps a call with
/// a reading of the clock and `collect_timed_out` reads it again, never earlier
/// than the latest reading `floor`: so a pending call stamped at `floor` or
/// before, that had already waited more than `timeout` nanoseconds by then, is
/// returned by the collection and is no longer pending afterwards, with the
/// request id it was tracked with.
pub proof fn law_stale_calls_time_out(
    pending: Map<Seq<char>, PendingCall>,
    floor: u128,
    now: u128,
    timeout: u128,
    r: Seq<(String, RequestId)>,
    rest: Map<Seq<char>, PendingCall>,
    k: Seq<char>,
)
    requires
        pending.contains_key(k),
        pending[k].created_at <= floor,
        floor - pending[k].created_at > timeout,
        now >= floor,
        timed_out_split(pending, now, timeout, r, rest),
    ensures
        exists|i: int| 0 <= i < r.len() && r[i].0@ == k && r[i].1 == pending[k].mcpl_request_id,
        !rest.contains_key(k),
{
    assert(call_timed_out(pending[k], now, timeout));
    assert(call_keys(r).contains(k));
    let i = choose|i: int| 0 <= i < call_keys(r).len() && call_keys(r)[i] == k;
    assert(r[i].0@ == k);
    assert(call_keys(r).to_set().contains(k));
}

/// Collecting timed-out calls leaves none behind: every call still pending afterwards
/// had not timed out and is unchanged, and every call that had not timed out is still pending.
pub proof fn law_collect_leaves_no_timed_out_call(
    pending: Map<Seq<char>, PendingCall>,
    now: u128,
    timeout: u128,
    r: Seq<(String, RequestId)>,
    rest: Map<Seq<char>, PendingCall>,
)
    requires
        timed_out_split(pending, now, timeout, r, rest),
    ensures
        forall|k: Seq<char>|
            #[trigger] rest.contains_key(k) ==> pending.contains_key(k) && rest[k] == pending[k]
                && !call_timed_out(rest[k], now, timeout),
        forall|k: Seq<char>|
            #[trigger] pending.contains_key(k) && !call_timed_out(pending[k], now, timeout)
                ==> rest.contains_key(k),
{
    assert forall|k: Seq<char>| #[trigger] rest.contains_key(k) implies pending.contains_key(k)
        && rest[k] == pending[k] && !call_timed_out(rest[k], now, timeout) by {
        assert(!call_keys(r).to_set().contains(k));
    }
    assert forall|k: Seq<char>|
        #[trigger] pending.contains_key(k) && !call_timed_out(
            pending[k],
            now,
            timeout,
        ) implies rest.contains_key(k) by {
        assert(!call_keys(r).contains(k));
    }
}

/// Closing a channel removes its tools and no other: afterwards no remaining tool
/// routes to the channel, and every tool of another channel is still routed as before.
pub proof fn law_remove_channel_keeps_other_channels(
    m: Map<Seq<char>, (Seq<char>, ToolDefinitionV)>,
    ch: Seq<char>,
    removed: Seq<Seq<char>>,
)
    requires
        forall|k: Seq<char>| removed.contains(k) <==> m.contains_key(k) && (#[trigger] m[k]).0 == ch,
    ensures
        forall|k: Seq<char>|
            #[trigger] m.remove_keys(removed.to_set()).contains_key(k) ==> m.remove_keys(
                removed.to_set(),
            )[k].0 != ch,
        forall|k: Seq<char>|
            m.contains_key(k) && (#[trigger] m[k]).0 != ch ==> m.remove_keys(
                removed.to_set(),
            ).contains_key(k) && m.remove_keys(removed.to_set())[k] == m[k],
{
}

impl View for ToolRegistry {
    type V = RegistryView;

    open spec fn view(&self) -> RegistryView {
        RegistryView { tools: self.tools_map(), pending: self.pending_map() }
    }
}

impl ToolRegistry {
    pub closed spec fn tools_map(&self) -> Map<Seq<char>, (Seq<char>, ToolDefinitionV)> {
        assoc_map(tool_pairs(self.tools@))
    }

    pub closed spec fn pending_map(&self) -> Map<Seq<char>, PendingCall> {
        assoc_map(pending_pairs(self.pending_calls@))
    }

    /// The latest reading of the registry's clock: the stamp of the last call
    /// tracked with `track_call`, or the time of the last `collect_timed_out`.
    pub closed spec fn clock_floor(&self) -> u128 {
        self.last_reading
    }

    /// Every tool name and every call id occurs once.
    pub closed spec fn wf(&self) -> bool {
        &&& keys_unique(tool_pairs(self.tools@))
        &&& keys_unique(pending_pairs(self.pending_calls@))
    }

    /// The order in which `list_tools` walks the registered tools.
    pub closed spec fn tool_order(&self) -> Seq<Seq<char>> {
        Seq::new(self.tools@.len(), |i: int| self.tools@[i].1.name@)
    }

    pub proof fn lemma_tool_order(&self)
        requires
            self.wf(),
        ensures
            self.tool_order().no_duplicates(),
            forall|k: Seq<char>|
                self.tool_order().contains(k) <==> self@.tools.contains_key(k),
            self@.tools.dom().finite(),
    {
        let p = tool_pairs(self.tools@);
        lemma_finite(p);
        assert forall|k: Seq<char>|
            self.tool_order().contains(k) <==> self@.tools.contains_key(k) by {
            if self.tool_order().contains(k) {
                let i = choose|i: int|
                    0 <= i < self.tool_order().len() && self.tool_order()[i] == k;
                assert(p[i].0 == k);
            }
            if self@.tools.contains_key(k) {
                let i = choose|i: int| 0 <= i < p.len() && #[trigger] p[i].0 == k;
                assert(self.tool_order()[i] == k);
            }
        }
        assert forall|i: int, j: int|
            0 <= i < self.tool_order().len() && 0 <= j < self.tool_order().len() && i != j
            implies self.tool_order()[i] != self.tool_order()[j] by {
            assert(p[i].0 != p[j].0);
        }
    }

    pub fn new() -> (r: Self)
        ensures
            r.wf(),
            r@.tools == Map::<Seq<char>, (Seq<char>, ToolDefinitionV)>::empty(),
            r@.pending == Map::<Seq<char>, PendingCall>::empty(),
            r.clock_floor() == 0,
    {
        let r = ToolRegistry {
            tools: Vec::new(),
            pending_calls: Vec::new(),
            clock: clock_start(),
            last_reading: 0,
        };
        assert(r@.tools =~= Map::empty());
        assert(r@.pending =~= Map::empty());
        r
    }

    fn find_tool(&self, name: &String) -> (r: Option<usize>)
        requires
            self.wf(),
        ensures
            r matches Some(i) ==> i < self.tools@.len() && tool_pairs(self.tools@)[i as int].0
                == name@,
            r is None ==> !has_key(tool_pairs(self.tools@), name@),
    {
        let mut i: usize = 0;
        while i < self.tools.len()
            invariant
                i <= self.tools@.len(),
                forall|j: int| 0 <= j < i ==> tool_pairs(self.tools@)[j].0 != name@,
            decreases self.tools@.len() - i,
        {
            if self.tools[i].1.name == *name {
                return Some(i);
            }
            i = i + 1;
        }
        None
    }

    fn find_pending(&self, call_id: &String) -> (r: Option<usize>)
        requires
            self.wf(),
        ensures
            r matches Some(i) ==> i < self.pending_calls@.len() && pending_pairs(
                self.pending_calls@,
            )[i as int].0 == call_id@,
            r is None ==> !has_key(pending_pairs(self.pending_calls@), call_id@),
    {
        let mut i: usize = 0;
        while i < self.pending_calls.len()
            invariant
                i <= self.pending_calls@.len(),
                forall|j: int| 0 <= j < i ==> pending_pairs(self.pending_calls@)[j].0 != call_id@,
            decreases self.pending_calls@.len() - i,
        {
            if self.pending_calls[i].0 == *call_id {
                return Some(i);
            }
            i = i + 1;
        }
        None
    }

    /// Register tools from a specific channel (game instance).
    /// Returns the names of newly registered tools.
    pub fn register(&mut self, channel_id: &str, tools: Vec<ToolDefinition>) -> (registered: Vec<
        String,
    >)
        requires
            old(self).wf(),
        ensures
            final(self).clock_floor() == old(self).clock_floor(),
            final(self).wf(),
            final(self)@.tools == register_all(old(self)@.tools, channel_id@, tool_views(tools@)),
            final(self)@.pending == old(self)@.pending,
            string_views(registered@) == Seq::new(tools@.len(), |i: int| tools@[i].name@),
    {
        let ghost m0 = old(self)@.tools;
        let ghost defs = tools@;
        let mut registered: Vec<String> = Vec::new();
        for tool in it: tools
            invariant
                it.seq() == defs,
                self.wf(),
                self@.tools == register_all(m0, channel_id@, tool_views(defs.take(it.index() as int))),
                self@.pending == old(self)@.pending,
                self.clock_floor() == old(self).clock_floor(),
                string_views(registered@) == Seq::new(
                    it.index() as nat,
                    |i: int| defs[i].name@,
                ),
        {
            let ghost idx = it.index() as int;
            let ghost before = self@.tools;
            let ghost pairs0 = tool_pairs(self.tools@);
            let name = tool.name.clone();
            assert(name@ == defs[idx].name@);
            let ch = owned(channel_id);
            let ghost entry = (tool.name@, (ch@, tool@));
            match self.find_tool(&name) {
                Some(i) => {
                    self.tools.set(i, (ch, tool));
                    proof {
                        lemma_update(pairs0, i as int, entry.1);
                        assert(tool_pairs(self.tools@) =~= pairs0.update(
                            i as int,
                            (pairs0[i as int].0, entry.1),
                        ));
                    }
                },
                None => {
                    self.tools.push((ch, tool));
                    proof {
                        lemma_push(pairs0, entry.0, entry.1);
                        assert(tool_pairs(self.tools@) =~= pairs0.push(entry));
                    }
                },
            }
            proof {
                let tv = tool_views(defs.take(idx + 1));
                assert(tv.drop_last() =~= tool_views(defs.take(idx)));
                assert(tv.last() == defs[idx]@);
            }
            let ghost prev = string_views(registered@);
            registered.push(name);
            proof {
                assert(string_views(registered@) =~= prev.push(defs[idx].name@));
                assert(string_views(registered@) =~= Seq::new(
                    (idx + 1) as nat,
                    |i: int| defs[i].name@,
                ));
            }
        }
        proof {
            assert(defs.take(defs.len() as int) =~= defs);
            assert(tool_views(defs) =~= tool_views(defs.take(defs.len() as int)));
        }
        registered
    }

    /// Unregister specific tools by name.
    /// Returns the names actually removed.
    pub fn unregister(&mut self, tool_names: &[String]) -> (removed: Vec<String>)
        requires
            old(self).wf(),
        ensures
            final(self).clock_floor() == old(self).clock_floor(),
            final(self).wf(),
            (final(self)@.tools, string_views(removed@)) == unregister_all(
                old(self)@.tools,
                string_views(tool_names@),
            ),
            final(self)@.pending == old(self)@.pending,
    {
        let ghost m0 = old(self)@.tools;
        let ghost names = string_views(tool_names@);
        let mut removed: Vec<String> = Vec::new();
        for i in 0..tool_names.len()
            invariant
                self.wf(),
                self.clock_floor() == old(self).clock_floor(),
                names == string_views(tool_names@),
                (self@.tools, string_views(removed@)) == unregister_all(m0, names.take(i as int)),
                self@.pending == old(self)@.pending,
        {
            let ghost pairs0 = tool_pairs(self.tools@);
            let ghost prev = string_views(removed@);
            proof {
                assert(names.take(i + 1).drop_last() =~= names.take(i as int));
                assert(names.take(i + 1).last() == tool_names@[i as int]@);
            }
            match self.find_tool(&tool_names[i]) {
                Some(j) => {
                    proof {
                        lemma_index(pairs0, j as int);
                        lemma_remove(pairs0, j as int);
                    }
                    self.tools.remove(j);
                    proof {
                        assert(tool_pairs(self.tools@) =~= pairs0.remove(j as int));
                    }
                    removed.push(tool_names[i].clone());
                    proof {
                        assert(string_views(removed@) =~= prev.push(tool_names@[i as int]@));
                    }
                },
                None => {},
            }
        }
        proof {
            assert(names.take(tool_names@.len() as int) =~= names);
        }
        removed
    }

    /// Remove all tools belonging to a channel (e.g. when a game ends).
    /// Returns the names of removed tools.
    pub fn remove_channel(&mut self, channel_id: &str) -> (removed: Vec<String>)
        requires
            old(self).wf(),
        ensures
            final(self).clock_floor() == old(self).clock_floor(),
            final(self).wf(),
            string_views(removed@).no_duplicates(),
            forall|k: Seq<char>|
                #![trigger string_views(removed@).contains(k)]
                #![trigger old(self)@.tools[k]]
                string_views(removed@).contains(k) <==> old(self)@.tools.contains_key(k)
                    && old(self)@.tools[k].0 == channel_id@,
            final(self)@.tools == old(self)@.tools.remove_keys(string_views(removed@).to_set()),
            final(self)@.pending == old(self)@.pending,
    {
        let ghost m0 = old(self)@.tools;
        let ch = owned(channel_id);
        let mut removed: Vec<String> = Vec::new();
        let mut i: usize = 0;
        while i < self.tools.len()
            invariant
                self.wf(),
                self.clock_floor() == old(self).clock_floor(),
                ch@ == channel_id@,
                i <= self.tools@.len(),
                forall|j: int| 0 <= j < i ==> (#[trigger] tool_pairs(self.tools@)[j]).1.0 != ch@,
                self@.tools == m0.remove_keys(string_views(removed@).to_set()),
                string_views(removed@).no_duplicates(),
                forall|m: int|
                    0 <= m < removed@.len() ==> m0.contains_key(
                        #[trigger] string_views(removed@)[m],
                    ) && m0[string_views(removed@)[m]].0 == ch@,
                self@.pending == old(self)@.pending,
            decreases self.tools@.len() - i,
        {
            let ghost pairs0 = tool_pairs(self.tools@);
            let ghost prev = string_views(removed@);
            if self.tools[i].0 == ch {
                proof {
                    lemma_index(pairs0, i as int);
                    lemma_remove(pairs0, i as int);
                }
                let (_, def) = self.tools.remove(i);
                proof {
                    assert(tool_pairs(self.tools@) =~= pairs0.remove(i as int));
                    assert forall|j: int| 0 <= j < i implies (#[trigger] tool_pairs(
                        self.tools@,
                    )[j]).1.0 != ch@ by {
                        assert(tool_pairs(self.tools@)[j] == pairs0[j]);
                    }
                }
                let ghost k = def.name@;
                removed.push(def.name);
                proof {
                    assert(string_views(removed@) =~= prev.push(k));
                    assert(pairs0[i as int].0 == k);
                    assert(m0.contains_key(k) && m0[k].0 == ch@);
                    assert(!prev.contains(k));
                    lemma_push_to_set(prev, k);
                    assert(self@.tools =~= m0.remove_keys(string_views(removed@).to_set()));
                    assert forall|m: int| 0 <= m < removed@.len() implies m0.contains_key(
                        #[trigger] string_views(removed@)[m],
                    ) && m0[string_views(removed@)[m]].0 == ch@ by {
                        if m < prev.len() {
                            assert(string_views(removed@)[m] == prev[m]);
                        }
                    }
                }
            } else {
                i = i + 1;
            }
        }
        proof {
            let r = string_views(removed@);
            assert forall|k: Seq<char>| r.contains(k) <==> m0.contains_key(k) && #[trigger] m0[k].0 == ch@ by {
                if r.contains(k) {
                    let m = choose|m: int| 0 <= m < r.len() && r[m] == k;
                    assert(m0.contains_key(r[m]));
                }
                if m0.contains_key(k) && m0[k].0 == ch@ && !r.contains(k) {
                    assert(self@.tools.contains_key(k));
                    let p = tool_pairs(self.tools@);
                    let j = choose|j: int| 0 <= j < p.len() && #[trigger] p[j].0 == k;
                    lemma_index(p, j);
                }
            }
        }
        removed
    }

    /// Get the list of all registered tools as MCP-compatible JSON,
    /// one object per tool, in the order of `tool_order`.
    pub fn list_tools(&self) -> (r: Vec<Json>)
        requires
            self.wf(),
        ensures
            r@.len() == self.tool_order().len(),
            forall|i: int|
                0 <= i < r@.len() ==> (#[trigger] r@[i])@ == tool_listing(
                    self@.tools[self.tool_order()[i]].1,
                ),
    {
        let mut r: Vec<Json> = Vec::new();
        for i in 0..self.tools.len()
            invariant
                self.wf(),
                r@.len() == i,
                forall|j: int|
                    0 <= j < i ==> (#[trigger] r@[j])@ == tool_listing(
                        self@.tools[self.tool_order()[j]].1,
                    ),
        {
            let def = &self.tools[i].1;
            proof {
                lemma_index(tool_pairs(self.tools@), i as int);
            }
            let entries = vec![
                (owned("description"), Json::Text(def.description.clone())),
                (owned("inputSchema"), def.input_schema.deep_clone()),
                (owned("name"), Json::Text(def.name.clone())),
            ];
            proof {
                crate::json::lemma_object_view(entries);
                assert(crate::json::entries_view(entries@) =~= seq![
                    ("description"@, JsonV::Text(def.description@)),
                    ("inputSchema"@, def.input_schema@),
                    ("name"@, JsonV::Text(def.name@)),
                ]);
            }
            r.push(Json::Object(entries));
        }
        r
    }

    /// Resolve a tool name to its source channel ID.
    pub fn resolve_tool(&self, tool_name: &str) -> (r: Option<&str>)
        requires
            self.wf(),
        ensures
            r is Some <==> self@.tools.contains_key(tool_name@),
            r matches Some(ch) ==> ch@ == self@.tools[tool_name@].0,
    {
        let name = owned(tool_name);
        match self.find_tool(&name) {
            Some(i) => {
                proof {
                    lemma_index(tool_pairs(self.tools@), i as int);
                }
                Some(self.tools[i].0.as_str())
            },
            None => None,
        }
    }

    /// Track a pending tool call made at `now` (nanoseconds on the registry's clock).
    pub fn track_call_at(&mut self, call_id: String, mcpl_request_id: RequestId, now: u128)
        requires
            old(self).wf(),
        ensures
            final(self).clock_floor() == old(self).clock_floor(),
            final(self).wf(),
            final(self)@.tools == old(self)@.tools,
            final(self)@.pending == old(self)@.pending.insert(
                call_id@,
                PendingCall { mcpl_request_id, created_at: now },
            ),
    {
        let ghost pairs0 = pending_pairs(self.pending_calls@);
        let ghost k = call_id@;
        let call = PendingCall { mcpl_request_id, created_at: now };
        let ghost v = call;
        match self.find_pending(&call_id) {
            Some(i) => {
                self.pending_calls.set(i, (call_id, call));
                proof {
                    lemma_update(pairs0, i as int, v);
                    assert(pending_pairs(self.pending_calls@) =~= pairs0.update(
                        i as int,
                        (pairs0[i as int].0, v),
                    ));
                }
            },
            None => {
                self.pending_calls.push((call_id, call));
                proof {
                    lemma_push(pairs0, k, v);
                    assert(pending_pairs(self.pending_calls@) =~= pairs0.push((k, v)));
                }
            },
        }
    }

    /// The time of a clock reading: the reading itself, or the latest reading
    /// taken before where that is later (a monotonic clock never goes back).
    pub open spec fn reading_time(&self, reading: u128) -> u128 {
        if reading < self.clock_floor() {
            self.clock_floor()
        } else {
            reading
        }
    }

    /// Track a pending tool call, stamped with `reading`, the nanoseconds that
    /// the registry's clock reads now.
    pub fn track_call_read(&mut self, call_id: String, mcpl_request_id: RequestId, reading: u128)
        requires
            old(self).wf(),
        ensures
            final(self).wf(),
            final(self)@.tools == old(self)@.tools,
            final(self).clock_floor() == old(self).reading_time(reading),
            final(self)@.pending == old(self)@.pending.insert(
                call_id@,
                PendingCall { mcpl_request_id, created_at: old(self).reading_time(reading) },
            ),
    {
        let now = if reading < self.last_reading {
            self.last_reading
        } else {
            reading
        };
        self.track_call_at(call_id, mcpl_request_id, now);
        self.last_reading = now;
    }

    /// Track a pending tool call, stamped with the current time.
    pub fn track_call(&mut self, call_id: String, mcpl_request_id: RequestId)
        requires
            old(self).wf(),
        ensures
            final(self).wf(),
            final(self)@.tools == old(self)@.tools,
            exists|t: u128|
                t >= old(self).clock_floor() && final(self).clock_floor() == t
                    && final(self)@.pending == old(self)@.pending.insert(
                    call_id@,
                    PendingCall { mcpl_request_id, created_at: t },
                ),
    {
        let reading = nanos_since(&self.clock);
        self.track_call_read(call_id, mcpl_request_id, reading);
    }

    /// Complete a pending call, returning the MCPL request ID to respond to.
    pub fn complete_call(&mut self, call_id: &str) -> (r: Option<RequestId>)
        requires
            old(self).wf(),
        ensures
            final(self).clock_floor() == old(self).clock_floor(),
            final(self).wf(),
            final(self)@.tools == old(self)@.tools,
            old(self)@.pending.contains_key(call_id@) ==> r == Some(
                old(self)@.pending[call_id@].mcpl_request_id,
            ) && final(self)@.pending == old(self)@.pending.remove(call_id@),
            !old(self)@.pending.contains_key(call_id@) ==> r is None && final(self)@.pending
                == old(self)@.pending,
    {
        let k = owned(call_id);
        let ghost pairs0 = pending_pairs(self.pending_calls@);
        match self.find_pending(&k) {
            Some(i) => {
                proof {
                    lemma_index(pairs0, i as int);
                    lemma_remove(pairs0, i as int);
                }
                let (_, call) = self.pending_calls.remove(i);
                proof {
                    assert(pending_pairs(self.pending_calls@) =~= pairs0.remove(i as int));
                }
                Some(call.mcpl_request_id)
            },
            None => None,
        }
    }

    /// Remove the calls that have waited longer than `timeout` nanoseconds at `now`,
    /// returning (call_id, mcpl_request_id) for each of them.
    pub fn collect_timed_out_at(&mut self, now: u128, timeout: u128) -> (r: Vec<(String, RequestId)>)
        requires
            old(self).wf(),
        ensures
            final(self).clock_floor() == old(self).clock_floor(),
            final(self).wf(),
            final(self)@.tools == old(self)@.tools,
            timed_out_split(old(self)@.pending, now, timeout, r@, final(self)@.pending),
    {
        let ghost m0 = old(self)@.pending;
        let mut out: Vec<(String, RequestId)> = Vec::new();
        let mut i: usize = 0;
        while i < self.pending_calls.len()
            invariant
                self.wf(),
                self.clock_floor() == old(self).clock_floor(),
                i <= self.pending_calls@.len(),
                forall|j: int|
                    0 <= j < i ==> !call_timed_out(
                        (#[trigger] pending_pairs(self.pending_calls@)[j]).1,
                        now,
                        timeout,
                    ),
                self@.pending == m0.remove_keys(call_keys(out@).to_set()),
                call_keys(out@).no_duplicates(),
                forall|m: int|
                    0 <= m < out@.len() ==> m0.contains_key(#[trigger] call_keys(out@)[m])
                        && call_timed_out(m0[call_keys(out@)[m]], now, timeout) && out@[m].1
                        == m0[call_keys(out@)[m]].mcpl_request_id,
                self@.tools == old(self)@.tools,
            decreases self.pending_calls@.len() - i,
        {
            let ghost pairs0 = pending_pairs(self.pending_calls@);
            let ghost prev = out@;
            let created = self.pending_calls[i].1.created_at;
            let elapsed: u128 = if now >= created {
                now - created
            } else {
                0
            };
            if elapsed > timeout {
                proof {
                    lemma_index(pairs0, i as int);
                    lemma_remove(pairs0, i as int);
                }
                let (k, call) = self.pending_calls.remove(i);
                proof {
                    assert(pending_pairs(self.pending_calls@) =~= pairs0.remove(i as int));
                    assert forall|j: int| 0 <= j < i implies !call_timed_out(
                        (#[trigger] pending_pairs(self.pending_calls@)[j]).1,
                        now,
                        timeout,
                    ) by {
                        assert(pending_pairs(self.pending_calls@)[j] == pairs0[j]);
                    }
                }
                let ghost kv = k@;
                out.push((k, call.mcpl_request_id));
                proof {
                    assert(call_keys(out@) =~= call_keys(prev).push(kv));
                    assert(!call_keys(prev).contains(kv));
                    lemma_push_to_set(call_keys(prev), kv);
                    assert(self@.pending =~= m0.remove_keys(call_keys(out@).to_set()));
                    assert forall|m: int| 0 <= m < out@.len() implies m0.contains_key(
                        #[trigger] call_keys(out@)[m],
                    ) && call_timed_out(m0[call_keys(out@)[m]], now, timeout) && out@[m].1
                        == m0[call_keys(out@)[m]].mcpl_request_id by {
                        if m < prev.len() {
                            assert(call_keys(out@)[m] == call_keys(prev)[m]);
                            assert(out@[m] == prev[m]);
                        }
                    }
                }
            } else {
                i = i + 1;
            }
        }
        proof {
            let keys = call_keys(out@);
            assert forall|k: Seq<char>|
                keys.contains(k) <==> m0.contains_key(k) && call_timed_out(
                    #[trigger] m0[k],
                    now,
                    timeout,
                ) by {
                if keys.contains(k) {
                    let m = choose|m: int| 0 <= m < keys.len() && keys[m] == k;
                    assert(m0.contains_key(keys[m]));
                }
                if m0.contains_key(k) && call_timed_out(m0[k], now, timeout) && !keys.contains(k) {
                    assert(self@.pending.contains_key(k));
                    let p = pending_pairs(self.pending_calls@);
                    let j = choose|j: int| 0 <= j < p.len() && #[trigger] p[j].0 == k;
                    lemma_index(p, j);
                }
            }
            assert forall|m: int| 0 <= m < out@.len() implies (#[trigger] out@[m]).1
                == m0[out@[m].0@].mcpl_request_id by {
                assert(call_keys(out@)[m] == out@[m].0@);
            }
        }
        out
    }

    /// Collect calls that have exceeded the timeout, `timeout_nanos` nanoseconds,
    /// when the registry's clock reads `reading` nanoseconds.
    pub fn collect_timed_out_read(&mut self, reading: u128, timeout_nanos: u128) -> (r: Vec<
        (String, RequestId),
    >)
        requires
            old(self).wf(),
        ensures
            final(self).wf(),
            final(self)@.tools == old(self)@.tools,
            final(self).clock_floor() == old(self).reading_time(reading),
            timed_out_split(
                old(self)@.pending,
                old(self).reading_time(reading),
                timeout_nanos,
                r@,
                final(self)@.pending,
            ),
    {
        let now = if reading < self.last_reading {
            self.last_reading
        } else {
            reading
        };
        let ghost p0 = self@.pending;
        let r = self.collect_timed_out_at(now, timeout_nanos);
        let ghost p1 = self@.pending;
        let ghost t1 = self@.tools;
        self.last_reading = now;
        assert(self@.pending == p1 && self@.tools == t1);
        r
    }

    /// Collect calls that have exceeded the timeout, `timeout_nanos` nanoseconds,
    /// at the time the registry's clock reads now.
    /// Returns (call_id, mcpl_request_id) pairs for timed-out calls.
    pub fn collect_timed_out(&mut self, timeout_nanos: u128) -> (r: Vec<(String, RequestId)>)
        requires
            old(self).wf(),
        ensures
            final(self).wf(),
            final(self)@.tools == old(self)@.tools,
            exists|now: u128|
                now >= old(self).clock_floor() && final(self).clock_floor() == now
                    && timed_out_split(old(self)@.pending, now, timeout_nanos, r@, final(self)@.pending),
    {
        let reading = nanos_since(&self.clock);
        self.collect_timed_out_read(reading, timeout_nanos)
    }

    /// Check if there are any registered tools.
    pub fn has_tools(&self) -> (r: bool)
        requires
            self.wf(),
        ensures
            r <==> exists|k: Seq<char>| self@.tools.contains_key(k),
    {
        proof {
            let p = tool_pairs(self.tools@);
            if self.tools@.len() > 0 {
                lemma_index(p, 0);
                assert(self@.tools.contains_key(p[0].0));
            } else {
                assert forall|k: Seq<char>| !self@.tools.contains_key(k) by {
                    assert(!has_key(p, k));
                }
            }
        }
        self.tools.len() > 0
    }
}

} // verus!
