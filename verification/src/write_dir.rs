//! The decisions and file contents of the agent write directory: which widgets stay
//! enabled in headless mode, the generated config files, which files to install,
//! and where the paths come from.
use vstd::prelude::*;

use crate::json::{entries_get, entries_view, lemma_object_view, Json, JsonV};
use crate::json_text::{json_pretty_text, json_text_value, parse_json_text, pretty_text};
use crate::lua::{bootstrap_lua_source, lua_of};
use crate::text::{
    append_range, chars_of, contains_exec, contains_sub, decimal, ends_with, join, key_less,
    key_less_exec, lemma_join_push, occurs_at, occurs_at_exec, opt_str, owned, push_decimal, rfind_exec,
    last_occurrence, starts_with,
};

verus! {

/// Widget names that stay enabled in headless mode.
pub open spec fn agent_widgets() -> Seq<Seq<char>> {
    seq![
        "Agent Bootstrap"@,
        "Agent Manager"@,
        "Agent Threatmap"@,
        "Agent Economy"@,
        "Agent Roster"@,
        "Agent Intel"@,
        "Agent Squads"@,
    ]
}

/// The agent widget names, in their order.
pub fn agent_widget_names() -> (r: Vec<&'static str>)
    ensures
        r@.len() == agent_widgets().len(),
        forall|i: int| 0 <= i < r@.len() ==> (#[trigger] r@[i])@ == agent_widgets()[i],
{
    let r = vec![
        "Agent Bootstrap",
        "Agent Manager",
        "Agent Threatmap",
        "Agent Economy",
        "Agent Roster",
        "Agent Intel",
        "Agent Squads",
    ];
    r
}

/// Whether a line or name mentions one of the agent widgets.
pub open spec fn mentions_agent_widget(s: Seq<char>) -> bool {
    exists|i: int| 0 <= i < agent_widgets().len() && contains_sub(s, #[trigger] agent_widgets()[i])
}

fn mentions_agent_widget_exec(s: &Vec<char>) -> (r: bool)
    ensures
        r == mentions_agent_widget(s@),
{
    let names = agent_widget_names();
    for i in 0..names.len()
        invariant
            names@.len() == agent_widgets().len(),
            forall|m: int| 0 <= m < names@.len() ==> (#[trigger] names@[m])@ == agent_widgets()[m],
            forall|m: int| 0 <= m < i ==> !contains_sub(s@, #[trigger] agent_widgets()[m]),
    {
        let w = chars_of(names[i]);
        if contains_exec(s, &w) {
            return true;
        }
    }
    false
}

/// Check if a widget name is one of our agent widgets.
pub fn is_agent_widget(name: &str) -> (r: bool)
    ensures
        r == mentions_agent_widget(name@),
{
    let cs = chars_of(name);
    mentions_agent_widget_exec(&cs)
}

/// The position of the first newline of `s`.
pub open spec fn newline_index(s: Seq<char>) -> Option<int>
    decreases s.len(),
{
    if s.len() == 0 {
        None
    } else if s[0] == '\n' {
        Some(0)
    } else {
        match newline_index(s.drop_first()) {
            Some(i) => Some(i + 1),
            None => None,
        }
    }
}

pub proof fn lemma_newline_index(s: Seq<char>)
    ensures
        newline_index(s) matches Some(i) ==> 0 <= i < s.len() && s[i] == '\n' && forall|j: int|
            0 <= j < i ==> s[j] != '\n',
        newline_index(s) is None ==> forall|j: int| 0 <= j < s.len() ==> s[j] != '\n',
    decreases s.len(),
{
    if s.len() > 0 && s[0] != '\n' {
        lemma_newline_index(s.drop_first());
        assert forall|j: int| 1 <= j < s.len() implies s[j] == s.drop_first()[j - 1] by {}
    }
}

pub proof fn lemma_newline_at(s: Seq<char>, i: int)
    requires
        0 <= i <= s.len(),
        forall|j: int| 0 <= j < i ==> s[j] != '\n',
        i < s.len() ==> s[i] == '\n',
    ensures
        i < s.len() ==> newline_index(s) == Some(i),
        i == s.len() ==> newline_index(s) is None,
{
    lemma_newline_index(s);
    match newline_index(s) {
        Some(k) => {
            if k < i {
            } else if k > i {
            }
        },
        None => {},
    }
}

/// A line without the carriage return of a `\r\n` ending.
pub open spec fn strip_cr(l: Seq<char>) -> Seq<char> {
    if l.len() > 0 && l.last() == '\r' {
        l.drop_last()
    } else {
        l
    }
}

/// The lines of `s` as `str::lines` gives them: split at `\n` or `\r\n`,
/// with no empty line after a final line ending.
pub open spec fn lines(s: Seq<char>) -> Seq<Seq<char>>
    decreases s.len(),
{
    if s.len() == 0 {
        Seq::empty()
    } else {
        match newline_index(s) {
            None => seq![s],
            Some(i) => {
                proof {
                    lemma_newline_index(s);
                }
                seq![strip_cr(s.take(i))] + lines(s.skip(i + 1))
            },
        }
    }
}

/// How a line of the widget order file reads in headless mode: agent widgets
/// are kept, other `["name"] = n,` entries get the order 0, the rest is kept.
#[verifier::opaque]
pub open spec fn widget_line(l: Seq<char>) -> Seq<char> {
    if mentions_agent_widget(l) {
        l
    } else if contains_sub(l, "] ="@) && !starts_with(l, "--"@) {
        match last_occurrence(l, "= "@) {
            Some(i) => l.take(i + 2) + "0,"@,
            None => l,
        }
    } else {
        l
    }
}

pub open spec fn widget_lines(ls: Seq<Seq<char>>) -> Seq<Seq<char>> {
    Seq::new(ls.len(), |i: int| widget_line(ls[i]))
}

fn widget_line_exec(l: &Vec<char>) -> (r: Vec<char>)
    ensures
        r@ == widget_line(l@),
{
    reveal(widget_line);
    if mentions_agent_widget_exec(l) {
        return l.clone();
    }
    let marker = chars_of("] =");
    let comment = chars_of("--");
    if contains_exec(l, &marker) && !occurs_at_exec(l, &comment, 0) {
        let eq = chars_of("= ");
        match rfind_exec(l, &eq) {
            Some(i) => {
                proof {
                    reveal_strlit("= ");
                }
                let mut r: Vec<char> = Vec::new();
                let mut k: usize = 0;
                assert(i + 2 <= l@.len() && l@.len() == l.len());
                let end = i + 2;
                while k < end
                    invariant
                        last_occurrence(l@, eq@) == Some(i as int),
                        occurs_at(l@, eq@, i as int),
                        eq@ == "= "@,
                        eq@.len() == 2,
                        i + 2 <= l@.len(),
                        end == i + 2,
                        k <= i + 2,
                        r@ == l@.take(k as int),
                    decreases end - k,
                {
                    r.push(l[k]);
                    assert(l@.take(k + 1) =~= l@.take(k as int).push(l@[k as int]));
                    k = k + 1;
                }
                r.push('0');
                r.push(',');
                proof {
                    reveal_strlit("0,");
                    assert(r@ =~= l@.take(i + 2) + "0,"@);
                }
                r
            },
            None => l.clone(),
        }
    } else {
        l.clone()
    }
}

/// Index of the first `c` in `cs` at or after `from`, or the length when there is none.
fn find_char(cs: &Vec<char>, c: char, from: usize) -> (r: usize)
    requires
        from <= cs@.len(),
    ensures
        from <= r <= cs@.len(),
        forall|m: int| from <= m < r ==> cs@[m] != c,
        r < cs@.len() ==> cs@[r as int] == c,
{
    let mut i = from;
    while i < cs.len()
        invariant
            from <= i <= cs@.len(),
            forall|m: int| from <= m < i ==> cs@[m] != c,
        decreases cs@.len() - i,
    {
        if cs[i] == c {
            return i;
        }
        i = i + 1;
    }
    i
}

/// The first line of `cs[k..]` and the position where the rest begins.
fn next_line(cs: &Vec<char>, k: usize) -> (r: (Vec<char>, usize))
    requires
        k < cs@.len(),
    ensures
        k < r.1 <= cs@.len(),
        lines(cs@.skip(k as int)) == seq![r.0@] + lines(cs@.skip(r.1 as int)),
{
    let ghost s = cs@;
    let j = find_char(cs, '\n', k);
    let ghost t = s.skip(k as int);
    proof {
        assert forall|m: int| 0 <= m < j - k implies t[m] != '\n' by {
            assert(t[m] == s[k + m]);
        }
        if j < s.len() {
            assert(t[j - k] == s[j as int]);
        }
        lemma_newline_at(t, j - k);
    }
    let mut end = j;
    if j < cs.len() && end > k && cs[end - 1] == '\r' {
        end = end - 1;
    }
    let mut line: Vec<char> = Vec::new();
    let mut m = k;
    while m < end
        invariant
            k <= m <= end <= s.len(),
            s == cs@,
            line@ == s.subrange(k as int, m as int),
        decreases end - m,
    {
        line.push(cs[m]);
        assert(s.subrange(k as int, m + 1) =~= s.subrange(k as int, m as int).push(s[m as int]));
        m = m + 1;
    }
    if j < cs.len() {
        proof {
            assert(t.take(j - k) =~= s.subrange(k as int, j as int));
            assert(line@ =~= strip_cr(t.take(j - k)));
            assert(t.skip(j - k + 1) =~= s.skip(j + 1));
        }
        (line, j + 1)
    } else {
        proof {
            assert(line@ =~= t);
            assert(s.skip(j as int).len() == 0);
            assert(lines(s.skip(j as int)) == Seq::<Seq<char>>::empty());
            assert(seq![line@] + lines(s.skip(j as int)) =~= seq![t]);
        }
        (line, j)
    }
}

/// The widget order file with every widget but the agent widgets disabled
/// (the lines joined with `\n`, without a final newline).
pub fn disable_other_widgets(content: &str) -> (r: String)
    ensures
        r@ == join(widget_lines(lines(content@)), "\n"@),
{
    let cs = chars_of(content);
    let ghost s = cs@;
    let mut out = String::new();
    let mut k: usize = 0;
    let ghost mut done: Seq<Seq<char>> = Seq::empty();
    proof {
        assert(s.skip(0) =~= s);
        assert(done + lines(s.skip(0)) =~= lines(s));
    }
    while k < cs.len()
        invariant
            s == cs@,
            k <= s.len(),
            lines(s) == done + lines(s.skip(k as int)),
            out@ == join(widget_lines(done), "\n"@),
            k == 0 <==> done.len() == 0,
        decreases s.len() - k,
    {
        let (line, next) = next_line(&cs, k);
        let nl = widget_line_exec(&line);
        let ghost before = out@;
        if k > 0 {
            out.append("\n");
        }
        append_range(&mut out, &nl, 0, nl.len());
        proof {
            assert(nl@.subrange(0, nl@.len() as int) =~= nl@);
            lemma_join_push(widget_lines(done), "\n"@, widget_line(line@));
            assert(widget_lines(done.push(line@)) =~= widget_lines(done).push(widget_line(line@)));
            assert(done + (seq![line@] + lines(s.skip(next as int))) =~= done.push(line@) + lines(
                s.skip(next as int),
            ));
            done = done.push(line@);
        }
        k = next;
    }
    proof {
        assert(s.skip(k as int).len() == 0);
        assert(done + lines(s.skip(k as int)) =~= done);
    }
    out
}

/// The first line of the widget order file written when none exists yet.
pub open spec fn order_header() -> Seq<char> {
    "-- Widget Order List  (0 disables a widget)\nreturn {\n"@
}

/// The entry that enables agent widget `i` with order `i + 1`.
pub open spec fn order_entry(i: int) -> Seq<char> {
    "\t[\""@ + agent_widgets()[i] + "\"] = "@ + decimal((i + 1) as nat) + ",\n"@
}

/// The minimal widget order file: the agent widgets enabled in their order.
pub open spec fn minimal_widget_order() -> Seq<char> {
    order_header() + join(Seq::new(agent_widgets().len(), |i: int| order_entry(i)), Seq::empty())
        + "\tversion = 8,\n}\n"@
}

/// The widget order file to write when there was none before.
pub fn default_widget_order() -> (r: String)
    ensures
        r@ == minimal_widget_order(),
{
    let names = agent_widget_names();
    let ghost parts = Seq::new(agent_widgets().len(), |i: int| order_entry(i));
    let mut out = "-- Widget Order List  (0 disables a widget)\nreturn {\n".to_string();
    let mut body = String::new();
    for i in 0..names.len()
        invariant
            names@.len() == agent_widgets().len(),
            forall|m: int| 0 <= m < names@.len() ==> (#[trigger] names@[m])@ == agent_widgets()[m],
            parts == Seq::new(agent_widgets().len(), |i: int| order_entry(i)),
            body@ == join(parts.take(i as int), Seq::empty()),
    {
        let ghost before = body@;
        body.append("\t[\"");
        body.append(names[i]);
        body.append("\"] = ");
        push_decimal(&mut body, (i + 1) as u64);
        body.append(",\n");
        proof {
            lemma_join_push(parts.take(i as int), Seq::empty(), parts[i as int]);
            assert(parts.take(i + 1) =~= parts.take(i as int).push(parts[i as int]));
            assert(body@ =~= before + parts[i as int]);
            if i > 0 {
                assert(before + Seq::<char>::empty() + parts[i as int] =~= before + parts[i as int]);
            }
        }
    }
    proof {
        assert(parts.take(parts.len() as int) =~= parts);
    }
    out.append(body.as_str());
    out.append("\tversion = 8,\n}\n");
    out
}

/// The engine settings with `LuaAutoModWidgets=0` appended, or `None` when the
/// setting is already there and the file stays as it is.
pub fn with_auto_mod_widgets_off(content: &str) -> (r: Option<String>)
    ensures
        contains_sub(content@, "LuaAutoModWidgets"@) ==> r is None,
        !contains_sub(content@, "LuaAutoModWidgets"@) ==> (r matches Some(t) && t@ == content@
            + "LuaAutoModWidgets=0\n"@),
{
    let cs = chars_of(content);
    let key = chars_of("LuaAutoModWidgets");
    if contains_exec(&cs, &key) {
        None
    } else {
        let mut t = owned(content);
        t.append("LuaAutoModWidgets=0\n");
        Some(t)
    }
}

/// Whether a file of the widget directory is installed: `agent_*.lua`,
/// except `agent_bootstrap.lua`, which is installed on its own.
pub fn is_installable_widget(file_name: &str) -> (r: bool)
    ensures
        r == (starts_with(file_name@, "agent_"@) && ends_with(file_name@, ".lua"@) && file_name@
            != "agent_bootstrap.lua"@),
{
    let cs = chars_of(file_name);
    let prefix = chars_of("agent_");
    let suffix = chars_of(".lua");
    if !occurs_at_exec(&cs, &prefix, 0) {
        return false;
    }
    if suffix.len() > cs.len() || !occurs_at_exec(&cs, &suffix, cs.len() - suffix.len()) {
        return false;
    }
    let name = owned(file_name);
    let boot = owned("agent_bootstrap.lua");
    !(name == boot)
}

/// Whether an installed copy must be (re)written: it is missing, its size differs
/// from the source, or the source was modified after it.
pub fn update_needed(dest_exists: bool, src_len: u64, dest_len: u64, src_is_newer: bool) -> (r: bool)
    ensures
        r == (!dest_exists || src_len != dest_len || src_is_newer),
{
    if !dest_exists {
        return true;
    }
    if src_len != dest_len {
        return true;
    }
    src_is_newer
}

/// The entry that gives a player the AgentBridge AI.
pub open spec fn bridge_entry() -> JsonV {
    JsonV::Object(seq![("ai"@, JsonV::Text("AgentBridge"@)), ("version"@, JsonV::Text("0.1"@))])
}

/// The bootstrap config written on first boot: the agent plays with AgentBridge.
pub open spec fn bootstrap_config_of(agent_name: Seq<char>) -> JsonV {
    JsonV::Object(seq![("players"@, JsonV::Object(seq![(agent_name, bridge_entry())]))])
}

fn bridge_entry_exec() -> (r: Json)
    ensures
        r@ == bridge_entry(),
{
    let es = vec![
        (owned("ai"), Json::Text(owned("AgentBridge"))),
        (owned("version"), Json::Text(owned("0.1"))),
    ];
    proof {
        lemma_object_view(es);
        assert(entries_view(es@) =~= seq![("ai"@, JsonV::Text("AgentBridge"@)), ("version"@, JsonV::Text("0.1"@))]);
    }
    Json::Object(es)
}

/// The bootstrap config for `agent_name`.
pub fn bootstrap_config(agent_name: &str) -> (r: Json)
    ensures
        r@ == bootstrap_config_of(agent_name@),
{
    let inner = vec![(owned(agent_name), bridge_entry_exec())];
    proof {
        lemma_object_view(inner);
        assert(entries_view(inner@) =~= seq![(agent_name@, bridge_entry())]);
    }
    let players = Json::Object(inner);
    let outer = vec![(owned("players"), players)];
    proof {
        lemma_object_view(outer);
        assert(entries_view(outer@) =~= seq![("players"@, JsonV::Object(seq![(agent_name@, bridge_entry())]))]);
    }
    Json::Object(outer)
}

/// The bootstrap config used when none has been written: no players yet.
pub fn empty_bootstrap_config() -> (r: Json)
    ensures
        r@ == JsonV::Object(seq![("players"@, JsonV::Object(Seq::empty()))]),
{
    let players: Vec<(String, Json)> = Vec::new();
    proof {
        lemma_object_view(players);
        assert(entries_view(players@) =~= Seq::<(Seq<char>, JsonV)>::empty());
    }
    let outer = vec![(owned("players"), Json::Object(players))];
    proof {
        lemma_object_view(outer);
        assert(entries_view(outer@) =~= seq![("players"@, JsonV::Object(Seq::empty()))]);
    }
    Json::Object(outer)
}

/// Where a new key goes among sorted entries: before the first greater key.
pub open spec fn insert_pos(es: Seq<(Seq<char>, JsonV)>, k: Seq<char>) -> nat
    decreases es.len(),
{
    if es.len() == 0 {
        0
    } else if key_less(k, es[0].0) {
        0
    } else {
        1 + insert_pos(es.drop_first(), k)
    }
}

/// The entries with `(k, v)` added at its place in key order.
pub open spec fn insert_sorted(es: Seq<(Seq<char>, JsonV)>, k: Seq<char>, v: JsonV) -> Seq<
    (Seq<char>, JsonV),
> {
    es.take(insert_pos(es, k) as int).push((k, v)) + es.skip(insert_pos(es, k) as int)
}

/// The first position of `key` among the entries.
pub open spec fn key_pos(es: Seq<(Seq<char>, JsonV)>, key: Seq<char>) -> int
    decreases es.len(),
{
    if es.len() == 0 {
        0
    } else if es[0].0 == key {
        0
    } else {
        1 + key_pos(es.drop_first(), key)
    }
}

/// The bootstrap config once `player` is whitelisted, and whether it changed:
/// when the config holds a `players` object without `player`, the player is added
/// to it (at its place in key order) with the AgentBridge entry; otherwise
/// nothing changes.
pub open spec fn whitelisted(config: JsonV, player: Seq<char>) -> (JsonV, bool) {
    match config {
        JsonV::Object(es) => match entries_get(es, "players"@) {
            Some(JsonV::Object(ps)) => {
                if entries_get(ps, player) is Some {
                    (config, false)
                } else {
                    (
                        JsonV::Object(
                            es.update(
                                key_pos(es, "players"@),
                                (
                                    "players"@,
                                    JsonV::Object(insert_sorted(ps, player, bridge_entry())),
                                ),
                            ),
                        ),
                        true,
                    )
                }
            },
            _ => (config, false),
        },
        _ => (config, false),
    }
}

pub proof fn lemma_key_found(es: Seq<(Seq<char>, JsonV)>, key: Seq<char>, r: int)
    requires
        0 <= r <= es.len(),
        forall|m: int| 0 <= m < r ==> es[m].0 != key,
        r < es.len() ==> es[r].0 == key,
    ensures
        r < es.len() ==> key_pos(es, key) == r && entries_get(es, key) == Some(es[r].1),
        r == es.len() ==> entries_get(es, key) is None,
    decreases r,
{
    if r > 0 {
        let t = es.drop_first();
        assert forall|m: int| 0 <= m < r - 1 implies t[m].0 != key by {
            assert(t[m] == es[m + 1]);
        }
        if r < es.len() {
            assert(t[r - 1] == es[r]);
        }
        lemma_key_found(t, key, r - 1);
    } else if es.len() > 0 && r == es.len() {
    }
}

proof fn lemma_absent_everywhere(es: Seq<(Seq<char>, JsonV)>, key: Seq<char>)
    requires
        entries_get(es, key) is None,
    ensures
        forall|m: int| 0 <= m < es.len() ==> (#[trigger] es[m]).0 != key,
    decreases es.len(),
{
    if es.len() > 0 {
        lemma_absent_everywhere(es.drop_first(), key);
        assert forall|m: int| 0 <= m < es.len() implies (#[trigger] es[m]).0 != key by {
            if m > 0 {
                assert(es[m] == es.drop_first()[m - 1]);
            }
        }
    }
}

proof fn lemma_present_first(es: Seq<(Seq<char>, JsonV)>, key: Seq<char>)
    requires
        entries_get(es, key) is Some,
    ensures
        0 <= key_pos(es, key) < es.len(),
        es[key_pos(es, key)].0 == key,
        forall|m: int| 0 <= m < key_pos(es, key) ==> (#[trigger] es[m]).0 != key,
    decreases es.len(),
{
    if es[0].0 != key {
        let t = es.drop_first();
        lemma_present_first(t, key);
        assert forall|m: int| 0 <= m < key_pos(es, key) implies (#[trigger] es[m]).0 != key by {
            if m > 0 {
                assert(es[m] == t[m - 1]);
            }
        }
    }
}

proof fn lemma_insert_pos_bound(es: Seq<(Seq<char>, JsonV)>, k: Seq<char>)
    ensures
        insert_pos(es, k) <= es.len(),
    decreases es.len(),
{
    if es.len() > 0 {
        lemma_insert_pos_bound(es.drop_first(), k);
    }
}

/// The empty bootstrap config: a `players` object with nobody in it.
pub open spec fn empty_bootstrap() -> JsonV {
    JsonV::Object(seq![("players"@, JsonV::Object(Seq::empty()))])
}

/// What whitelisting `player` makes of the bootstrap file's text `contents`
/// (none where there is no file, which counts as the empty config): the config
/// and whether it changed; none where serde_json does not read the file as JSON.
pub open spec fn whitelisted_text(contents: Option<Seq<char>>, player: Seq<char>) -> Option<
    (JsonV, bool),
> {
    match contents {
        None => Some(whitelisted(empty_bootstrap(), player)),
        Some(c) => match json_text_value(c) {
            Some(v) => Some(whitelisted(v, player)),
            None => None,
        },
    }
}

/// Whitelist `player` in the bootstrap file whose text is `contents` (`None`
/// where the file does not exist): the new config and whether it changed, or
/// `None` where the file is not JSON.
pub fn whitelist_config_text(contents: Option<String>, player: &str) -> (r: Option<(Json, bool)>)
    ensures
        whitelisted_text(opt_str(contents), player@) == match r {
            Some(p) => Some((p.0@, p.1)),
            None => None,
        },
{
    let config = match contents {
        None => empty_bootstrap_config(),
        Some(c) => match parse_json_text(c.as_str()) {
            Some(v) => v,
            None => return None,
        },
    };
    Some(whitelist_player(config, player))
}

/// The two bootstrap files for `config`: the JSON file, as serde_json writes
/// the config indented, and the Lua file that the widget reads.
pub fn bootstrap_files(config: &Json) -> (r: (String, String))
    ensures
        r.0@ == json_pretty_text(config@),
        r.1@ == "return "@ + lua_of(config@, 0) + "\n"@,
{
    (pretty_text(config), bootstrap_lua_source(config))
}

/// Whitelisting is idempotent: whitelisting a player a second time changes nothing.
pub proof fn law_whitelist_idempotent(config: JsonV, player: Seq<char>)
    ensures
        whitelisted(whitelisted(config, player).0, player) == (whitelisted(config, player).0, false),
{
    if let JsonV::Object(es) = config {
        if let Some(JsonV::Object(ps)) = entries_get(es, "players"@) {
            if entries_get(ps, player) is None {
                let p = key_pos(es, "players"@);
                lemma_present_first(es, "players"@);
                let ps2 = insert_sorted(ps, player, bridge_entry());
                let es2 = es.update(p, ("players"@, JsonV::Object(ps2)));
                assert forall|m: int| 0 <= m < p implies (#[trigger] es2[m]).0 != "players"@ by {
                    assert(es2[m] == es[m]);
                }
                lemma_key_found(es2, "players"@, p);
                let q = insert_pos(ps, player) as int;
                lemma_insert_pos_bound(ps, player);
                lemma_absent_everywhere(ps, player);
                assert(ps2[q] == (player, bridge_entry()));
                assert forall|m: int| 0 <= m < q implies (#[trigger] ps2[m]).0 != player by {
                    assert(ps2[m] == ps[m]);
                }
                lemma_key_found(ps2, player, q);
            }
        }
    }
}

/// The first index of `key` among the entries, or their number when it is absent.
fn find_key(es: &Vec<(String, Json)>, key: &String) -> (r: usize)
    ensures
        r <= es@.len(),
        r < es@.len() ==> es@[r as int].0@ == key@,
        r < es@.len() ==> key_pos(entries_view(es@), key@) == r && entries_get(
            entries_view(es@),
            key@,
        ) == Some(es@[r as int].1@),
        r == es@.len() ==> entries_get(entries_view(es@), key@) is None,
{
    let ghost ev = entries_view(es@);
    let mut i: usize = 0;
    while i < es.len()
        invariant
            i <= es@.len(),
            ev == entries_view(es@),
            forall|m: int| 0 <= m < i ==> (#[trigger] ev[m]).0 != key@,
        decreases es@.len() - i,
    {
        if es[i].0 == *key {
            proof {
                lemma_key_found(ev, key@, i as int);
            }
            return i;
        }
        i = i + 1;
    }
    proof {
        lemma_key_found(ev, key@, i as int);
    }
    i
}

pub proof fn lemma_insert_pos(es: Seq<(Seq<char>, JsonV)>, k: Seq<char>, i: int)
    requires
        0 <= i <= es.len(),
        forall|m: int| 0 <= m < i ==> !key_less(k, #[trigger] es[m].0),
        i < es.len() ==> key_less(k, es[i].0),
    ensures
        insert_pos(es, k) == i,
    decreases i,
{
    if i > 0 {
        let t = es.drop_first();
        assert forall|m: int| 0 <= m < i - 1 implies !key_less(k, #[trigger] t[m].0) by {
            assert(t[m] == es[m + 1]);
        }
        if i < es.len() {
            assert(t[i - 1] == es[i]);
        }
        assert(!key_less(k, es[0].0));
        lemma_insert_pos(t, k, i - 1);
    }
}

/// Where `key` goes among the entries when they are kept in key order.
fn find_insert_pos(es: &Vec<(String, Json)>, key: &String) -> (r: usize)
    ensures
        r as nat == insert_pos(entries_view(es@), key@),
        r <= es@.len(),
{
    let ghost ev = entries_view(es@);
    let kc = chars_of(key.as_str());
    let mut i: usize = 0;
    while i < es.len()
        invariant
            i <= es@.len(),
            ev == entries_view(es@),
            kc@ == key@,
            forall|m: int| 0 <= m < i ==> !key_less(key@, #[trigger] ev[m].0),
        decreases es@.len() - i,
    {
        let ec = chars_of(es[i].0.as_str());
        if key_less_exec(&kc, &ec) {
            proof {
                lemma_insert_pos(ev, key@, i as int);
            }
            return i;
        }
        i = i + 1;
    }
    proof {
        lemma_insert_pos(ev, key@, i as int);
    }
    i
}

/// Whitelist `player` in a bootstrap config (the AgentBridge AI for that player),
/// returning the config and whether it changed.
pub fn whitelist_player(config: Json, player: &str) -> (r: (Json, bool))
    ensures
        (r.0@, r.1) == whitelisted(config@, player@),
{
    let ghost c0 = config@;
    match config {
        Json::Object(mut es) => {
            proof {
                lemma_object_view(es);
            }
            let ghost ev = entries_view(es@);
            let key = owned("players");
            let i = find_key(&es, &key);
            if i == es.len() {
                return (Json::Object(es), false);
            }
            let ghost es0 = es@;
            let (k, v) = es.remove(i);
            let ghost es1 = es@;
            match v {
                Json::Object(mut ps) => {
                    proof {
                        lemma_object_view(ps);
                    }
                    let ghost pv = entries_view(ps@);
                    let pk = owned(player);
                    let j = find_key(&ps, &pk);
                    if j < ps.len() {
                        let ghost kk = k;
                        let ghost vv = Json::Object(ps);
                        es.insert(i, (k, Json::Object(ps)));
                        proof {
                            assert(es@ =~= ev_restore(es1, i as int, (kk, vv)));
                            assert(entries_view(es@) =~= ev);
                            lemma_object_view(es);
                        }
                        return (Json::Object(es), false);
                    }
                    let p = find_insert_pos(&ps, &pk);
                    let entry = bridge_entry_exec();
                    let ghost ent = entry@;
                    ps.insert(p, (pk, entry));
                    proof {
                        lemma_object_view(ps);
                        assert(entries_view(ps@) =~= insert_sorted(pv, player@, bridge_entry()));
                    }
                    let ghost nv = Json::Object(ps)@;
                    let ghost newe = (k, Json::Object(ps));
                    es.insert(i, (k, Json::Object(ps)));
                    proof {
                        assert(es@ =~= es0.update(i as int, newe));
                        assert(nv == JsonV::Object(insert_sorted(pv, player@, bridge_entry())));
                        lemma_object_view(es);
                        assert(entries_view(es@) =~= ev.update(
                            key_pos(ev, "players"@),
                            ("players"@, JsonV::Object(insert_sorted(pv, player@, bridge_entry()))),
                        ));
                    }
                    (Json::Object(es), true)
                },
                other => {
                    let ghost ov = other;
                    es.insert(i, (k, other));
                    proof {
                        assert(es@ =~= ev_restore(es1, i as int, (k, ov)));
                        assert(entries_view(es@) =~= ev);
                        lemma_object_view(es);
                    }
                    (Json::Object(es), false)
                },
            }
        },
        other => (other, false),
    }
}

/// `s` with `x` put back at position `i`.
pub open spec fn ev_restore(s: Seq<(String, Json)>, i: int, x: (String, Json)) -> Seq<(String, Json)> {
    s.insert(i, x)
}

/// Directories shared with the human player's spring home (by symlink).
/// `cache` is left out: the archive cache stores absolute paths.
pub fn shared_dirs() -> (r: Vec<&'static str>)
    ensures
        r@.len() == 6,
        r@[0]@ == "pool"@ && r@[1]@ == "packages"@ && r@[2]@ == "maps"@ && r@[3]@ == "games"@
            && r@[4]@ == "engine"@ && r@[5]@ == "rapid"@,
{
    vec!["pool", "packages", "maps", "games", "engine", "rapid"]
}

/// Directories created inside the write directory.
pub fn agent_subdirs() -> (r: Vec<&'static str>)
    ensures
        r@.len() == 6,
        r@[0]@ == "AI/Skirmish/AgentBridge/0.1"@ && r@[1]@ == "AI/Interfaces"@ && r@[2]@
            == "LuaUI/Widgets"@ && r@[3]@ == "LuaUI/Config"@ && r@[4]@ == "demos"@ && r@[5]@
            == "temp"@,
{
    vec!["AI/Skirmish/AgentBridge/0.1", "AI/Interfaces", "LuaUI/Widgets", "LuaUI/Config", "demos", "temp"]
}

/// `base` joined with the relative path `rel`, as `Path::join` does it:
/// a separator goes between them unless `base` is empty or already ends with one.
pub open spec fn join_path(base: Seq<char>, rel: Seq<char>) -> Seq<char> {
    if base.len() == 0 {
        rel
    } else if base.last() == '/' {
        base + rel
    } else {
        base + "/"@ + rel
    }
}

pub fn join_path_exec(base: &str, rel: &str) -> (r: String)
    ensures
        r@ == join_path(base@, rel@),
{
    let cs = chars_of(base);
    let mut r = owned(base);
    if cs.len() > 0 && cs[cs.len() - 1] != '/' {
        r.append("/");
    }
    r.append(rel);
    r
}

/// The first of `first`, `second` that is given, else `default`.
pub open spec fn first_given(first: Option<Seq<char>>, second: Option<Seq<char>>, default: Seq<char>) -> Seq<char> {
    match first {
        Some(a) => a,
        None => match second {
            Some(b) => b,
            None => default,
        },
    }
}

fn first_given_exec(first: Option<String>, second: Option<String>, default: String) -> (r: String)
    ensures
        r@ == first_given(opt_str(first), opt_str(second), default@),
{
    match first {
        Some(a) => a,
        None => match second {
            Some(b) => b,
            None => default,
        },
    }
}

/// Resolved paths of the agent write directory and the SAI bridge components.
#[derive(Debug, PartialEq)]
pub struct WriteDirConfig {
    pub write_dir: String,
    pub spring_home: String,
    pub sai_bridge_lib: String,
    pub sai_bridge_data: String,
    pub widget_source: String,
    pub widget_dir: String,
    pub agent_name: String,
}

/// Where the settings of a `WriteDirConfig` come from: command-line arguments,
/// environment variables, and the directory the program was built from.
pub struct ConfigSources {
    /// `--write-dir`
    pub write_dir_arg: Option<String>,
    /// `--spring-home`
    pub spring_home_arg: Option<String>,
    /// `--agent-name`
    pub agent_name_arg: Option<String>,
    /// `HOME`
    pub home: Option<String>,
    /// `AGENT_WRITE_DIR`
    pub agent_write_dir: Option<String>,
    /// `SPRING_HOME`
    pub spring_home: Option<String>,
    /// `AGENT_NAME`
    pub agent_name: Option<String>,
    /// `SAI_BRIDGE_LIB`
    pub sai_bridge_lib: Option<String>,
    /// `SAI_BRIDGE_DATA`
    pub sai_bridge_data: Option<String>,
    /// `WIDGET_SOURCE`
    pub widget_source: Option<String>,
    /// `WIDGET_DIR`
    pub widget_dir: Option<String>,
    /// The build directory of the game manager (its manifest directory).
    pub manifest_dir: String,
    /// The parent of `manifest_dir`, when it has one.
    pub manifest_parent: Option<String>,
}

/// The home directory: `HOME`, or `/tmp` when it is not set.
pub open spec fn home_of(src: ConfigSources) -> Seq<char> {
    first_given(opt_str(src.home), None, "/tmp"@)
}

/// The workspace root: the parent of the build directory, or `.`.
pub open spec fn workspace_of(src: ConfigSources) -> Seq<char> {
    first_given(opt_str(src.manifest_parent), None, "."@)
}

impl WriteDirConfig {
    /// Build the config: command-line arguments first, then environment
    /// variables, then defaults under `HOME` and the build directory.
    pub fn from_sources(src: ConfigSources) -> (r: WriteDirConfig)
        ensures
            r.write_dir@ == first_given(
                opt_str(src.write_dir_arg),
                opt_str(src.agent_write_dir),
                home_of(src) + "/.spring-loom"@,
            ),
            r.spring_home@ == first_given(
                opt_str(src.spring_home_arg),
                opt_str(src.spring_home),
                home_of(src) + "/.spring"@,
            ),
            r.agent_name@ == first_given(
                opt_str(src.agent_name_arg),
                opt_str(src.agent_name),
                "loom"@,
            ),
            r.sai_bridge_lib@ == first_given(
                opt_str(src.sai_bridge_lib),
                None,
                join_path(workspace_of(src), "sai-bridge/target/release/libSkirmishAI.so"@),
            ),
            r.sai_bridge_data@ == first_given(
                opt_str(src.sai_bridge_data),
                None,
                join_path(workspace_of(src), "sai-bridge/data"@),
            ),
            r.widget_source@ == first_given(
                opt_str(src.widget_source),
                None,
                join_path(src.manifest_dir@, "data/widgets/agent_bootstrap.lua"@),
            ),
            r.widget_dir@ == first_given(
                opt_str(src.widget_dir),
                None,
                join_path(src.manifest_dir@, "data/widgets"@),
            ),
    {
        let ghost s0 = src;
        let home = first_given_exec(src.home, None, owned("/tmp"));
        let workspace = first_given_exec(src.manifest_parent, None, owned("."));
        let mut default_write_dir = home.clone();
        default_write_dir.append("/.spring-loom");
        let mut default_spring_home = home.clone();
        default_spring_home.append("/.spring");
        let write_dir = first_given_exec(src.write_dir_arg, src.agent_write_dir, default_write_dir);
        let spring_home = first_given_exec(src.spring_home_arg, src.spring_home, default_spring_home);
        let agent_name = first_given_exec(src.agent_name_arg, src.agent_name, owned("loom"));
        let sai_bridge_lib = first_given_exec(
            src.sai_bridge_lib,
            None,
            join_path_exec(workspace.as_str(), "sai-bridge/target/release/libSkirmishAI.so"),
        );
        let sai_bridge_data = first_given_exec(
            src.sai_bridge_data,
            None,
            join_path_exec(workspace.as_str(), "sai-bridge/data"),
        );
        let widget_source = first_given_exec(
            src.widget_source,
            None,
            join_path_exec(src.manifest_dir.as_str(), "data/widgets/agent_bootstrap.lua"),
        );
        let widget_dir = first_given_exec(
            src.widget_dir,
            None,
            join_path_exec(src.manifest_dir.as_str(), "data/widgets"),
        );
        WriteDirConfig {
            write_dir,
            spring_home,
            sai_bridge_lib,
            sai_bridge_data,
            widget_source,
            widget_dir,
            agent_name,
        }
    }
}

/// The engine programs that must be executable.
pub fn engine_binaries() -> (r: Vec<&'static str>)
    ensures
        r@.len() == 2,
        r@[0]@ == "spring"@ && r@[1]@ == "spring-headless"@,
{
    vec!["spring", "spring-headless"]
}

/// A file mode with the execute permission added for owner, group and others.
pub fn with_execute_bits(mode: u32) -> (r: u32)
    ensures
        r == mode | 0o111u32,
{
    mode | 0o111u32
}

} // verus!
