//! Rendering JSON values as Lua table literals, for the config file that the
//! bootstrap widget reads through `VFS.Include`.
use vstd::prelude::*;

use crate::json::{entries_view, json_seq, lemma_array_view, lemma_object_view, Json, JsonV};
use crate::text::{chars_of, join, lemma_join_push, push_char};

verus! {

/// `n` levels of indentation, two spaces each.
pub open spec fn pad(n: nat) -> Seq<char>
    decreases n,
{
    if n == 0 {
        Seq::empty()
    } else {
        pad((n - 1) as nat) + "  "@
    }
}

/// One character of a Lua string literal: backslash and double quote are escaped.
pub open spec fn escape_char(c: char) -> Seq<char> {
    if c == '\\' {
        seq!['\\', '\\']
    } else if c == '"' {
        seq!['\\', '"']
    } else {
        seq![c]
    }
}

/// The body of a Lua string literal holding `s`.
pub open spec fn escape_lua(s: Seq<char>) -> Seq<char>
    decreases s.len(),
{
    if s.len() == 0 {
        Seq::empty()
    } else {
        escape_lua(s.drop_last()) + escape_char(s.last())
    }
}

/// The Lua literal for `j`, written at nesting depth `indent`.
pub open spec fn lua_of(j: JsonV, indent: nat) -> Seq<char>
    decreases j,
{
    match j {
        JsonV::Object(es) => {
            if es.len() == 0 {
                "{}"@
            } else {
                "{\n"@ + join(lua_entries(es, indent), ",\n"@) + ",\n"@ + pad(indent) + "}"@
            }
        },
        JsonV::Text(s) => "\""@ + escape_lua(s) + "\""@,
        JsonV::Bool(b) => if b {
            "true"@
        } else {
            "false"@
        },
        JsonV::Number(n) => n,
        JsonV::Null => "nil"@,
        JsonV::Array(items) => "{ "@ + join(lua_items(items, indent), ", "@) + " }"@,
    }
}

/// The `["key"] = value` lines of an object at depth `indent`.
pub open spec fn lua_entries(es: Seq<(Seq<char>, JsonV)>, indent: nat) -> Seq<Seq<char>>
    decreases es,
{
    Seq::new(
        es.len(),
        |i: int|
            if 0 <= i < es.len() {
                proof {
                    assert(decreases_to!(es => es[i]));
                    assert(decreases_to!(es[i] => es[i].1));
                }
                pad(indent + 1) + "[\""@ + es[i].0 + "\"] = "@ + lua_of(es[i].1, indent + 1)
            } else {
                Seq::empty()
            },
    )
}

/// The elements of an array at depth `indent`.
pub open spec fn lua_items(items: Seq<JsonV>, indent: nat) -> Seq<Seq<char>>
    decreases items,
{
    Seq::new(
        items.len(),
        |i: int|
            if 0 <= i < items.len() {
                proof {
                    assert(decreases_to!(items => items[i]));
                }
                lua_of(items[i], indent + 1)
            } else {
                Seq::empty()
            },
    )
}

/// Appends the escaped form of `s` to `out`.
fn append_escaped(out: &mut String, s: &str)
    ensures
        final(out)@ == old(out)@ + escape_lua(s@),
{
    let cs = chars_of(s);
    for i in 0..cs.len()
        invariant
            cs@ == s@,
            out@ == old(out)@ + escape_lua(cs@.take(i as int)),
    {
        let c = cs[i];
        if c == '\\' {
            push_char(out, '\\');
            push_char(out, '\\');
        } else if c == '"' {
            push_char(out, '\\');
            push_char(out, '"');
        } else {
            push_char(out, c);
        }
        proof {
            assert(cs@.take(i + 1).drop_last() =~= cs@.take(i as int));
            assert(cs@.take(i + 1).last() == c);
            assert(escape_lua(cs@.take(i + 1)) == escape_lua(cs@.take(i as int)) + escape_char(c));
        }
        assert(out@ =~= old(out)@ + escape_lua(cs@.take(i + 1)));
    }
    assert(cs@.take(cs@.len() as int) =~= cs@);
}

/// Renders `value` at depth `indent`, where `indent_text` is the indentation of that depth.
fn render(value: &Json, indent_text: &String, Ghost(indent): Ghost<nat>) -> (r: String)
    requires
        indent_text@ == pad(indent),
    ensures
        r@ == lua_of(value@, indent),
    decreases value, 0nat,
{
    match value {
        Json::Object(entries) => {
            proof {
                lemma_object_view(*entries);
                assert(decreases_to!(value => entries));
            }
            render_object(entries, indent_text, Ghost(indent))
        },
        Json::Text(s) => {
            let mut out = "\"".to_string();
            append_escaped(&mut out, s.as_str());
            out.append("\"");
            out
        },
        Json::Bool(b) => {
            if *b {
                "true".to_string()
            } else {
                "false".to_string()
            }
        },
        Json::Number(n) => n.clone(),
        Json::Null => "nil".to_string(),
        Json::Array(items) => {
            proof {
                lemma_array_view(*items);
                assert(decreases_to!(value => items));
            }
            render_array(items, indent_text, Ghost(indent))
        },
    }
}

fn render_object(entries: &Vec<(String, Json)>, indent_text: &String, Ghost(indent): Ghost<nat>) -> (r: String)
    requires
        indent_text@ == pad(indent),
    ensures
        r@ == lua_of(JsonV::Object(entries_view(entries@)), indent),
    decreases entries, 1nat,
{
    let ghost es = entries_view(entries@);
    if entries.len() == 0 {
        return "{}".to_string();
    }
    let mut inner = indent_text.clone();
    inner.append("  ");
    assert(inner@ == pad(indent + 1));
    let ghost parts = lua_entries(es, indent);
    let mut out = "{\n".to_string();
    for i in 0..entries.len()
        invariant
            es == entries_view(entries@),
            parts == lua_entries(es, indent),
            inner@ == pad(indent + 1),
            out@ == "{\n"@ + join(parts.take(i as int), ",\n"@),
    {
        let ghost before = out@;
        if i > 0 {
            out.append(",\n");
        }
        out.append(inner.as_str());
        out.append("[\"");
        out.append(entries[i].0.as_str());
        out.append("\"] = ");
        proof {
            assert(decreases_to!(entries => entries@));
            assert(decreases_to!(entries@ => entries@[i as int]));
            assert(decreases_to!(entries@[i as int] => entries@[i as int].1));
        }
        let v = render(&entries[i].1, &inner, Ghost(indent + 1));
        out.append(v.as_str());
        proof {
            assert(es[i as int] == (entries@[i as int].0@, entries@[i as int].1@));
            assert(parts[i as int] == pad(indent + 1) + "[\""@ + entries@[i as int].0@ + "\"] = "@
                + v@);
            lemma_join_push(parts.take(i as int), ",\n"@, parts[i as int]);
            assert(parts.take(i + 1) =~= parts.take(i as int).push(parts[i as int]));
            if i > 0 {
                assert(out@ =~= before + ",\n"@ + parts[i as int]);
            } else {
                assert(out@ =~= before + parts[i as int]);
            }
        }
    }
    out.append(",\n");
    out.append(indent_text.as_str());
    out.append("}");
    proof {
        assert(parts.take(parts.len() as int) =~= parts);
    }
    out
}

fn render_array(items: &Vec<Json>, indent_text: &String, Ghost(indent): Ghost<nat>) -> (r: String)
    requires
        indent_text@ == pad(indent),
    ensures
        r@ == lua_of(JsonV::Array(json_seq(items@)), indent),
    decreases items, 1nat,
{
    let ghost vs = json_seq(items@);
    let ghost parts = lua_items(vs, indent);
    let mut inner = indent_text.clone();
    inner.append("  ");
    let mut out = "{ ".to_string();
    for i in 0..items.len()
        invariant
            vs == json_seq(items@),
            parts == lua_items(vs, indent),
            inner@ == pad(indent + 1),
            out@ == "{ "@ + join(parts.take(i as int), ", "@),
    {
        let ghost before = out@;
        if i > 0 {
            out.append(", ");
        }
        proof {
            assert(decreases_to!(items => items@));
            assert(decreases_to!(items@ => items@[i as int]));
        }
        let v = render(&items[i], &inner, Ghost(indent + 1));
        out.append(v.as_str());
        proof {
            assert(vs[i as int] == items@[i as int]@);
            assert(parts[i as int] == v@);
            lemma_join_push(parts.take(i as int), ", "@, parts[i as int]);
            assert(parts.take(i + 1) =~= parts.take(i as int).push(parts[i as int]));
            if i > 0 {
                assert(out@ =~= before + ", "@ + parts[i as int]);
            } else {
                assert(out@ =~= before + parts[i as int]);
            }
        }
    }
    out.append(" }");
    proof {
        assert(parts.take(parts.len() as int) =~= parts);
    }
    out
}

/// Convert a JSON value to a Lua table literal string, at nesting depth `indent`.
pub fn json_to_lua(value: &Json, indent: usize) -> (r: String)
    ensures
        r@ == lua_of(value@, indent as nat),
{
    let mut pad_text = String::new();
    for i in 0..indent
        invariant
            pad_text@ == pad(i as nat),
    {
        pad_text.append("  ");
    }
    render(value, &pad_text, Ghost(indent as nat))
}

/// The Lua config file generated from the bootstrap JSON config:
/// `return <table>` and a newline.
pub fn bootstrap_lua_source(config: &Json) -> (r: String)
    ensures
        r@ == "return "@ + lua_of(config@, 0) + "\n"@,
{
    let mut out = "return ".to_string();
    let body = json_to_lua(config, 0);
    out.append(body.as_str());
    out.append("\n");
    out
}

} // verus!
