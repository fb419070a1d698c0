//! The renderer: a JSON value laid out as indented, coloured lines.
use crate::json::{Json, JsonValue, MemberValue};
use crate::number::number_display;
use crate::syntax::{cfmt, indent_unit, painted, tab_text, Syntax};
use crate::text::{nat_text, repeat, repeated, usize_text};
use vstd::prelude::*;

verus! {

/// Arrays and objects are laid out over several lines; the other values fit on one.
pub open spec fn is_container(value: JsonValue) -> bool {
    value is Array || value is Object
}

/// How a boolean is written.
pub open spec fn bool_text(b: bool) -> Seq<char> {
    if b {
        "true"@
    } else {
        "false"@
    }
}

/// What stands before the element at `index` of an array: the index, coloured,
/// and a separator.
pub open spec fn index_prefix(index: nat) -> Seq<char> {
    painted(Syntax::Custom(35), nat_text(index)) + "| "@
}

/// What an object writes for `key` before the value: indentation, the coloured
/// key and a colon; a container value then starts on the next line.
pub open spec fn entry_lead(key: Seq<char>, value: JsonValue, depth: nat) -> Seq<char> {
    tab_text(depth) + painted(Syntax::Key, key) + ": "@ + if is_container(value) {
        "\n"@
    } else {
        Seq::<char>::empty()
    }
}

/// The depth at which an object's entry renders its value: one level deeper for
/// a container, none for a value that follows the key on the same line.
pub open spec fn entry_depth(value: JsonValue, depth: nat) -> nat {
    if is_container(value) {
        depth + 1
    } else {
        0
    }
}

/// The text of `value` at nesting depth `depth`; `prefix` stands before a
/// boolean, a number or a string.
pub open spec fn rendered(value: JsonValue, prefix: Seq<char>, depth: nat) -> Seq<char>
    decreases value, 0nat,
{
    match value {
        JsonValue::Null => tab_text(depth) + painted(Syntax::Null, "null"@) + "\n"@,
        JsonValue::Bool(b) => tab_text(depth) + prefix + painted(Syntax::Bool, bool_text(b))
            + "\n"@,
        JsonValue::Number(text) => tab_text(depth) + prefix + painted(Syntax::Number, text)
            + "\n"@,
        JsonValue::String(text) => tab_text(depth) + prefix + painted(Syntax::String, text)
            + "\n"@,
        JsonValue::Array(items) => rendered_items(items, items.len(), depth),
        JsonValue::Object(entries) => rendered_entries(entries, entries.len(), depth),
    }
}

/// The text of the first `count` elements of an array, in order.
pub open spec fn rendered_items(items: Seq<JsonValue>, count: nat, depth: nat) -> Seq<char>
    decreases items, count,
{
    if count == 0 || count > items.len() {
        Seq::empty()
    } else {
        rendered_items(items, (count - 1) as nat, depth) + rendered(
            items[count - 1],
            index_prefix((count - 1) as nat),
            depth,
        )
    }
}

/// The text of the first `count` entries of an object, in order.
pub open spec fn rendered_entries(
    entries: Seq<MemberValue>,
    count: nat,
    depth: nat,
) -> Seq<char>
    decreases entries, count,
{
    if count == 0 || count > entries.len() {
        Seq::empty()
    } else {
        let entry = entries[count - 1];
        rendered_entries(entries, (count - 1) as nat, depth) + entry_lead(
            entry.key,
            entry.value,
            depth,
        ) + rendered(entry.value, Seq::empty(), entry_depth(entry.value, depth))
    }
}

fn scalar_line(indent: &str, prefix: &str, kind: Syntax, text: &str) -> (out: String)
    ensures
        out@ == painted(Syntax::Custom(30), indent@) + prefix@ + painted(kind, text@) + "\n"@,
{
    let mut out = cfmt(Syntax::Custom(30), indent);
    out.append(prefix);
    out.append(cfmt(kind, text).as_str());
    out.append("\n");
    out
}

fn render_at(data: &Json, prefix: &str, indent: &str, Ghost(depth): Ghost<nat>) -> (out: String)
    requires
        indent@ == repeated(indent_unit(), depth),
    ensures
        out@ == rendered(data@, prefix@, depth),
    decreases data,
{
    match data {
        Json::Null => {
            let mut out = cfmt(Syntax::Custom(30), indent);
            out.append(cfmt(Syntax::Null, "null").as_str());
            out.append("\n");
            out
        },
        Json::Bool(b) => scalar_line(
            indent,
            prefix,
            Syntax::Bool,
            if *b {
                "true"
            } else {
                "false"
            },
        ),
        Json::Number(number) => scalar_line(
            indent,
            prefix,
            Syntax::Number,
            number_display(number).as_str(),
        ),
        Json::String(text) => scalar_line(indent, prefix, Syntax::String, text.as_str()),
        Json::Array(items) => {
            let mut out = String::new();
            let mut i: usize = 0;
            while i < items.len()
                invariant
                    i <= items.len(),
                    data == Json::Array(*items),
                    indent@ == repeated(indent_unit(), depth),
                    out@ == rendered_items(data@->Array_0, i as nat, depth),
                decreases items.len() - i,
            {
                let mut index_text = cfmt(Syntax::Custom(35), usize_text(i).as_str());
                index_text.append("| ");
                let piece = render_at(&items[i], index_text.as_str(), indent, Ghost(depth));
                out.append(piece.as_str());
                i = i + 1;
            }
            out
        },
        Json::Object(entries) => {
            let mut out = String::new();
            let mut i: usize = 0;
            while i < entries.len()
                invariant
                    i <= entries.len(),
                    data == Json::Object(*entries),
                    indent@ == repeated(indent_unit(), depth),
                    out@ == rendered_entries(data@->Object_0, i as nat, depth),
                decreases entries.len() - i,
            {
                let key = &entries[i].key;
                let value = &entries[i].value;
                let mut lead = cfmt(Syntax::Custom(30), indent);
                lead.append(cfmt(Syntax::Key, key.as_str()).as_str());
                lead.append(": ");
                let nothing = String::new();
                let piece = match value {
                    Json::Array(_) | Json::Object(_) => {
                        lead.append("\n");
                        let mut deeper = String::from_str(indent);
                        deeper.append("| ");
                        render_at(value, nothing.as_str(), deeper.as_str(), Ghost(depth + 1))
                    },
                    _ => render_at(value, nothing.as_str(), nothing.as_str(), Ghost(0)),
                };
                assert(data@->Object_0[i as int] == entries[i as int]@);
                out.append(lead.as_str());
                out.append(piece.as_str());
                i = i + 1;
            }
            out
        },
    }
}

/// Renders `data` at nesting depth `depth`, one line for each null, boolean,
/// number and string in it; `prefix` is written before such a value when `data`
/// itself is one.
pub fn render_key_value_pairs(data: &Json, prefix: &str, depth: usize) -> (out: String)
    ensures
        out@ == rendered(data@, prefix@, depth as nat),
{
    let indent = repeat("| ", depth);
    render_at(data, prefix, indent.as_str(), Ghost(depth as nat))
}

} // verus!
